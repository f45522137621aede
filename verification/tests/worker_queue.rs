use nmr_dispatch::worker_queue::TaskQueue;

#[derive(Clone)]
struct TestTask {
    name: String,
}

impl TestTask {
    fn new(name: &str) -> TestTask {
        TestTask { name: name.to_string() }
    }
}

#[test]
fn test_task_queue() {
    let task0 = TestTask::new("t1");
    let task1 = TestTask::new("t2");
    let task2 = TestTask::new("t3");

    let mut task_queue = TaskQueue::new();

    task_queue.put(task0);
    let work = task_queue.get();
    task_queue.task_incomplete(work);

    let work2 = task_queue.get();
    let task = work2.get_task();
    assert_eq!(task.name, "t1");

    task_queue.put(task1);
    task_queue.task_done(work2);
    task_queue.put(task2);

    let work3 = task_queue.get();
    let task = work3.get_task();
    assert_eq!(task.name, "t2");
    task_queue.task_done(work3);

    let work4 = task_queue.get();
    let task = work4.get_task();
    assert_eq!(task.name, "t3");
    task_queue.task_done(work4);
}

#[test]
fn new_queue_is_empty_and_grants_nothing() {
    let mut queue: TaskQueue<u32> = TaskQueue::new();
    assert_eq!(queue.size(), 0);
    assert!(!queue.has_work());
    assert!(!queue.is_working());
    assert!(queue.try_get().is_none());
    assert_eq!(queue.size(), 0);
    assert!(!queue.is_working());
}

#[test]
fn default_queue_is_empty() {
    let mut queue: TaskQueue<String> = TaskQueue::default();
    assert_eq!(queue.size(), 0);
    assert!(!queue.has_work());
    assert!(queue.try_get().is_none());
}

#[test]
fn leases_come_in_the_order_of_the_puts() {
    let mut queue: TaskQueue<u32> = TaskQueue::new();
    for n in [7u32, 3, 9, 3, 1] {
        queue.put(n);
    }
    assert_eq!(queue.size(), 5);
    let mut seen = Vec::new();
    while let Some(work) = queue.try_get() {
        seen.push(work.get_task());
        queue.task_done(work);
    }
    assert_eq!(seen, vec![7, 3, 9, 3, 1]);
    assert_eq!(queue.size(), 0);
}

#[test]
fn order_holds_when_puts_and_acks_alternate() {
    let mut queue: TaskQueue<String> = TaskQueue::new();
    let mut seen = Vec::new();
    queue.put("a".to_string());
    queue.put("b".to_string());
    let work = queue.get();
    seen.push(work.get_task());
    queue.put("c".to_string());
    queue.task_done(work);
    queue.put("d".to_string());
    let work = queue.get();
    seen.push(work.get_task());
    queue.task_done(work);
    queue.put("e".to_string());
    while let Some(work) = queue.try_get() {
        seen.push(work.get_task());
        queue.task_done(work);
    }
    assert_eq!(seen, vec!["a", "b", "c", "d", "e"]);
}

#[test]
fn freed_slots_are_used_again_without_changing_the_order() {
    let mut queue: TaskQueue<usize> = TaskQueue::new();
    let mut next_in = 0usize;
    let mut next_out = 0usize;
    for round in 0..50usize {
        for _ in 0..(round % 4 + 1) {
            queue.put(next_in);
            next_in += 1;
        }
        for _ in 0..(round % 3 + 1) {
            match queue.try_get() {
                Some(work) => {
                    assert_eq!(work.get_task(), next_out);
                    next_out += 1;
                    queue.task_done(work);
                }
                None => assert_eq!(queue.size(), 0),
            }
        }
        assert_eq!(queue.size(), next_in - next_out);
        assert_eq!(queue.has_work(), next_in > next_out);
    }
    while let Some(work) = queue.try_get() {
        assert_eq!(work.get_task(), next_out);
        next_out += 1;
        queue.task_done(work);
    }
    assert_eq!(next_out, next_in);
}

#[test]
fn only_one_lease_is_out_at_a_time() {
    let mut queue: TaskQueue<u32> = TaskQueue::new();
    queue.put(1);
    queue.put(2);
    let first = queue.try_get();
    assert!(first.is_some());
    assert!(queue.is_working());
    assert!(queue.try_get().is_none());
    queue.put(3);
    assert!(queue.try_get().is_none());
    assert_eq!(queue.size(), 3);
    queue.task_done(first.unwrap());
    assert!(!queue.is_working());
    let second = queue.try_get();
    assert_eq!(second.as_ref().map(|work| work.get_task()), Some(2));
    assert!(queue.try_get().is_none());
}

#[test]
fn a_lease_given_back_is_granted_again_on_the_same_item() {
    let mut queue: TaskQueue<String> = TaskQueue::new();
    queue.put("first".to_string());
    queue.put("second".to_string());
    let work = queue.get();
    assert_eq!(work.get_task(), "first");
    queue.task_incomplete(work);
    assert_eq!(queue.size(), 2);
    assert!(queue.has_work());
    assert!(!queue.is_working());
    let again = queue.get();
    assert_eq!(again.get_task(), "first");
    assert_eq!(queue.size(), 2);
    queue.task_incomplete(again);
    let third = queue.get();
    assert_eq!(third.get_task(), "first");
    queue.task_done(third);
    assert_eq!(queue.get().get_task(), "second");
}

#[test]
fn an_acknowledgement_removes_one_item_and_the_last_one_empties_the_queue() {
    let mut queue: TaskQueue<u8> = TaskQueue::new();
    queue.put(10);
    queue.put(20);
    let work = queue.get();
    queue.task_done(work);
    assert_eq!(queue.size(), 1);
    assert!(queue.has_work());
    assert!(!queue.is_working());
    let work = queue.get();
    assert_eq!(work.get_task(), 20);
    queue.task_done(work);
    assert_eq!(queue.size(), 0);
    assert!(!queue.has_work());
    assert!(!queue.is_working());
    assert!(queue.try_get().is_none());
}

#[test]
fn a_lease_can_be_given_back_again_and_again() {
    let mut queue: TaskQueue<u8> = TaskQueue::new();
    queue.put(5);
    let work = queue.get();
    queue.task_incomplete(work);
    let work = queue.get();
    let copy = work.get_task();
    queue.task_incomplete(work);
    assert_eq!(copy, 5);
    assert_eq!(queue.size(), 1);
    assert!(queue.has_work());
    assert!(!queue.is_working());
}

#[test]
fn a_lease_carries_a_copy_and_the_queue_keeps_the_item() {
    let mut queue: TaskQueue<Vec<u8>> = TaskQueue::new();
    queue.put(vec![1, 2, 3]);
    let work = queue.get();
    let mut copy = work.get_task();
    copy.push(4);
    assert_eq!(work.get_task(), vec![1, 2, 3]);
    assert_eq!(queue.size(), 1);
    queue.task_incomplete(work);
    assert_eq!(queue.get().get_task(), vec![1, 2, 3]);
}
