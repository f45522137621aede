use nmr_dispatch::nmr_queue::{Action, Event, JobFailure, NmrQueue, Task};
use nmr_dispatch::result_channel::ResultChannel;

/// Stands in for the worker: performs every action the dispatcher asks for
/// against a fixed configuration text and a table of what each executable
/// prints, and delivers the results into `channels` by their number.
fn run_until_idle(
    queue: &mut NmrQueue,
    conf: Option<&str>,
    programs: &[(&str, bool, &str)],
    channels: &mut Vec<ResultChannel>,
) -> Vec<u64> {
    let mut order = Vec::new();
    let mut event = Event::Wake;
    for _ in 0..1000 {
        event = match queue.step(event) {
            Action::Wait | Action::Stop => return order,
            Action::CheckSource { .. } => Event::SourceStamp(conf.map(|_| 1)),
            Action::ReadSource { .. } => Event::SourceText(conf.map(|text| text.to_string())),
            Action::Launch { command, args } => {
                match programs.iter().find(|(path, _, _)| *path == command) {
                    Some((_, success, prefix)) => Event::Exited {
                        success: *success,
                        stdout: format!("{}{}\n", prefix, args.join(" ")).into_bytes(),
                    },
                    None => Event::LaunchFailed,
                }
            }
            Action::Publish { channel, result } => {
                channels[channel as usize].put(result);
                order.push(channel);
                Event::Published
            }
        };
    }
    panic!("the dispatcher did not come to rest");
}

fn job(simulation: &str, args: &[&str], channel: u64) -> Task {
    Task::new(simulation.to_string(), args.iter().map(|s| s.to_string()).collect(), channel)
}

#[test]
fn a_new_channel_has_nothing_to_take() {
    let mut channel = ResultChannel::new();
    assert!(!channel.is_ready());
    assert_eq!(channel.try_take(), None);
    assert!(!channel.is_ready());
}

#[test]
fn a_result_is_taken_once() {
    let mut channel = ResultChannel::new();
    channel.put(Ok("output".to_string()));
    assert!(channel.is_ready());
    assert_eq!(channel.try_take(), Some(Ok("output".to_string())));
    assert!(!channel.is_ready());
    assert_eq!(channel.try_take(), None);
}

#[test]
fn a_failure_travels_like_an_output() {
    let mut channel = ResultChannel::new();
    channel.put(Err(JobFailure::UnresolvableSimulation));
    assert_eq!(channel.try_take(), Some(Err(JobFailure::UnresolvableSimulation)));
    channel.put(Err(JobFailure::ExecutionFailure));
    assert_eq!(channel.try_take(), Some(Err(JobFailure::ExecutionFailure)));
    assert_eq!(channel.try_take(), None);
}

#[test]
fn results_are_taken_in_the_order_in_which_they_came() {
    let mut channel = ResultChannel::new();
    channel.put(Ok("one".to_string()));
    channel.put(Err(JobFailure::ExecutionFailure));
    channel.put(Ok("three".to_string()));
    assert_eq!(channel.try_take(), Some(Ok("one".to_string())));
    assert_eq!(channel.try_take(), Some(Err(JobFailure::ExecutionFailure)));
    assert!(channel.is_ready());
    assert_eq!(channel.try_take(), Some(Ok("three".to_string())));
    assert_eq!(channel.try_take(), None);
}

#[test]
fn the_submitter_of_an_echo_job_receives_what_echo_prints() {
    let mut queue = NmrQueue::new(Some("conf.txt".to_string()));
    let mut channels = vec![ResultChannel::new()];
    assert_eq!(queue.put(job("echo", &["a:1", ",b:2"], 0)), Ok(()));
    let order = run_until_idle(
        &mut queue,
        Some("echo:/bin/echo\n"),
        &[("/bin/echo", true, "")],
        &mut channels,
    );
    assert_eq!(order, vec![0]);
    assert_eq!(channels[0].try_take(), Some(Ok("a:1 ,b:2\n".to_string())));
    assert_eq!(channels[0].try_take(), None);
    assert_eq!(queue.queued(), 0);
}

#[test]
fn the_submitter_of_an_unknown_simulation_receives_a_failure() {
    let mut queue = NmrQueue::new(Some("conf.txt".to_string()));
    let mut channels = vec![ResultChannel::new()];
    assert_eq!(queue.put(job("nowhere", &[], 0)), Ok(()));
    run_until_idle(&mut queue, Some("echo:/bin/echo\n"), &[("/bin/echo", true, "")], &mut channels);
    assert_eq!(channels[0].try_take(), Some(Err(JobFailure::UnresolvableSimulation)));
    assert_eq!(queue.queued(), 0);
}

#[test]
fn two_submitters_each_receive_the_output_of_their_own_job() {
    let mut queue = NmrQueue::new(Some("conf.txt".to_string()));
    let mut channels = vec![ResultChannel::new(), ResultChannel::new()];
    assert_eq!(queue.put(job("alpha", &["{a:1", ",b:2}"], 0)), Ok(()));
    assert_eq!(queue.put(job("beta", &["{a:4", ",b:5}"], 1)), Ok(()));
    let order = run_until_idle(
        &mut queue,
        Some("alpha:/opt/alpha\nbeta:/opt/beta\n"),
        &[("/opt/alpha", true, "alpha says "), ("/opt/beta", true, "beta says ")],
        &mut channels,
    );
    assert_eq!(order, vec![0, 1]);
    assert_eq!(channels[0].try_take(), Some(Ok("alpha says {a:1 ,b:2}\n".to_string())));
    assert_eq!(channels[1].try_take(), Some(Ok("beta says {a:4 ,b:5}\n".to_string())));
    assert_eq!(channels[0].try_take(), None);
    assert_eq!(channels[1].try_take(), None);
    assert_eq!(queue.queued(), 0);
}

#[test]
fn a_job_that_fails_does_not_keep_the_next_one_from_running() {
    let mut queue = NmrQueue::new(Some("conf.txt".to_string()));
    let mut channels: Vec<ResultChannel> = (0..4).map(|_| ResultChannel::new()).collect();
    assert_eq!(queue.put(job("broken", &[], 0)), Ok(()));
    assert_eq!(queue.put(job("unknown", &[], 1)), Ok(()));
    assert_eq!(queue.put(job("gone", &[], 2)), Ok(()));
    assert_eq!(queue.put(job("fine", &["x"], 3)), Ok(()));
    let order = run_until_idle(
        &mut queue,
        Some("broken:/opt/broken\ngone:/opt/gone\nfine:/opt/fine"),
        &[("/opt/broken", false, ""), ("/opt/fine", true, "ok ")],
        &mut channels,
    );
    assert_eq!(order, vec![0, 1, 2, 3]);
    assert_eq!(channels[0].try_take(), Some(Err(JobFailure::ExecutionFailure)));
    assert_eq!(channels[1].try_take(), Some(Err(JobFailure::UnresolvableSimulation)));
    assert_eq!(channels[2].try_take(), Some(Err(JobFailure::ExecutionFailure)));
    assert_eq!(channels[3].try_take(), Some(Ok("ok x\n".to_string())));
    assert_eq!(queue.queued(), 0);
}

#[test]
fn every_job_fails_to_resolve_while_the_source_cannot_be_read() {
    let mut queue = NmrQueue::new(Some("conf.txt".to_string()));
    let mut channels = vec![ResultChannel::new(), ResultChannel::new()];
    assert_eq!(queue.put(job("echo", &[], 0)), Ok(()));
    assert_eq!(queue.put(job("echo", &[], 1)), Ok(()));
    let order = run_until_idle(&mut queue, None, &[("/bin/echo", true, "")], &mut channels);
    assert_eq!(order, vec![0, 1]);
    assert_eq!(channels[0].try_take(), Some(Err(JobFailure::UnresolvableSimulation)));
    assert_eq!(channels[1].try_take(), Some(Err(JobFailure::UnresolvableSimulation)));
}
