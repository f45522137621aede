//! The channel through which the result of one job reaches its submitter.
//!
//! A channel is a [`TaskQueue`] used as a one-shot mailbox: the dispatcher
//! puts the result in, and the submitter takes it out with a lease that it
//! acknowledges at once.

use crate::nmr_queue::{result_view, JobFailure};
use crate::worker_queue::TaskQueue;
use vstd::prelude::*;

verus! {

/// What a channel carries: the output of a job, or why there is none.
enum Delivery {
    Output(String),
    Failed(JobFailure),
}

impl View for Delivery {
    type V = Result<Seq<char>, JobFailure>;

    closed spec fn view(&self) -> Result<Seq<char>, JobFailure> {
        match *self {
            Delivery::Output(text) => Ok(text@),
            Delivery::Failed(failure) => Err(failure),
        }
    }
}

impl Clone for Delivery {
    fn clone(&self) -> (copy: Delivery)
        ensures
            copy@ == self@,
    {
        match self {
            Delivery::Output(text) => Delivery::Output(text.clone()),
            Delivery::Failed(failure) => Delivery::Failed(*failure),
        }
    }
}

/// A mailbox for the result of one job.
pub struct ResultChannel {
    queue: TaskQueue<Delivery>,
}

impl View for ResultChannel {
    type V = Seq<Result<Seq<char>, JobFailure>>;

    /// The results that wait to be taken, oldest first.
    closed spec fn view(&self) -> Seq<Result<Seq<char>, JobFailure>> {
        self.queue@.items.map_values(|delivery: Delivery| delivery@)
    }
}

impl ResultChannel {
    /// The queue underneath is well formed and no lease is left out on it.
    pub closed spec fn wf(&self) -> bool {
        self.queue.wf() && !self.queue@.leased
    }

    /// A channel with nothing in it.
    pub fn new() -> (channel: ResultChannel)
        ensures
            channel.wf(),
            channel@ == Seq::<Result<Seq<char>, JobFailure>>::empty(),
    {
        ResultChannel { queue: TaskQueue::new() }
    }

    /// Puts a result in, behind any that wait.
    pub fn put(&mut self, result: Result<String, JobFailure>)
        requires
            old(self).wf(),
        ensures
            final(self).wf(),
            final(self)@ == old(self)@.push(result_view(result)),
    {
        let delivery = match result {
            Ok(text) => Delivery::Output(text),
            Err(failure) => Delivery::Failed(failure),
        };
        self.queue.put(delivery);
    }

    /// Takes the oldest result out, or says with `None` that none has come
    /// yet.
    pub fn try_take(&mut self) -> (taken: Option<Result<String, JobFailure>>)
        requires
            old(self).wf(),
        ensures
            final(self).wf(),
            match taken {
                Some(result) => {
                    &&& old(self)@.len() > 0
                    &&& result_view(result) == old(self)@[0]
                    &&& final(self)@ == old(self)@.drop_first()
                },
                None => old(self)@.len() == 0 && final(self)@ == old(self)@,
            },
    {
        match self.queue.try_get() {
            Some(work) => {
                let delivery = work.get_task();
                self.queue.task_done(work);
                Some(
                    match delivery {
                        Delivery::Output(text) => Ok(text),
                        Delivery::Failed(failure) => Err(failure),
                    },
                )
            },
            None => None,
        }
    }

    /// Whether a result waits to be taken.
    pub fn is_ready(&self) -> (ready: bool)
        requires
            self.wf(),
        ensures
            ready == (self@.len() > 0),
    {
        self.queue.has_work()
    }
}

} // verus!
