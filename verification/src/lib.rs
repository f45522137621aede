//! A dispatcher that runs named simulation jobs one at a time, and the
//! single-lease work queue it is built on.
//!
//! * [`worker_queue`]: a generic FIFO queue that hands out one lease at a
//!   time, with what holds of every history of calls on it.
//! * [`result_channel`]: such a queue used as the mailbox for one job's
//!   result.
//! * [`read_conf`]: the mapping from simulation names to executables, and the
//!   text format it is loaded from.
//! * [`nmr_queue`]: jobs, the job queue, and the dispatcher as a state
//!   machine from events to actions.
//! * [`trusted`]: what is assumed, without proof, of the `queues` crate and
//!   of std's UTF-8 decoder.
//!
//! Everything else is proved. The library reads no file, starts no process
//! and never waits: whoever drives the dispatcher does that for it.

pub mod nmr_queue;
pub mod read_conf;
pub mod result_channel;
pub mod trusted;
pub mod worker_queue;
