//! What the library takes on trust.
//!
//! Nothing in this file is proved. Each function makes one call into code
//! that lies outside the library and states what that call does: the growable
//! FIFO of the `queues` crate, holding numbers, and the UTF-8 decoder of std.

use queues::IsQueue;
use queues::Queue;
use vstd::prelude::*;
use vstd::utf8::{decode_utf8, valid_utf8};

verus! {

/// `queues::Queue`, opaque to the verifier.
#[verifier::external_type_specification]
#[verifier::external_body]
#[verifier::reject_recursive_types(T)]
pub struct ExQueue<T: Clone>(Queue<T>);

/// The numbers held by a queue, oldest first.
pub uninterp spec fn fifo_slots(q: Queue<usize>) -> Seq<usize>;

/// `Queue::new`: a fresh queue holds nothing.
#[verifier::external_body]
pub(crate) fn fifo_new() -> (q: Queue<usize>)
    ensures
        fifo_slots(q) == Seq::<usize>::empty(),
{
    Queue::new()
}

/// `Queue::add`: the value goes to the back; every earlier value keeps its
/// place. On this queue the call cannot fail and evicts nothing. It pushes
/// onto a `Vec`, which is taken to succeed here as vstd takes `Vec::push` to.
#[verifier::external_body]
pub(crate) fn fifo_add(q: &mut Queue<usize>, slot: usize)
    ensures
        fifo_slots(*final(q)) == fifo_slots(*old(q)).push(slot),
{
    let _ = q.add(slot);
}

/// `Queue::remove`: takes the oldest value out and returns it; on an empty
/// queue it returns an error (here `None`) and changes nothing.
#[verifier::external_body]
pub(crate) fn fifo_remove(q: &mut Queue<usize>) -> (head: Option<usize>)
    ensures
        fifo_slots(*old(q)).len() == 0 ==> head.is_none() && fifo_slots(*final(q)) == fifo_slots(
            *old(q),
        ),
        fifo_slots(*old(q)).len() > 0 ==> head == Some(fifo_slots(*old(q))[0]) && fifo_slots(
            *final(q),
        ) == fifo_slots(*old(q)).drop_first(),
{
    q.remove().ok()
}

/// `Queue::peek`: a copy of the oldest value, or an error (here `None`) when
/// the queue is empty. The queue is not changed.
#[verifier::external_body]
pub(crate) fn fifo_peek(q: &Queue<usize>) -> (head: Option<usize>)
    ensures
        head == if fifo_slots(*q).len() > 0 {
            Some(fifo_slots(*q)[0])
        } else {
            None
        },
{
    q.peek().ok()
}

/// `Queue::size`: how many values are queued.
#[verifier::external_body]
pub(crate) fn fifo_size(q: &Queue<usize>) -> (n: usize)
    ensures
        n == fifo_slots(*q).len(),
{
    q.size()
}

/// `String::from_utf8` of std: the text that the bytes encode, and an error
/// (here `None`) exactly when the bytes are not valid UTF-8.
#[verifier::external_body]
pub(crate) fn text_from_utf8(bytes: Vec<u8>) -> (text: Option<String>)
    ensures
        text is Some <==> valid_utf8(bytes@),
        text matches Some(t) ==> t@ == decode_utf8(bytes@),
{
    String::from_utf8(bytes).ok()
}

} // verus!
