//! The queue between the keyboard interrupt and the keyboard task.
//!
//! The interrupt handler puts every scancode into a queue of fixed
//! capacity; the task takes them out in the same order. The handler must
//! not wait: when the queue is full the scancode is dropped.

use vstd::prelude::*;
use crossbeam_queue::ArrayQueue;

verus! {

/// Number of scancodes that the queue holds at most.
pub const SCANCODE_QUEUE_CAPACITY: usize = 100;

#[verifier::external_type_specification]
#[verifier::external_body]
#[verifier::reject_recursive_types(T)]
pub struct ExArrayQueue<T>(ArrayQueue<T>);

/// The bytes that a queue holds, the oldest first.
pub uninterp spec fn queue_items(queue: ArrayQueue<u8>) -> Seq<u8>;

/// The capacity that a queue was made with.
pub uninterp spec fn queue_capacity(queue: ArrayQueue<u8>) -> nat;

/// Calls `crossbeam_queue::ArrayQueue::new`. Trusted: the new queue is
/// empty and has the capacity asked for.
#[verifier::external_body]
fn new_queue(capacity: usize) -> (queue: ArrayQueue<u8>)
    requires
        0 < capacity <= 0xffff,
    ensures
        queue_items(queue) == Seq::<u8>::empty(),
        queue_capacity(queue) == capacity,
{
    ArrayQueue::new(capacity)
}

/// Calls `crossbeam_queue::ArrayQueue::push` on a queue that nobody else
/// can reach meanwhile. Trusted: the value goes behind the others if the
/// queue holds fewer items than its capacity; else the queue refuses the
/// value and stays as it is.
#[verifier::external_body]
fn push(queue: &mut ArrayQueue<u8>, value: u8) -> (pushed: bool)
    ensures
        queue_capacity(*final(queue)) == queue_capacity(*old(queue)),
        pushed == (queue_items(*old(queue)).len() < queue_capacity(*old(queue))),
        queue_items(*final(queue)) == (if pushed {
            queue_items(*old(queue)).push(value)
        } else {
            queue_items(*old(queue))
        }),
{
    queue.push(value).is_ok()
}

/// Calls `crossbeam_queue::ArrayQueue::pop` on a queue that nobody else
/// can reach meanwhile. Trusted: the oldest item leaves the queue and is
/// returned; an empty queue gives `None` and stays empty.
#[verifier::external_body]
fn pop(queue: &mut ArrayQueue<u8>) -> (value: Option<u8>)
    ensures
        queue_capacity(*final(queue)) == queue_capacity(*old(queue)),
        match value {
            Some(byte) => {
                &&& queue_items(*old(queue)).len() > 0
                &&& byte == queue_items(*old(queue))[0]
                &&& queue_items(*final(queue)) == queue_items(*old(queue)).subrange(
                    1,
                    queue_items(*old(queue)).len() as int,
                )
            },
            None => {
                &&& queue_items(*old(queue)).len() == 0
                &&& queue_items(*final(queue)) == queue_items(*old(queue))
            },
        },
{
    queue.pop()
}

/// What became of a scancode that the interrupt handler handed in.
#[derive(Debug, Clone, Copy, PartialEq, Eq, Structural)]
pub enum ScancodeStatus {
    /// It is in the queue: the keyboard task is to be woken.
    Queued,
    /// The queue was full: the scancode is lost.
    Dropped,
    /// There is no queue yet: the scancode is lost.
    Uninitialized,
}

impl ScancodeStatus {
    /// The warning to print, if the scancode was lost.
    pub fn warning(&self) -> (text: Option<&'static str>)
        ensures
            match *self {
                ScancodeStatus::Queued => text.is_none(),
                ScancodeStatus::Dropped => text.is_some() && text.unwrap()@
                    == "WARNING: scancode queue full; dropping keyboard input"@,
                ScancodeStatus::Uninitialized => text.is_some() && text.unwrap()@
                    == "WARNING: scancode queue uninitialized"@,
            },
    {
        match self {
            ScancodeStatus::Queued => None,
            ScancodeStatus::Dropped => Some(
                "WARNING: scancode queue full; dropping keyboard input",
            ),
            ScancodeStatus::Uninitialized => Some("WARNING: scancode queue uninitialized"),
        }
    }
}

/// The scancodes that wait for the keyboard task, the oldest first.
pub struct ScancodeStream {
    queue: ArrayQueue<u8>,
}

impl View for ScancodeStream {
    type V = Seq<u8>;

    closed spec fn view(&self) -> Seq<u8> {
        queue_items(self.queue)
    }
}

impl ScancodeStream {
    /// The queue has the capacity that every stream is made with and holds
    /// no more than that.
    pub closed spec fn wf(&self) -> bool {
        &&& queue_capacity(self.queue) == SCANCODE_QUEUE_CAPACITY
        &&& self@.len() <= SCANCODE_QUEUE_CAPACITY
    }

    /// An empty stream.
    pub fn new() -> (stream: Self)
        ensures
            stream.wf(),
            stream@ == Seq::<u8>::empty(),
    {
        ScancodeStream { queue: new_queue(SCANCODE_QUEUE_CAPACITY) }
    }

    /// Puts a scancode behind the others, unless the stream is full.
    /// Returns whether the scancode was taken.
    pub fn push(&mut self, scancode: u8) -> (taken: bool)
        requires
            old(self).wf(),
        ensures
            final(self).wf(),
            taken == (old(self)@.len() < SCANCODE_QUEUE_CAPACITY),
            final(self)@ == (if taken {
                old(self)@.push(scancode)
            } else {
                old(self)@
            }),
    {
        push(&mut self.queue, scancode)
    }

    /// Takes the oldest scancode out of the stream. `None` means that no
    /// scancode is waiting: the task has nothing to do until it is woken.
    pub fn poll_next(&mut self) -> (scancode: Option<u8>)
        requires
            old(self).wf(),
        ensures
            final(self).wf(),
            old(self)@.len() == 0 ==> scancode.is_none() && final(self)@ == old(self)@,
            old(self)@.len() > 0 ==> scancode == Some(old(self)@[0]) && final(self)@ == old(
                self,
            )@.subrange(1, old(self)@.len() as int),
    {
        pop(&mut self.queue)
    }

    /// Number of scancodes that wait.
    pub fn len(&self) -> (count: usize)
        requires
            self.wf(),
        ensures
            count == self@.len(),
    {
        queue_len(&self.queue)
    }
}

/// Calls `crossbeam_queue::ArrayQueue::len` on a queue that nobody else
/// can reach meanwhile. Trusted: the result is the number of items.
#[verifier::external_body]
fn queue_len(queue: &ArrayQueue<u8>) -> (count: usize)
    ensures
        count == queue_items(*queue).len(),
{
    queue.len()
}

/// The state of the scancode queue before the keyboard task has made it.
pub open spec fn spec_stream_wf(stream: Option<ScancodeStream>) -> bool {
    stream matches Some(s) ==> s.wf()
}

/// Called by the keyboard interrupt handler with the scancode that it
/// read. Neither waits nor allocates. The scancode goes into the queue if
/// there is one and it is not full; else it is dropped and the queue stays
/// as it is.
pub fn add_scancode(stream: &mut Option<ScancodeStream>, scancode: u8) -> (status: ScancodeStatus)
    requires
        spec_stream_wf(*old(stream)),
    ensures
        spec_stream_wf(*final(stream)),
        match *old(stream) {
            None => status == ScancodeStatus::Uninitialized && final(stream).is_none(),
            Some(before) => {
                &&& final(stream).is_some()
                &&& before@.len() < SCANCODE_QUEUE_CAPACITY ==> status == ScancodeStatus::Queued
                    && final(stream).unwrap()@ == before@.push(scancode)
                &&& before@.len() >= SCANCODE_QUEUE_CAPACITY ==> status == ScancodeStatus::Dropped
                    && final(stream).unwrap()@ == before@
            },
        },
{
    match stream {
        Some(queue) => {
            if queue.push(scancode) {
                ScancodeStatus::Queued
            } else {
                ScancodeStatus::Dropped
            }
        },
        None => ScancodeStatus::Uninitialized,
    }
}

} // verus!
