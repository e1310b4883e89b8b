//! The bounded command queue between the external producer (an interrupt
//! handler or host-side initiator) and the control loop.
//!
//! The ring buffer itself comes from `heapless`: its single-producer /
//! single-consumer queue is lock-free under that access pattern, which is what
//! the system relies on at its one concurrency boundary. `heapless` keeps one
//! slot of the ring free, so a ring of 17 slots carries the fixed capacity of
//! 16 commands. The queue's contents are modelled by the uninterpreted
//! sequence below, and each operation the loop needs is a trusted wrapper
//! whose contract restates what the `heapless` sources show.

use vstd::prelude::*;

use crate::protocol::Command;

verus! {

/// Capacity of the command queue.
pub const QUEUE_CAPACITY: usize = 16;

#[verifier::external_type_specification]
#[verifier::external_body]
#[verifier::reject_recursive_types(T)]
pub struct ExSpscQueue<T, const N: usize>(heapless::spsc::Queue<T, N>);

/// The commands held by the ring, front (next to be dequeued) to back.
pub uninterp spec fn ring_commands(q: heapless::spsc::Queue<Command, 17>) -> Seq<Command>;

/// Relies on `heapless::spsc::Queue::new`: the new queue is empty.
#[verifier::external_body]
fn ring_new() -> (r: heapless::spsc::Queue<Command, 17>)
    ensures
        ring_commands(r) == Seq::<Command>::empty(),
{
    heapless::spsc::Queue::new()
}

/// Relies on `heapless::spsc::Queue::enqueue`: appends at the back while fewer
/// than 16 commands are held (the ring keeps one of its 17 slots free), and
/// otherwise returns the command back with the queue untouched.
#[verifier::external_body]
fn ring_enqueue(q: &mut heapless::spsc::Queue<Command, 17>, c: Command) -> (r: Result<
    (),
    Command,
>)
    ensures
        ring_commands(*old(q)).len() < 16 ==> {
            &&& r == Ok::<(), Command>(())
            &&& ring_commands(*final(q)) == ring_commands(*old(q)).push(c)
        },
        ring_commands(*old(q)).len() >= 16 ==> {
            &&& r == Err::<(), Command>(c)
            &&& *final(q) == *old(q)
        },
{
    q.enqueue(c)
}

/// Relies on `heapless::spsc::Queue::dequeue`: removes and returns the front
/// command, or returns `None` and leaves the queue untouched when it is empty.
#[verifier::external_body]
fn ring_dequeue(q: &mut heapless::spsc::Queue<Command, 17>) -> (r: Option<Command>)
    ensures
        ring_commands(*old(q)).len() == 0 ==> {
            &&& r is None
            &&& *final(q) == *old(q)
        },
        ring_commands(*old(q)).len() > 0 ==> {
            &&& r == Some(ring_commands(*old(q))[0])
            &&& ring_commands(*final(q)) == ring_commands(*old(q)).drop_first()
        },
{
    q.dequeue()
}

/// Relies on `heapless::spsc::Queue::len`: the number of held commands, which
/// the ring of 17 slots keeps at or below 16.
#[verifier::external_body]
fn ring_len(q: &heapless::spsc::Queue<Command, 17>) -> (r: usize)
    ensures
        r == ring_commands(*q).len(),
        r <= 16,
{
    q.len()
}

/// Enqueuing failed: the queue already held its capacity of commands.
#[derive(Debug, PartialEq, Eq)]
pub struct QueueFull;

/// The fixed-capacity FIFO carrying commands into the control loop.
///
/// The storage is owned by this one value, created exactly once at system
/// initialization: the producer surface is `enqueue`, the consumer surface is
/// `dequeue`, and no second handle to the same ring can be made.
pub struct CommandQueue {
    ring: heapless::spsc::Queue<Command, 17>,
}

impl CommandQueue {
    /// The pending commands, front (next to be dequeued) to back.
    pub closed spec fn commands(&self) -> Seq<Command> {
        ring_commands(self.ring)
    }

    /// Creates the queue, empty, with its fixed capacity of 16.
    pub fn new() -> (r: CommandQueue)
        ensures
            r.commands() == Seq::<Command>::empty(),
    {
        CommandQueue { ring: ring_new() }
    }

    /// Producer side: appends the command at the back, keeping FIFO order.
    /// When 16 commands are already pending the queue is left exactly as it
    /// was and the full condition is surfaced to the producer, never silently
    /// dropped. Non-blocking.
    pub fn enqueue(&mut self, c: Command) -> (r: Result<(), QueueFull>)
        ensures
            old(self).commands().len() < QUEUE_CAPACITY ==> {
                &&& r == Ok::<(), QueueFull>(())
                &&& final(self).commands() == old(self).commands().push(c)
            },
            old(self).commands().len() >= QUEUE_CAPACITY ==> {
                &&& r == Err::<(), QueueFull>(QueueFull)
                &&& final(self).commands() == old(self).commands()
            },
    {
        match ring_enqueue(&mut self.ring, c) {
            Ok(()) => Ok(()),
            Err(_) => Err(QueueFull),
        }
    }

    /// Consumer side: removes and returns the oldest pending command, or
    /// `None` when the queue is empty. Non-blocking.
    pub fn dequeue(&mut self) -> (r: Option<Command>)
        ensures
            old(self).commands().len() == 0 ==> {
                &&& r is None
                &&& final(self).commands() == old(self).commands()
            },
            old(self).commands().len() > 0 ==> {
                &&& r == Some(old(self).commands()[0])
                &&& final(self).commands() == old(self).commands().drop_first()
            },
    {
        ring_dequeue(&mut self.ring)
    }

    /// The number of pending commands, at most the capacity of 16.
    pub fn len(&self) -> (r: usize)
        ensures
            r == self.commands().len(),
            r <= QUEUE_CAPACITY,
    {
        ring_len(&self.ring)
    }
}

/// Law: the queue is first-in, first-out. `enqueue` appends at the back and
/// `dequeue` removes the front, so a queue holding `s` hands `s` back in
/// order, one command per call: after `k` dequeues the queue holds
/// `s.subrange(k, s.len())`, and this lemma gives the induction step — the
/// next dequeue returns `s[k]`, the `k`-th command enqueued, and leaves
/// `s.subrange(k + 1, s.len())`.
pub proof fn lemma_fifo_order(s: Seq<Command>, k: int)
    requires
        0 <= k < s.len(),
    ensures
        s.subrange(k, s.len() as int).first() == s[k],
        s.subrange(k, s.len() as int).drop_first() == s.subrange(k + 1, s.len() as int),
{
    assert(s.subrange(k, s.len() as int).drop_first() =~= s.subrange(k + 1, s.len() as int));
}

} // verus!
