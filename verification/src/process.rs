//! Threads and the round-robin scheduler.
//!
//! A thread is either ready, with its registers saved on its kernel stack,
//! or it is the current thread. The ready threads wait in a queue; on every
//! timer interrupt the current thread goes to the back of the queue and the
//! thread at the front becomes the current one.

use vstd::prelude::*;
use std::collections::VecDeque;
use x86_64::structures::tss::TaskStateSegment;
use crate::context::{
    lemma_pushed_is_stored, restore_context, save_context, spec_pushed, Context,
    INTERRUPT_CONTEXT_SIZE,
};
use crate::gdt::{
    get_kernel_segments, get_user_segments, interrupt_stack, set_interrupt_stack_table,
    tss_stacks, Selectors, IST_SLOTS, TIMER_INTERRUPT_INDEX,
};
use crate::memory::{is_canonical, spec_canonical};

verus! {

/// Size of the kernel stack of a thread in bytes.
pub const KERNEL_STACK_SIZE: usize = 4096 * 2;

/// Size of the user stack of a thread in bytes.
pub const USER_STACK_SIZE: usize = 4096 * 5;

/// Address at which the stack of a user program is mapped.
pub const USER_STACK_START: u64 = 0x5002000;

/// Offset of the first saved context within the kernel stack of a thread.
pub const INITIAL_CONTEXT_OFFSET: usize = 4096 * 2 - 160;

/// Why a thread was not created.
#[derive(Debug, Clone, Copy, PartialEq, Eq, Structural)]
pub enum ThreadError {
    /// The program does not start with the ELF magic number.
    NotElf,
    /// The program starts with the magic number but cannot be parsed.
    Malformed,
    /// A segment of the program lies outside the window for user code.
    SegmentOutOfRange,
    /// Memory for the program or for the stacks of the thread could not be
    /// had.
    AllocationFailed,
}

impl ThreadError {
    /// The message that goes with the error.
    pub fn message(&self) -> (text: &'static str)
        ensures
            text@ == (match *self {
                ThreadError::NotElf => "Expected ELF binary"@,
                ThreadError::Malformed => "Could not parse ELF"@,
                ThreadError::SegmentOutOfRange => "ELF segment outside allowed range"@,
                ThreadError::AllocationFailed => "Could not allocate memory"@,
            }),
    {
        match self {
            ThreadError::NotElf => "Expected ELF binary",
            ThreadError::Malformed => "Could not parse ELF",
            ThreadError::SegmentOutOfRange => "ELF segment outside allowed range",
            ThreadError::AllocationFailed => "Could not allocate memory",
        }
    }
}

/// Whether a thread runs kernel code in ring 0 or a user program in ring 3.
#[derive(Debug, Clone, Copy, PartialEq, Eq, Structural)]
pub enum ThreadKind {
    Kernel,
    User,
}

/// A thread of execution with its two stacks. The byte at offset `k` of the
/// kernel stack lies at the address `kernel_stack_end - KERNEL_STACK_SIZE +
/// k`.
struct Thread {
    kernel_stack: Vec<u8>,
    user_stack: Vec<u8>,
    /// Address just above the kernel stack: goes into the stack slot of the
    /// timer interrupt.
    kernel_stack_end: u64,
    user_stack_end: u64,
    /// Address of the saved context.
    context: u64,
    id: Ghost<nat>,
}

/// A thread as a mathematical value. Two threads are the same thread if
/// and only if they have the same `id`.
pub struct ThreadView {
    pub id: nat,
    pub kernel_stack: Seq<u8>,
    pub kernel_stack_end: u64,
    pub user_stack_end: u64,
    pub context: u64,
}

impl ThreadView {
    /// The kernel stack has its full size and ends at a canonical address.
    pub open spec fn valid(self) -> bool {
        &&& self.kernel_stack.len() == KERNEL_STACK_SIZE
        &&& self.kernel_stack_end >= KERNEL_STACK_SIZE
        &&& spec_canonical(self.kernel_stack_end)
    }

    /// The offset within the kernel stack at which an interrupt begins to
    /// push: the top of the stack, rounded down so that its address is a
    /// multiple of 16, as the CPU aligns the stack pointer on entry.
    pub open spec fn entry_offset(self) -> int {
        KERNEL_STACK_SIZE - self.kernel_stack_end % 16
    }

    /// The thread after an interrupt has pushed `registers` onto its
    /// kernel stack, from the top.
    pub open spec fn interrupted(self, registers: Context) -> ThreadView {
        ThreadView {
            id: self.id,
            kernel_stack: spec_pushed(self.kernel_stack, self.entry_offset(), registers),
            kernel_stack_end: self.kernel_stack_end,
            user_stack_end: self.user_stack_end,
            context: self.context,
        }
    }

    /// The thread after its context was saved at `context`.
    pub open spec fn stamped(self, context: u64) -> ThreadView {
        ThreadView {
            id: self.id,
            kernel_stack: self.kernel_stack,
            kernel_stack_end: self.kernel_stack_end,
            user_stack_end: self.user_stack_end,
            context,
        }
    }

    /// The thread waits with `registers` saved at the top of its kernel
    /// stack: the saved context is the topmost 160 bytes of the stack and
    /// holds `registers`. Thread creation leaves a thread so, and so does
    /// a timer interrupt that preempts it.
    pub open spec fn suspended_with(self, registers: Context) -> bool {
        &&& self.valid()
        &&& self.context == self.kernel_stack_end - INTERRUPT_CONTEXT_SIZE
        &&& registers.stored_at(self.kernel_stack, INITIAL_CONTEXT_OFFSET as int)
    }

    /// A thread that a timer interrupt has preempted on its own kernel
    /// stack resumes with exactly the registers that were pushed. Where
    /// the stack ends at a multiple of 16, the thread is in the very state
    /// of a thread that was just created with these registers.
    pub proof fn lemma_preempted_like_new(self, registers: Context)
        requires
            self.valid(),
        ensures
            spec_saved_context(
                self.interrupted(registers).stamped(spec_context_addr(self.kernel_stack_end)),
            ) == Some(registers),
            self.kernel_stack_end % 16 == 0 ==> self.interrupted(registers).stamped(
                spec_context_addr(self.kernel_stack_end),
            ).suspended_with(registers),
    {
        lemma_pushed_is_stored(self.kernel_stack, self.entry_offset(), registers);
    }

    /// A thread that waits with `registers` saved resumes with exactly
    /// these registers.
    pub proof fn lemma_suspended_resumes(self, registers: Context)
        requires
            self.suspended_with(registers),
        ensures
            spec_saved_context(self) == Some(registers),
    {
        crate::context::lemma_context_round_trip(
            self.kernel_stack,
            INITIAL_CONTEXT_OFFSET as int,
            registers,
        );
    }
}

impl View for Thread {
    type V = ThreadView;

    closed spec fn view(&self) -> ThreadView {
        ThreadView {
            id: self.id@,
            kernel_stack: self.kernel_stack@,
            kernel_stack_end: self.kernel_stack_end,
            user_stack_end: self.user_stack_end,
            context: self.context,
        }
    }
}

/// The state of the scheduler as a mathematical value.
pub struct SchedulerView {
    /// The ready threads: the one that has waited longest comes first.
    pub ready: Seq<ThreadView>,
    /// The thread that is running, if any.
    pub current: Option<ThreadView>,
}

impl SchedulerView {
    /// All live threads: the ready ones and the current one.
    pub open spec fn threads(self) -> Seq<ThreadView> {
        match self.current {
            Some(thread) => self.ready.push(thread),
            None => self.ready,
        }
    }

    /// No thread occurs twice among the ready threads and the current one:
    /// in particular no thread is both ready and current.
    pub open spec fn exclusive(self) -> bool {
        forall|i: int, j: int|
            0 <= i < j < self.threads().len() ==> self.threads()[i].id != self.threads()[j].id
    }

    /// Every live thread is valid.
    pub open spec fn valid(self) -> bool {
        forall|i: int| 0 <= i < self.threads().len() ==> (#[trigger] self.threads()[i]).valid()
    }

    /// The state after a timer interrupt has entered on the stack that
    /// ends at `top` and pushed `registers`: where that stack is the
    /// kernel stack of the current thread, the stack now holds them.
    pub open spec fn entered(self, top: u64, registers: Context) -> SchedulerView {
        match self.current {
            Some(thread) => if thread.kernel_stack_end == top {
                SchedulerView { ready: self.ready, current: Some(thread.interrupted(registers)) }
            } else {
                self
            },
            None => self,
        }
    }

    /// The ready queue after the current thread, if there is one, was
    /// preempted with its context saved at `context_addr`.
    pub open spec fn preempted(self, context_addr: u64) -> Seq<ThreadView> {
        match self.current {
            Some(thread) => self.ready.push(thread.stamped(context_addr)),
            None => self.ready,
        }
    }

    /// The state after a timer interrupt that found the context of the
    /// interrupted code at `context_addr`.
    pub open spec fn tick(self, context_addr: u64) -> SchedulerView {
        let queue = self.preempted(context_addr);
        if queue.len() == 0 {
            SchedulerView { ready: queue, current: None }
        } else {
            SchedulerView { ready: queue.subrange(1, queue.len() as int), current: Some(queue[0]) }
        }
    }

    /// The address that the timer interrupt continues at: the saved
    /// context of the thread that comes next, or zero where no thread is
    /// there to run.
    pub open spec fn switch_target(self, context_addr: u64) -> u64 {
        let queue = self.preempted(context_addr);
        if queue.len() == 0 {
            0
        } else {
            queue[0].context
        }
    }

    /// The state after one timer interrupt for each address of
    /// `context_addrs`, in their order.
    pub open spec fn ticks(self, context_addrs: Seq<u64>) -> SchedulerView
        decreases context_addrs.len(),
    {
        if context_addrs.len() == 0 {
            self
        } else {
            self.ticks(context_addrs.drop_last()).tick(context_addrs.last())
        }
    }

    /// The ready queue after `m` timer interrupts that began with the
    /// threads `created` ready and none running: the threads that have not
    /// run yet, and behind them those that have, each stamped with the
    /// address at which it was preempted.
    pub open spec fn rotated(created: Seq<ThreadView>, context_addrs: Seq<u64>) -> Seq<ThreadView> {
        let m = context_addrs.len() as int;
        created.subrange(m, created.len() as int) + Seq::new(
            (m - 1) as nat,
            |k: int| created[k].stamped(context_addrs[k + 1]),
        )
    }

    /// Round robin is first in, first out. When threads were created in
    /// the order of `created` and no thread runs yet, then of as many timer
    /// interrupts as there are threads, or fewer, each selects the thread
    /// that has been ready longest: the `m`-th interrupt selects the
    /// `m`-th thread created and continues at its saved context. That
    /// thread has then left the ready queue.
    pub proof fn lemma_round_robin(created: Seq<ThreadView>, context_addrs: Seq<u64>)
        requires
            1 <= context_addrs.len() <= created.len(),
        ensures
            ({
                let start = SchedulerView { ready: created, current: None };
                let m = context_addrs.len() as int;
                &&& start.ticks(context_addrs).current == Some(created[m - 1])
                &&& start.ticks(context_addrs.drop_last()).switch_target(context_addrs.last())
                    == created[m - 1].context
                &&& start.ticks(context_addrs).ready == SchedulerView::rotated(
                    created,
                    context_addrs,
                )
            }),
        decreases context_addrs.len(),
    {
        let start = SchedulerView { ready: created, current: None };
        let m = context_addrs.len() as int;
        let n = created.len() as int;
        let earlier = context_addrs.drop_last();
        let last = context_addrs.last();
        if m == 1 {
            assert(earlier.len() == 0);
            assert(start.ticks(earlier) == start);
            assert(start.preempted(last) == created);
            assert(start.tick(last).ready =~= SchedulerView::rotated(created, context_addrs));
        } else {
            SchedulerView::lemma_round_robin(created, earlier);
            let previous = start.ticks(earlier);
            let queue = previous.preempted(last);
            assert(previous.current == Some(created[m - 2]));
            assert(previous.ready == SchedulerView::rotated(created, earlier));
            assert(queue.len() == n);
            assert(queue[0] == created[m - 1]);
            assert forall|k: int| 0 <= k < n - 1 implies queue.subrange(1, n)[k]
                == SchedulerView::rotated(created, context_addrs)[k] by {
                if k < n - m {
                } else if k < n - 2 {
                    assert(earlier[k - (n - m) + 1] == context_addrs[k - (n - m) + 1]);
                } else {
                }
            }
            assert(previous.tick(last).ready =~= SchedulerView::rotated(created, context_addrs));
        }
    }

    /// However many timer interrupts come, no thread is ever both ready
    /// and current, and no thread is lost or made.
    pub proof fn lemma_ticks_keep_threads(self, context_addrs: Seq<u64>)
        requires
            self.exclusive(),
            self.valid(),
        ensures
            self.ticks(context_addrs).exclusive(),
            self.ticks(context_addrs).valid(),
            self.ticks(context_addrs).threads().len() == self.threads().len(),
        decreases context_addrs.len(),
    {
        if context_addrs.len() > 0 {
            self.lemma_ticks_keep_threads(context_addrs.drop_last());
            self.ticks(context_addrs.drop_last()).lemma_tick_keeps_threads(context_addrs.last());
        }
    }

    /// A timer interrupt that finds the ready queue empty does not switch.
    /// Where no thread runs at all, zero is returned and nothing changes.
    /// Where a thread runs, it stays the current thread and the interrupt
    /// continues at the address at which it was interrupted.
    pub proof fn lemma_empty_queue_no_switch(self, context_addr: u64)
        requires
            self.ready.len() == 0,
        ensures
            self.current.is_none() ==> self.switch_target(context_addr) == 0 && self.tick(
                context_addr,
            ) == self,
            self.current.is_some() ==> self.switch_target(context_addr) == context_addr
                && self.tick(context_addr).current == Some(
                self.current.unwrap().stamped(context_addr),
            ) && self.tick(context_addr).ready.len() == 0,
    {
        if self.current.is_none() {
            assert(self.tick(context_addr).ready =~= self.ready);
        }
    }

    /// A timer interrupt keeps the live threads: afterwards no thread
    /// occurs twice, every thread is valid, and every thread is one of
    /// those that were there before.
    pub proof fn lemma_tick_keeps_threads(self, context_addr: u64)
        requires
            self.exclusive(),
            self.valid(),
        ensures
            self.tick(context_addr).exclusive(),
            self.tick(context_addr).valid(),
            self.tick(context_addr).threads().len() == self.threads().len(),
            forall|i: int|
                0 <= i < self.tick(context_addr).threads().len() ==> exists|k: int|
                    0 <= k < self.threads().len() && self.threads()[k].id == (
                    #[trigger] self.tick(context_addr).threads()[i]).id,
    {
        let queue = self.preempted(context_addr);
        let after = self.tick(context_addr);
        let n = queue.len() as int;
        assert(n == self.threads().len());
        assert forall|i: int| 0 <= i < n implies queue[i].id == self.threads()[i].id
            && queue[i].valid() by {
            assert(self.threads()[i].valid());
        }
        if n > 0 {
            assert(after.threads().len() == n);
            assert forall|i: int| 0 <= i < n implies after.threads()[i] == (if i < n - 1 {
                queue[i + 1]
            } else {
                queue[0]
            }) by {}
            assert forall|i: int, j: int| 0 <= i < j < n implies after.threads()[i].id
                != after.threads()[j].id by {
                if j < n - 1 {
                    assert(self.threads()[i + 1].id != self.threads()[j + 1].id);
                } else {
                    assert(self.threads()[0].id != self.threads()[i + 1].id);
                }
            }
            assert forall|i: int| 0 <= i < n implies (#[trigger] after.threads()[i]).valid() by {
                if i < n - 1 {
                    assert(queue[i + 1].valid());
                } else {
                    assert(queue[0].valid());
                }
            }
            assert forall|i: int| 0 <= i < n implies exists|k: int|
                0 <= k < self.threads().len() && self.threads()[k].id == (
                #[trigger] after.threads()[i]).id by {
                if i < n - 1 {
                    assert(self.threads()[i + 1].id == after.threads()[i].id);
                } else {
                    assert(self.threads()[0].id == after.threads()[i].id);
                }
            }
        }
    }

    /// The state after a new thread was put at the back of the ready queue.
    pub open spec fn enqueued(self, thread: ThreadView) -> SchedulerView {
        SchedulerView { ready: self.ready.push(thread), current: self.current }
    }

    /// Putting a new, valid thread at the back of the ready queue keeps
    /// the live threads apart and valid.
    pub proof fn lemma_enqueue_keeps_threads(self, thread: ThreadView)
        requires
            self.exclusive(),
            self.valid(),
            self.is_new(thread),
            thread.valid(),
        ensures
            self.enqueued(thread).exclusive(),
            self.enqueued(thread).valid(),
    {
        let after = self.enqueued(thread);
        let n = self.ready.len() as int;
        assert forall|i: int| 0 <= i < after.threads().len() implies (
        #[trigger] after.threads()[i]).valid() && (i != n ==> exists|k: int|
            0 <= k < self.threads().len() && self.threads()[k] == after.threads()[i] && (k == i
                || k == i - 1) && (k < n <==> i < n)) by {
            if i < n {
                assert(self.threads()[i] == after.threads()[i]);
                assert(self.threads()[i].valid());
            } else if i > n {
                assert(self.threads()[i - 1] == after.threads()[i]);
                assert(self.threads()[i - 1].valid());
            }
        }
        assert forall|i: int, j: int| 0 <= i < j < after.threads().len() implies after.threads()[i].id
            != after.threads()[j].id by {
            if i == n {
                assert(self.threads()[j - 1] == after.threads()[j]);
            } else if j == n {
                assert(self.threads()[i] == after.threads()[i]);
            } else {
                let a = if i < n {
                    i
                } else {
                    i - 1
                };
                let b = if j < n {
                    j
                } else {
                    j - 1
                };
                assert(self.threads()[a] == after.threads()[i]);
                assert(self.threads()[b] == after.threads()[j]);
            }
        }
    }

    /// The thread `thread` is none of the live threads.
    pub open spec fn is_new(self, thread: ThreadView) -> bool {
        forall|i: int| 0 <= i < self.threads().len() ==> self.threads()[i].id != thread.id
    }
}

/// The ready queue and the current thread.
pub struct Scheduler {
    ready: VecDeque<Thread>,
    current: Option<Thread>,
    next_id: Ghost<nat>,
}

impl View for Scheduler {
    type V = SchedulerView;

    closed spec fn view(&self) -> SchedulerView {
        SchedulerView {
            ready: Seq::new(self.ready@.len(), |i: int| self.ready@[i]@),
            current: match self.current {
                Some(thread) => Some(thread@),
                None => None,
            },
        }
    }
}

impl Scheduler {
    /// The invariant of the scheduler: no thread occurs twice, every
    /// thread is valid, and the identities handed out so far are all below
    /// the one that comes next.
    pub closed spec fn wf(&self) -> bool {
        &&& self@.exclusive()
        &&& self@.valid()
        &&& forall|i: int|
            0 <= i < self@.threads().len() ==> (#[trigger] self@.threads()[i]).id < self.next_id@
    }

    /// In a well-formed scheduler no thread is both ready and current, and
    /// every thread is valid.
    pub proof fn lemma_wf(&self)
        requires
            self.wf(),
        ensures
            self@.exclusive(),
            self@.valid(),
    {
    }

    /// A scheduler without threads.
    pub fn new() -> (scheduler: Self)
        ensures
            scheduler.wf(),
            scheduler@.ready.len() == 0,
            scheduler@.current.is_none(),
    {
        Scheduler { ready: VecDeque::new(), current: None, next_id: Ghost(0) }
    }

    /// Number of ready threads.
    pub fn ready_len(&self) -> (count: usize)
        ensures
            count == self@.ready.len(),
    {
        self.ready.len()
    }

    /// Whether a thread is running.
    pub fn has_current(&self) -> (running: bool)
        ensures
            running == self@.current.is_some(),
    {
        self.current.is_some()
    }

    /// Address of the saved context of the current thread.
    pub fn current_context(&self) -> (address: Option<u64>)
        ensures
            address == (match self@.current {
                Some(thread) => Some(thread.context),
                None => None,
            }),
    {
        match &self.current {
            Some(thread) => Some(thread.context),
            None => None,
        }
    }

    /// Address just above the kernel stack of the current thread.
    pub fn current_kernel_stack_end(&self) -> (address: Option<u64>)
        ensures
            address == (match self@.current {
                Some(thread) => Some(thread.kernel_stack_end),
                None => None,
            }),
    {
        match &self.current {
            Some(thread) => Some(thread.kernel_stack_end),
            None => None,
        }
    }

    /// The registers that the current thread resumes with, taken by the
    /// pop sequence from its kernel stack at its saved context. `None`
    /// where no thread is current or its saved context does not lie
    /// within its kernel stack.
    pub fn current_saved_context(&self) -> (saved: Option<Context>)
        requires
            self.wf(),
        ensures
            saved == (match self@.current {
                Some(thread) => spec_saved_context(thread),
                None => None,
            }),
    {
        match &self.current {
            Some(thread) => {
                assert(self@.threads()[self@.ready.len() as int] == thread@);
                assert(thread@.valid());
                if thread.kernel_stack_end < KERNEL_STACK_SIZE as u64 {
                    return None;
                }
                let base = thread.kernel_stack_end - KERNEL_STACK_SIZE as u64;
                if thread.context < base || thread.context > thread.kernel_stack_end
                    - INTERRUPT_CONTEXT_SIZE as u64 {
                    return None;
                }
                let offset = (thread.context - base) as usize;
                let (context, _) = restore_context(&thread.kernel_stack, offset);
                Some(context)
            },
            None => None,
        }
    }
}

/// The registers that the pop sequence takes from the kernel stack of
/// `thread` at its saved context, where that lies within the stack.
pub open spec fn spec_saved_context(thread: ThreadView) -> Option<Context> {
    let base = thread.kernel_stack_end - KERNEL_STACK_SIZE;
    if 0 <= base <= thread.context <= thread.kernel_stack_end - INTERRUPT_CONTEXT_SIZE {
        Some(Context::read_at(thread.kernel_stack, thread.context - base))
    } else {
        None
    }
}

/// Picks the thread to run after a timer interrupt. `context_addr` is the
/// address at which the registers of the interrupted code were saved.
///
/// The current thread, if there is one, is stamped with `context_addr` and
/// goes to the back of the ready queue. The thread at the front of the
/// queue becomes the current thread, the stack slot of the timer interrupt
/// is bound to the end of its kernel stack, and the address of its saved
/// context is returned. Where no thread is there to run, zero is returned
/// and nothing changes: the interrupted code goes on.
pub fn schedule_next(scheduler: &mut Scheduler, tss: &mut TaskStateSegment, context_addr: u64) -> (next:
    u64)
    requires
        old(scheduler).wf(),
    ensures
        final(scheduler).wf(),
        final(scheduler)@ == old(scheduler)@.tick(context_addr),
        next == old(scheduler)@.switch_target(context_addr),
        tss_stacks(*final(tss)).len() == tss_stacks(*old(tss)).len(),
        forall|i: int|
            0 <= i < IST_SLOTS ==> tss_stacks(*final(tss))[i] == (if i == TIMER_INTERRUPT_INDEX
                && final(scheduler)@.current.is_some() {
                final(scheduler)@.current.unwrap().kernel_stack_end
            } else {
                tss_stacks(*old(tss))[i]
            }),
{
    let ghost before = scheduler@;
    let ghost queue = before.preempted(context_addr);
    if let Some(mut thread) = scheduler.current.take() {
        assert(before.threads()[before.ready.len() as int] == thread@);
        // Save the location of the saved registers.
        thread.context = context_addr;
        // Put to the back of the queue.
        scheduler.ready.push_back(thread);
    }
    assert(Seq::new(scheduler.ready@.len(), |i: int| scheduler.ready@[i]@) =~= queue);
    // Get the next thread in the queue.
    scheduler.current = scheduler.ready.pop_front();
    assert(Seq::new(scheduler.ready@.len(), |i: int| scheduler.ready@[i]@) =~= before.tick(
        context_addr,
    ).ready);
    proof {
        assert(scheduler@ == before.tick(context_addr));
        before.lemma_tick_keeps_threads(context_addr);
        assert forall|i: int| 0 <= i < scheduler@.threads().len() implies (
        #[trigger] scheduler@.threads()[i]).id < scheduler.next_id@ by {
            let k = choose|k: int|
                0 <= k < before.threads().len() && before.threads()[k].id
                    == scheduler@.threads()[i].id;
            assert(before.threads()[k].id < scheduler.next_id@);
        }
    }
    match &scheduler.current {
        Some(thread) => {
            assert(thread@ == queue[0]);
            assert(scheduler@.threads()[scheduler@.ready.len() as int].valid());
            // The next timer interrupt starts on the kernel stack of this thread.
            set_interrupt_stack_table(tss, TIMER_INTERRUPT_INDEX as usize, thread.kernel_stack_end);
            thread.context
        },
        None => 0,
    }
}

/// `after` is `before` with one more thread at the back of the ready
/// queue: a thread that was not there before and that is as thread
/// creation leaves it, with `initial` as its saved context.
pub open spec fn spawned(before: SchedulerView, after: SchedulerView, initial: Context) -> bool {
    &&& after.current == before.current
    &&& after.ready.len() == before.ready.len() + 1
    &&& after.ready.drop_last() == before.ready
    &&& after.ready.last().suspended_with(initial)
    &&& before.is_new(after.ready.last())
}

/// The address just above a stack of `size` bytes at `base`, where that is
/// a canonical address.
pub open spec fn spec_stack_end(base: u64, size: usize) -> Option<u64> {
    if base + size <= u64::MAX && spec_canonical((base + size) as u64) {
        Some((base + size) as u64)
    } else {
        None
    }
}

/// The registers that a new thread starts with. A kernel thread runs on
/// the stack that ends at `user_stack_end`, in the segments of ring 0; a
/// user thread runs on the stack mapped at [`USER_STACK_START`], in the
/// segments of ring 3.
pub open spec fn spec_initial_context(
    kind: ThreadKind,
    selectors: Selectors,
    entry: u64,
    user_stack_end: u64,
) -> Context {
    match kind {
        ThreadKind::Kernel => Context::spec_initial(
            entry,
            user_stack_end,
            selectors.code_selector,
            selectors.data_selector,
        ),
        ThreadKind::User => Context::spec_initial(
            entry,
            (USER_STACK_START + USER_STACK_SIZE) as u64,
            selectors.user_code_selector,
            selectors.user_data_selector,
        ),
    }
}

fn stack_end(base: u64, size: usize) -> (end: Option<u64>)
    ensures
        end == spec_stack_end(base, size),
{
    match base.checked_add(size as u64) {
        Some(end) => if is_canonical(end) {
            Some(end)
        } else {
            None
        },
        None => None,
    }
}

/// Reads the address of the buffer of a vector with `Vec::as_ptr`. The
/// address differs from one run to the next: nothing is claimed of it.
#[verifier::external_body]
fn buffer_address(buffer: &Vec<u8>) -> (address: u64) {
    buffer.as_ptr() as u64
}

/// Creates a thread on the stacks handed in and puts it at the back of the
/// ready queue. `kernel_base` and `user_base` are the addresses at which
/// the two stacks lie.
///
/// The saved context of the new thread is written to the topmost 160 bytes
/// of its kernel stack: it starts at `entry` with interrupts enabled, on
/// the stack and in the segments that go with `kind`. The creation fails,
/// and changes nothing, where the kernel stack has not its full size or
/// the end of a stack is not a canonical address.
pub fn spawn_thread(
    scheduler: &mut Scheduler,
    selectors: &Selectors,
    kind: ThreadKind,
    entry: u64,
    kernel_stack: Vec<u8>,
    kernel_base: u64,
    user_stack: Vec<u8>,
    user_base: u64,
) -> (result: Result<(), ThreadError>)
    requires
        old(scheduler).wf(),
    ensures
        final(scheduler).wf(),
        match (
            kernel_stack.len() == KERNEL_STACK_SIZE,
            spec_stack_end(kernel_base, KERNEL_STACK_SIZE),
            spec_stack_end(user_base, USER_STACK_SIZE),
        ) {
            (true, Some(kernel_end), Some(user_end)) => {
                &&& result is Ok
                &&& spawned(
                    old(scheduler)@,
                    final(scheduler)@,
                    spec_initial_context(kind, *selectors, entry, user_end),
                )
                &&& final(scheduler)@.ready.last().kernel_stack_end == kernel_end
                &&& final(scheduler)@.ready.last().user_stack_end == user_end
                &&& forall|k: int|
                    0 <= k < INITIAL_CONTEXT_OFFSET ==> final(scheduler)@.ready.last().kernel_stack[k]
                        == kernel_stack@[k]
            },
            _ => result == Err::<(), ThreadError>(ThreadError::AllocationFailed) && final(scheduler)@ == old(scheduler)@,
        },
{
    if kernel_stack.len() != KERNEL_STACK_SIZE {
        return Err(ThreadError::AllocationFailed);
    }
    let kernel_stack_end = match stack_end(kernel_base, KERNEL_STACK_SIZE) {
        Some(end) => end,
        None => {
            return Err(ThreadError::AllocationFailed);
        },
    };
    let user_stack_end = match stack_end(user_base, USER_STACK_SIZE) {
        Some(end) => end,
        None => {
            return Err(ThreadError::AllocationFailed);
        },
    };
    let (code_selector, data_selector) = match kind {
        ThreadKind::Kernel => get_kernel_segments(selectors),
        ThreadKind::User => get_user_segments(selectors),
    };
    let stack_pointer = match kind {
        ThreadKind::Kernel => user_stack_end,
        ThreadKind::User => USER_STACK_START + USER_STACK_SIZE as u64,
    };
    let initial = Context::initial(entry, stack_pointer, code_selector, data_selector);
    let mut kernel_stack = kernel_stack;
    let _ = save_context(&initial, &mut kernel_stack, KERNEL_STACK_SIZE);
    let thread = Thread {
        kernel_stack,
        user_stack,
        kernel_stack_end,
        user_stack_end,
        context: kernel_stack_end - INTERRUPT_CONTEXT_SIZE as u64,
        id: Ghost(scheduler.next_id@),
    };
    let ghost before = scheduler@;
    let ghost added = thread@;
    proof {
        assert(before.is_new(added)) by {
            assert forall|i: int| 0 <= i < before.threads().len() implies before.threads()[i].id
                != added.id by {
                assert(before.threads()[i].id < scheduler.next_id@);
            }
        }
        before.lemma_enqueue_keeps_threads(added);
    }
    scheduler.ready.push_back(thread);
    scheduler.next_id = Ghost(scheduler.next_id@ + 1);
    proof {
        assert(scheduler@.ready =~= before.ready.push(added));
        assert(scheduler@ == before.enqueued(added));
        assert(scheduler@.ready.drop_last() =~= before.ready);
        assert forall|i: int| 0 <= i < scheduler@.threads().len() implies (
        #[trigger] scheduler@.threads()[i]).id < scheduler.next_id@ by {
            let n = before.ready.len() as int;
            if i < n {
                assert(before.threads()[i] == scheduler@.threads()[i]);
            } else if i > n {
                assert(before.threads()[i - 1] == scheduler@.threads()[i]);
            }
        }
    }
    Ok(())
}

/// Creates a kernel thread that starts at the address `function` and puts
/// it at the back of the ready queue. Its stacks are allocated here. The
/// creation fails, and changes nothing, where the memory that was
/// allocated cannot serve as a stack.
pub fn new_kernel_thread(scheduler: &mut Scheduler, selectors: &Selectors, function: u64) -> (result:
    Result<(), ThreadError>)
    requires
        old(scheduler).wf(),
    ensures
        final(scheduler).wf(),
        result is Ok ==> spawned(
            old(scheduler)@,
            final(scheduler)@,
            spec_initial_context(
                ThreadKind::Kernel,
                *selectors,
                function,
                final(scheduler)@.ready.last().user_stack_end,
            ),
        ),
        result is Err ==> result == Err::<(), ThreadError>(ThreadError::AllocationFailed) && final(scheduler)@ == old(scheduler)@,
{
    let kernel_stack = vec![0u8; KERNEL_STACK_SIZE];
    let user_stack: Vec<u8> = Vec::with_capacity(USER_STACK_SIZE);
    let kernel_base = buffer_address(&kernel_stack);
    let user_base = buffer_address(&user_stack);
    spawn_thread(
        scheduler,
        selectors,
        ThreadKind::Kernel,
        function,
        kernel_stack,
        kernel_base,
        user_stack,
        user_base,
    )
}

/// Creates the thread of a user program whose entry point is `entry` and
/// puts it at the back of the ready queue. Its stacks are allocated here;
/// the program and its user stack must have been mapped before. Returns
/// the entry point. The creation fails, and changes nothing, where the
/// memory that was allocated cannot serve as a stack.
pub fn spawn_user_thread(scheduler: &mut Scheduler, selectors: &Selectors, entry: u64) -> (result:
    Result<u64, ThreadError>)
    requires
        old(scheduler).wf(),
    ensures
        final(scheduler).wf(),
        result matches Ok(address) ==> address == entry && spawned(
            old(scheduler)@,
            final(scheduler)@,
            spec_initial_context(ThreadKind::User, *selectors, entry, 0),
        ),
        result is Err ==> result == Err::<u64, ThreadError>(ThreadError::AllocationFailed)
            && final(scheduler)@ == old(scheduler)@,
{
    let kernel_stack = vec![0u8; KERNEL_STACK_SIZE];
    let user_stack: Vec<u8> = Vec::with_capacity(USER_STACK_SIZE);
    let kernel_base = buffer_address(&kernel_stack);
    let user_base = buffer_address(&user_stack);
    match spawn_thread(
        scheduler,
        selectors,
        ThreadKind::User,
        entry,
        kernel_stack,
        kernel_base,
        user_stack,
        user_base,
    ) {
        Ok(()) => Ok(entry),
        Err(error) => Err(error),
    }
}

/// The address of the context that an interrupt saves when it enters on
/// the stack that ends at `top`: the CPU rounds the stack pointer down to a
/// multiple of 16, and the twenty words lie in the 160 bytes below that.
/// (Below address 160 the stack pointer wraps around.)
pub open spec fn spec_context_addr(top: u64) -> u64 {
    let aligned = top - top % 16;
    if aligned >= INTERRUPT_CONTEXT_SIZE {
        (aligned - INTERRUPT_CONTEXT_SIZE) as u64
    } else {
        (aligned + 0x1_0000_0000_0000_0000 - INTERRUPT_CONTEXT_SIZE) as u64
    }
}

/// A timer interrupt from entry to return, with the machine taken as a
/// model: `registers` are those of the interrupted code, and the result
/// are the registers that execution continues with.
///
/// The interrupt enters on the stack that its stack slot is bound to,
/// with the stack pointer rounded down to a multiple of 16. There the
/// twenty words of `registers` are pushed; where the stack is the kernel
/// stack of the current thread, that stack holds them from then on. The scheduler is asked for the next thread with the address of the
/// saved registers. If it returns zero the registers are popped again from
/// where they were pushed, and the interrupted code goes on. Else the stack
/// pointer is set to the address returned and the registers are popped
/// from there: `None` says that this address does not lie on the kernel
/// stack of the thread selected.
pub fn timer_interrupt_handler(
    scheduler: &mut Scheduler,
    tss: &mut TaskStateSegment,
    registers: &Context,
) -> (resumed: Option<Context>)
    requires
        old(scheduler).wf(),
    ensures
        final(scheduler).wf(),
        ({
            let top = tss_stacks(*old(tss))[TIMER_INTERRUPT_INDEX as int];
            let entered = old(scheduler)@.entered(top, *registers);
            let context_addr = spec_context_addr(top);
            &&& final(scheduler)@ == entered.tick(context_addr)
            &&& resumed == (if entered.switch_target(context_addr) == 0 {
                Some(*registers)
            } else {
                spec_saved_context(final(scheduler)@.current.unwrap())
            })
        }),
        tss_stacks(*final(tss)).len() == tss_stacks(*old(tss)).len(),
        forall|i: int|
            0 <= i < IST_SLOTS ==> tss_stacks(*final(tss))[i] == (if i == TIMER_INTERRUPT_INDEX
                && final(scheduler)@.current.is_some() {
                final(scheduler)@.current.unwrap().kernel_stack_end
            } else {
                tss_stacks(*old(tss))[i]
            }),
{
    let top = interrupt_stack(tss, TIMER_INTERRUPT_INDEX as usize);
    let aligned = top - top % 16;
    let context_addr = if aligned >= INTERRUPT_CONTEXT_SIZE as u64 {
        aligned - INTERRUPT_CONTEXT_SIZE as u64
    } else {
        u64::MAX - (INTERRUPT_CONTEXT_SIZE as u64 - 1 - aligned)
    };
    let ghost before = scheduler@;
    proof {
        scheduler.lemma_wf();
    }
    match scheduler.current.take() {
        Some(mut thread) => {
            assert(before.threads()[before.ready.len() as int] == thread@);
            assert(thread@.valid());
            if thread.kernel_stack_end == top {
                let entry_offset = KERNEL_STACK_SIZE - (top % 16) as usize;
                proof {
                    lemma_pushed_is_stored(thread.kernel_stack@, entry_offset as int, *registers);
                }
                let _ = save_context(registers, &mut thread.kernel_stack, entry_offset);
            }
            scheduler.current = Some(thread);
        },
        None => {},
    }
    proof {
        let entered = before.entered(top, *registers);
        assert(scheduler@.ready =~= before.ready);
        assert(scheduler@ == entered);
        assert(entered.threads().len() == before.threads().len());
        assert forall|i: int| 0 <= i < entered.threads().len() implies entered.threads()[i].id
            == before.threads()[i].id && (#[trigger] entered.threads()[i]).valid() by {
            assert(before.threads()[i].valid());
            if i < before.ready.len() {
                assert(entered.threads()[i] == before.threads()[i]);
            }
        }
        assert forall|i: int, j: int| 0 <= i < j < entered.threads().len() implies entered.threads()[i].id
            != entered.threads()[j].id by {
            assert(before.threads()[i].id != before.threads()[j].id);
        }
        assert forall|i: int| 0 <= i < scheduler@.threads().len() implies (
        #[trigger] scheduler@.threads()[i]).id < scheduler.next_id@ by {
            assert(before.threads()[i].id < scheduler.next_id@);
        }
    }
    let next = schedule_next(scheduler, tss, context_addr);
    if next == 0 {
        Some(*registers)
    } else {
        scheduler.current_saved_context()
    }
}

} // verus!
