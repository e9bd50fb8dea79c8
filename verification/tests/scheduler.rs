use aurora_kernel::context::{Context, INTERRUPT_CONTEXT_SIZE, RFLAGS_INTERRUPTS_ENABLED};
use aurora_kernel::gdt::{self, Selectors, TIMER_INTERRUPT_INDEX};
use aurora_kernel::process::{
    new_kernel_thread, schedule_next, spawn_thread, spawn_user_thread, timer_interrupt_handler,
    Scheduler, ThreadError,
    ThreadKind, KERNEL_STACK_SIZE, USER_STACK_SIZE, USER_STACK_START,
};

fn selectors() -> Selectors {
    Selectors {
        code_selector: 0x08,
        data_selector: 0x10,
        tss_selector: 0x18,
        user_code_selector: 0x2b,
        user_data_selector: 0x33,
    }
}

fn spawn_at(scheduler: &mut Scheduler, kind: ThreadKind, entry: u64, kernel_base: u64, user_base: u64) {
    let result = spawn_thread(
        scheduler,
        &selectors(),
        kind,
        entry,
        vec![0u8; KERNEL_STACK_SIZE],
        kernel_base,
        Vec::with_capacity(USER_STACK_SIZE),
        user_base,
    );
    assert_eq!(result, Ok(()));
}

#[test]
fn empty_scheduler_returns_no_switch() {
    let mut scheduler = Scheduler::new();
    let mut tss = gdt::init_tss(0x9000);
    assert_eq!(schedule_next(&mut scheduler, &mut tss, 0x1234), 0);
    assert_eq!(schedule_next(&mut scheduler, &mut tss, 0x5678), 0);
    assert!(!scheduler.has_current());
    assert_eq!(scheduler.ready_len(), 0);
    // The stack of the timer interrupt is left alone.
    assert_eq!(gdt::interrupt_stack(&tss, TIMER_INTERRUPT_INDEX as usize), 0x9000);
}

#[test]
fn lone_thread_resumes_where_it_was_interrupted() {
    let mut scheduler = Scheduler::new();
    let mut tss = gdt::init_tss(0x9000);
    spawn_at(&mut scheduler, ThreadKind::Kernel, 0xaaaa, 0x10000, 0x40000);
    let first = schedule_next(&mut scheduler, &mut tss, 0x7000);
    assert_eq!(first, 0x10000 + KERNEL_STACK_SIZE as u64 - INTERRUPT_CONTEXT_SIZE as u64);
    // The ready queue is empty now: the thread goes on at the address handed in.
    assert_eq!(scheduler.ready_len(), 0);
    assert_eq!(schedule_next(&mut scheduler, &mut tss, 0x11f00), 0x11f00);
    assert!(scheduler.has_current());
    assert_eq!(scheduler.ready_len(), 0);
    assert_eq!(scheduler.current_context(), Some(0x11f00));
}

#[test]
fn three_threads_run_in_creation_order_and_wrap_around() {
    let mut scheduler = Scheduler::new();
    let mut tss = gdt::init_tss(0x9000);
    spawn_at(&mut scheduler, ThreadKind::Kernel, 0xa000, 0x10000, 0x40000);
    spawn_at(&mut scheduler, ThreadKind::Kernel, 0xb000, 0x20000, 0x50000);
    spawn_at(&mut scheduler, ThreadKind::Kernel, 0xc000, 0x30000, 0x60000);
    assert_eq!(scheduler.ready_len(), 3);

    let mut order = Vec::new();
    let mut targets = Vec::new();
    let interrupted_at = [0x100u64, 0x11e00, 0x21e00, 0x31e00];
    for address in interrupted_at {
        targets.push(schedule_next(&mut scheduler, &mut tss, address));
        order.push(scheduler.current_kernel_stack_end().unwrap());
        // Never both: one thread runs, the other two wait.
        assert!(scheduler.has_current());
        assert_eq!(scheduler.ready_len(), 2);
        // The next timer interrupt starts on the kernel stack of the current thread.
        assert_eq!(
            gdt::interrupt_stack(&tss, TIMER_INTERRUPT_INDEX as usize),
            scheduler.current_kernel_stack_end().unwrap()
        );
    }
    assert_eq!(order, vec![0x12000, 0x22000, 0x32000, 0x12000]);
    // A, B and C start from their first saved context; A goes on where it was preempted.
    assert_eq!(targets, vec![0x12000 - 160, 0x22000 - 160, 0x32000 - 160, 0x11e00]);
}

#[test]
fn fewer_interrupts_than_threads_select_the_longest_waiting() {
    let mut scheduler = Scheduler::new();
    let mut tss = gdt::init_tss(0x9000);
    for i in 0..5u64 {
        spawn_at(&mut scheduler, ThreadKind::Kernel, 0x1000 * i, 0x100000 * (i + 1), 0x800000);
    }
    for i in 0..3u64 {
        let target = schedule_next(&mut scheduler, &mut tss, 0x77);
        assert_eq!(target, 0x100000 * (i + 1) + KERNEL_STACK_SIZE as u64 - 160);
        assert_eq!(scheduler.current_saved_context().unwrap().rip, 0x1000 * i);
        assert_eq!(scheduler.ready_len(), 4);
    }
}

#[test]
fn kernel_thread_context_survives_the_pop_sequence() {
    let mut scheduler = Scheduler::new();
    let mut tss = gdt::init_tss(0x9000);
    spawn_at(&mut scheduler, ThreadKind::Kernel, 0xdead_beef, 0x10000, 0x40000);
    schedule_next(&mut scheduler, &mut tss, 0);
    let context = scheduler.current_saved_context().unwrap();
    assert_eq!(
        context,
        Context {
            r15: 0, r14: 0, r13: 0, r12: 0, r11: 0, r10: 0, r9: 0, r8: 0,
            rbp: 0, rsi: 0, rdi: 0, rdx: 0, rcx: 0, rbx: 0, rax: 0,
            rip: 0xdead_beef,
            cs: 0x08,
            rflags: 0x200,
            rsp: 0x40000 + USER_STACK_SIZE as u64,
            ss: 0x10,
        }
    );
    assert_eq!(context.rflags, RFLAGS_INTERRUPTS_ENABLED);
}

#[test]
fn user_thread_context_uses_ring_3_and_the_mapped_stack() {
    let mut scheduler = Scheduler::new();
    let mut tss = gdt::init_tss(0x9000);
    spawn_at(&mut scheduler, ThreadKind::User, 0x500_0040, 0x10000, 0x40000);
    schedule_next(&mut scheduler, &mut tss, 0);
    let context = scheduler.current_saved_context().unwrap();
    assert_eq!(context.rip, 0x500_0040);
    assert_eq!(context.rsp, USER_STACK_START + USER_STACK_SIZE as u64);
    assert_eq!(context.rsp, 0x5007000);
    assert_eq!(context.cs, 0x2b);
    assert_eq!(context.ss, 0x33);
    assert_eq!(context.rflags, 0x200);
    assert_eq!(context.rax, 0);
}

#[test]
fn thread_creation_fails_on_unusable_stacks() {
    let mut scheduler = Scheduler::new();
    let attempt = |scheduler: &mut Scheduler, stack_len: usize, kernel_base: u64, user_base: u64| {
        spawn_thread(
            scheduler,
            &selectors(),
            ThreadKind::Kernel,
            0x1000,
            vec![0u8; stack_len],
            kernel_base,
            Vec::new(),
            user_base,
        )
    };
    // The end of the kernel stack falls into the hole between the two halves.
    assert_eq!(
        attempt(&mut scheduler, KERNEL_STACK_SIZE, 0x7fff_ffff_f000, 0x40000),
        Err(ThreadError::AllocationFailed)
    );
    // The end of the user stack does not fit in 64 bits.
    assert_eq!(
        attempt(&mut scheduler, KERNEL_STACK_SIZE, 0x10000, u64::MAX - 100),
        Err(ThreadError::AllocationFailed)
    );
    // The kernel stack is too small to hold a saved context at its top.
    assert_eq!(attempt(&mut scheduler, 100, 0x10000, 0x40000), Err(ThreadError::AllocationFailed));
    assert_eq!(scheduler.ready_len(), 0);
    // The last address below the hole still serves as the end of a stack.
    assert_eq!(
        attempt(&mut scheduler, KERNEL_STACK_SIZE, 0x7fff_ffff_dfff, 0x40000),
        Ok(())
    );
    assert_eq!(scheduler.ready_len(), 1);
}

#[test]
fn allocated_kernel_thread_starts_at_its_function() {
    let mut scheduler = Scheduler::new();
    let mut tss = gdt::init_tss(0x9000);
    assert_eq!(new_kernel_thread(&mut scheduler, &selectors(), 0x1234_5678), Ok(()));
    assert_eq!(scheduler.ready_len(), 1);
    let target = schedule_next(&mut scheduler, &mut tss, 0);
    let stack_end = scheduler.current_kernel_stack_end().unwrap();
    assert_eq!(target, stack_end - 160);
    let context = scheduler.current_saved_context().unwrap();
    assert_eq!(context.rip, 0x1234_5678);
    assert_eq!((context.cs, context.ss), (0x08, 0x10));
    assert_ne!(context.rsp, 0);
}

#[test]
fn allocated_user_thread_returns_its_entry() {
    let mut scheduler = Scheduler::new();
    let mut tss = gdt::init_tss(0x9000);
    assert_eq!(spawn_user_thread(&mut scheduler, &selectors(), 0x500_1000), Ok(0x500_1000));
    schedule_next(&mut scheduler, &mut tss, 0);
    let context = scheduler.current_saved_context().unwrap();
    assert_eq!(context.rip, 0x500_1000);
    assert_eq!(context.rsp, 0x5007000);
    assert_eq!((context.cs, context.ss), (0x2b, 0x33));
}

#[test]
fn error_messages() {
    assert_eq!(ThreadError::NotElf.message(), "Expected ELF binary");
    assert_eq!(ThreadError::Malformed.message(), "Could not parse ELF");
    assert_eq!(ThreadError::SegmentOutOfRange.message(), "ELF segment outside allowed range");
    assert_eq!(ThreadError::AllocationFailed.message(), "Could not allocate memory");
}

fn registers(tag: u64) -> Context {
    Context {
        r15: tag + 15, r14: tag + 14, r13: tag + 13, r12: tag + 12, r11: tag + 11,
        r10: tag + 10, r9: tag + 9, r8: tag + 8, rbp: tag + 7, rsi: tag + 6, rdi: tag + 5,
        rdx: tag + 4, rcx: tag + 3, rbx: tag + 2, rax: tag + 1,
        rip: tag + 0x100, cs: 0x08, rflags: 0x246, rsp: tag + 0x800, ss: 0x10,
    }
}

#[test]
fn timer_interrupts_run_a_b_c_and_then_a_again() {
    let mut scheduler = Scheduler::new();
    let mut tss = gdt::init_tss(0x9000);
    spawn_at(&mut scheduler, ThreadKind::Kernel, 0xa000, 0x10000, 0x40000);
    spawn_at(&mut scheduler, ThreadKind::Kernel, 0xb000, 0x20000, 0x50000);
    spawn_at(&mut scheduler, ThreadKind::Kernel, 0xc000, 0x30000, 0x60000);

    // The first interrupt preempts the boot code, which is no thread.
    let a = timer_interrupt_handler(&mut scheduler, &mut tss, &registers(0)).unwrap();
    assert_eq!(a.rip, 0xa000);
    assert_eq!(a.rsp, 0x40000 + USER_STACK_SIZE as u64);
    // Thread A has run for a while; its registers are those of the second interrupt.
    let b = timer_interrupt_handler(&mut scheduler, &mut tss, &registers(0xa0000)).unwrap();
    assert_eq!(b.rip, 0xb000);
    let c = timer_interrupt_handler(&mut scheduler, &mut tss, &registers(0xb0000)).unwrap();
    assert_eq!(c.rip, 0xc000);
    // Thread A goes on exactly where, and as, it was preempted.
    let a_again = timer_interrupt_handler(&mut scheduler, &mut tss, &registers(0xc0000)).unwrap();
    assert_eq!(a_again, registers(0xa0000));
    let b_again = timer_interrupt_handler(&mut scheduler, &mut tss, &registers(0xa1000)).unwrap();
    assert_eq!(b_again, registers(0xb0000));
    assert_eq!(scheduler.ready_len(), 2);
    assert_eq!(scheduler.current_kernel_stack_end(), Some(0x22000));
    assert_eq!(scheduler.current_context(), Some(0x22000 - 160));
}

#[test]
fn timer_interrupt_without_threads_resumes_the_interrupted_code() {
    let mut scheduler = Scheduler::new();
    let mut tss = gdt::init_tss(0x9000);
    let resumed = timer_interrupt_handler(&mut scheduler, &mut tss, &registers(7));
    assert_eq!(resumed, Some(registers(7)));
    assert!(!scheduler.has_current());
    assert_eq!(gdt::interrupt_stack(&tss, TIMER_INTERRUPT_INDEX as usize), 0x9000);
}

#[test]
fn lone_thread_is_resumed_with_its_own_registers() {
    let mut scheduler = Scheduler::new();
    let mut tss = gdt::init_tss(0x9000);
    spawn_at(&mut scheduler, ThreadKind::User, 0x500_0000, 0x10000, 0x40000);
    let first = timer_interrupt_handler(&mut scheduler, &mut tss, &registers(0)).unwrap();
    assert_eq!((first.rip, first.cs, first.ss), (0x500_0000, 0x2b, 0x33));
    for round in 1..4u64 {
        let resumed = timer_interrupt_handler(&mut scheduler, &mut tss, &registers(round));
        assert_eq!(resumed, Some(registers(round)));
        assert_eq!(scheduler.ready_len(), 0);
        assert!(scheduler.has_current());
    }
}

#[test]
fn interrupt_on_an_unaligned_stack_pushes_below_the_aligned_address() {
    let mut scheduler = Scheduler::new();
    let mut tss = gdt::init_tss(0x9000);
    // The kernel stack ends at 0x12008: the CPU enters at 0x12000.
    spawn_at(&mut scheduler, ThreadKind::Kernel, 0xa000, 0x10008, 0x40000);
    spawn_at(&mut scheduler, ThreadKind::Kernel, 0xb000, 0x20000, 0x50000);
    let a = timer_interrupt_handler(&mut scheduler, &mut tss, &registers(0)).unwrap();
    assert_eq!(a.rip, 0xa000);
    assert_eq!(scheduler.current_context(), Some(0x12008 - 160));
    let b = timer_interrupt_handler(&mut scheduler, &mut tss, &registers(0x111)).unwrap();
    assert_eq!(b.rip, 0xb000);
    let a_again = timer_interrupt_handler(&mut scheduler, &mut tss, &registers(0x222)).unwrap();
    assert_eq!(a_again, registers(0x111));
    assert_eq!(scheduler.current_context(), Some(0x12000 - 160));
}
