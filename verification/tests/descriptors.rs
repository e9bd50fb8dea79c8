use aurora_kernel::gdt::{
    self, get_kernel_segments, get_user_segments, init_tss, interrupt_stack,
    set_interrupt_stack_table, DOUBLE_FAULT_IST_INDEX, IST_SLOTS, KERNEL_CODE_DESCRIPTOR,
    KERNEL_DATA_DESCRIPTOR, TIMER_INTERRUPT_INDEX, USER_CODE_DESCRIPTOR, USER_DATA_DESCRIPTOR,
};
use x86_64::structures::tss::TaskStateSegment;

fn leaked_tss() -> &'static TaskStateSegment {
    Box::leak(Box::new(init_tss(0xffff_8000_0001_0000)))
}

#[test]
fn selectors_have_their_fixed_values() {
    let (_, selectors) = gdt::init(leaked_tss());
    assert_eq!(selectors.code_selector, 0x08);
    assert_eq!(selectors.data_selector, 0x10);
    assert_eq!(selectors.tss_selector, 0x18);
    assert_eq!(selectors.user_code_selector, 0x2b);
    assert_eq!(selectors.user_data_selector, 0x33);
    assert_eq!(get_kernel_segments(&selectors), (0x08, 0x10));
    assert_eq!(get_user_segments(&selectors), (0x2b, 0x33));
}

#[test]
fn table_holds_one_pair_per_ring_and_one_task_state_segment() {
    let (table, _) = gdt::init(leaked_tss());
    let entries: Vec<u64> = table.entries().iter().map(|e| e.raw()).collect();
    assert_eq!(entries.len(), 7);
    assert_eq!(entries[0], 0);
    assert_eq!(entries[1], KERNEL_CODE_DESCRIPTOR);
    assert_eq!(entries[2], KERNEL_DATA_DESCRIPTOR);
    assert_eq!(entries[5], USER_CODE_DESCRIPTOR);
    assert_eq!(entries[6], USER_DATA_DESCRIPTOR);
    // The task state segment: present, ring 0, type 9.
    assert_eq!((entries[3] >> 47) & 1, 1);
    assert_eq!((entries[3] >> 45) & 3, 0);
    assert_eq!((entries[3] >> 40) & 0xf, 9);
    // Ring 3 for the user pair, ring 0 for the kernel pair.
    assert_eq!((entries[5] >> 45) & 3, 3);
    assert_eq!((entries[6] >> 45) & 3, 3);
    assert_eq!((entries[1] >> 45) & 3, 0);
    assert_eq!((entries[2] >> 45) & 3, 0);
}

#[test]
fn boot_stacks_are_shared_by_double_fault_and_timer() {
    let tss = init_tss(0xffff_8000_0001_0000);
    for slot in 0..IST_SLOTS {
        let expected = if slot == DOUBLE_FAULT_IST_INDEX as usize || slot == TIMER_INTERRUPT_INDEX as usize {
            0xffff_8000_0001_0000
        } else {
            0
        };
        assert_eq!(interrupt_stack(&tss, slot), expected);
    }
}

#[test]
fn rebinding_a_slot_leaves_the_others() {
    let mut tss = init_tss(0x5000);
    set_interrupt_stack_table(&mut tss, TIMER_INTERRUPT_INDEX as usize, 0x7000);
    set_interrupt_stack_table(&mut tss, 6, 0x0000_7fff_ffff_ffff);
    assert_eq!(interrupt_stack(&tss, 0), 0x5000);
    assert_eq!(interrupt_stack(&tss, 1), 0x7000);
    assert_eq!(interrupt_stack(&tss, 2), 0);
    assert_eq!(interrupt_stack(&tss, 6), 0x0000_7fff_ffff_ffff);
    assert_eq!(tss.interrupt_stack_table[1].as_u64(), 0x7000);
}
