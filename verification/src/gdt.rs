//! Segment descriptors, their selectors, and the interrupt stack table.
//!
//! The descriptor table holds five segments after its null entry: kernel
//! code, kernel data, the task state segment, user code and user data. The
//! task state segment holds the stacks that the CPU switches to on entry to
//! an interrupt whose current stack cannot be trusted.

use vstd::prelude::*;
use x86_64::structures::gdt::{Descriptor, GlobalDescriptorTable};
use x86_64::structures::tss::TaskStateSegment;
use x86_64::VirtAddr;
use crate::memory::spec_canonical;

verus! {

/// Stack slot of the double fault handler.
pub const DOUBLE_FAULT_IST_INDEX: u16 = 0;

/// Stack slot of the page fault handler.
pub const PAGE_FAULT_IST_INDEX: u16 = 0;

/// Stack slot of the general protection fault handler.
pub const GENERAL_PROTECTION_FAULT_IST_INDEX: u16 = 0;

/// Stack slot of the timer interrupt handler.
pub const TIMER_INTERRUPT_INDEX: u16 = 1;

/// Stack slot of the keyboard interrupt handler.
pub const KEYBOARD_INTERRUPT_INDEX: u16 = 0;

/// Number of slots in the interrupt stack table.
pub const IST_SLOTS: usize = 7;

/// Number of 8-byte entries that the descriptor table has room for.
pub const GDT_CAPACITY: usize = 8;

/// Descriptor of the 64-bit code segment of ring 0.
pub const KERNEL_CODE_DESCRIPTOR: u64 = 0x00af_9b00_0000_ffff;

/// Descriptor of the data segment of ring 0.
pub const KERNEL_DATA_DESCRIPTOR: u64 = 0x00cf_9300_0000_ffff;

/// Descriptor of the 64-bit code segment of ring 3.
pub const USER_CODE_DESCRIPTOR: u64 = 0x00af_fb00_0000_ffff;

/// Descriptor of the data segment of ring 3.
pub const USER_DATA_DESCRIPTOR: u64 = 0x00cf_f300_0000_ffff;

#[verifier::external_type_specification]
#[verifier::external_body]
pub struct ExGlobalDescriptorTable<const MAX: usize>(GlobalDescriptorTable<MAX>);

#[verifier::external_type_specification]
#[verifier::external_body]
pub struct ExTaskStateSegment(TaskStateSegment);

/// A descriptor as it goes into the table: one entry for a code or data
/// segment, two for a system segment.
#[derive(Debug, Clone, Copy, PartialEq, Eq, Structural)]
pub enum SegmentDescriptor {
    User(u64),
    System(u64, u64),
}

impl SegmentDescriptor {
    /// The first, or only, entry of the descriptor.
    pub open spec fn low(self) -> u64 {
        match self {
            SegmentDescriptor::User(value) => value,
            SegmentDescriptor::System(low, _) => low,
        }
    }

    /// The entries that the descriptor takes up in the table.
    pub open spec fn entries(self) -> Seq<u64> {
        match self {
            SegmentDescriptor::User(value) => seq![value],
            SegmentDescriptor::System(low, high) => seq![low, high],
        }
    }

    /// The privilege level of the descriptor: bits 45 and 46.
    pub open spec fn privilege(self) -> u64 {
        (self.low() >> 45) & 3
    }

    /// The type field of a system descriptor: bits 40 to 43.
    pub open spec fn system_type(self) -> u64 {
        (self.low() >> 40) & 0xf
    }

    /// Whether the present bit, bit 47, is set.
    pub open spec fn present(self) -> bool {
        (self.low() >> 47) & 1 == 1
    }
}

/// The selector of the table entry `index` for the privilege level `rpl`.
pub open spec fn spec_selector(index: int, rpl: u64) -> u16 {
    (((index as u16) << 3) | (rpl as u16))
}

/// The entries of a descriptor table that are in use, the null entry first.
pub uninterp spec fn gdt_entries(table: GlobalDescriptorTable<8>) -> Seq<u64>;

/// The seven stack pointers of the interrupt stack table of a task state
/// segment.
pub uninterp spec fn tss_stacks(tss: TaskStateSegment) -> Seq<u64>;

/// Calls `x86_64::structures::gdt::GlobalDescriptorTable::new`. Trusted:
/// the new table holds the null entry and nothing else.
#[verifier::external_body]
fn empty_table() -> (table: GlobalDescriptorTable<8>)
    ensures
        gdt_entries(table) == seq![0u64],
{
    GlobalDescriptorTable::new()
}

/// Calls `x86_64::structures::gdt::GlobalDescriptorTable::append`.
/// Trusted: where the table has room, the entries of the descriptor are
/// put behind those in use, and the selector returned holds the index of
/// the first of them and the privilege level of the descriptor.
#[verifier::external_body]
fn append_descriptor(table: &mut GlobalDescriptorTable<8>, descriptor: SegmentDescriptor) -> (selector:
    u16)
    requires
        gdt_entries(*old(table)).len() + descriptor.entries().len() <= GDT_CAPACITY,
    ensures
        gdt_entries(*final(table)) == gdt_entries(*old(table)) + descriptor.entries(),
        selector == spec_selector(gdt_entries(*old(table)).len() as int, descriptor.privilege()),
{
    let entry = match descriptor {
        SegmentDescriptor::User(value) => Descriptor::UserSegment(value),
        SegmentDescriptor::System(low, high) => Descriptor::SystemSegment(low, high),
    };
    table.append(entry).0
}

/// Calls `x86_64::structures::gdt::Descriptor::kernel_code_segment`.
/// Trusted: the descriptor is the one entry written in the contract.
#[verifier::external_body]
fn kernel_code_segment() -> (descriptor: SegmentDescriptor)
    ensures
        descriptor == SegmentDescriptor::User(KERNEL_CODE_DESCRIPTOR),
{
    match Descriptor::kernel_code_segment() {
        Descriptor::UserSegment(value) => SegmentDescriptor::User(value),
        Descriptor::SystemSegment(low, high) => SegmentDescriptor::System(low, high),
    }
}

/// Calls `x86_64::structures::gdt::Descriptor::kernel_data_segment`.
/// Trusted: the descriptor is the one entry written in the contract.
#[verifier::external_body]
fn kernel_data_segment() -> (descriptor: SegmentDescriptor)
    ensures
        descriptor == SegmentDescriptor::User(KERNEL_DATA_DESCRIPTOR),
{
    match Descriptor::kernel_data_segment() {
        Descriptor::UserSegment(value) => SegmentDescriptor::User(value),
        Descriptor::SystemSegment(low, high) => SegmentDescriptor::System(low, high),
    }
}

/// Calls `x86_64::structures::gdt::Descriptor::user_code_segment`.
/// Trusted: the descriptor is the one entry written in the contract.
#[verifier::external_body]
fn user_code_segment() -> (descriptor: SegmentDescriptor)
    ensures
        descriptor == SegmentDescriptor::User(USER_CODE_DESCRIPTOR),
{
    match Descriptor::user_code_segment() {
        Descriptor::UserSegment(value) => SegmentDescriptor::User(value),
        Descriptor::SystemSegment(low, high) => SegmentDescriptor::System(low, high),
    }
}

/// Calls `x86_64::structures::gdt::Descriptor::user_data_segment`.
/// Trusted: the descriptor is the one entry written in the contract.
#[verifier::external_body]
fn user_data_segment() -> (descriptor: SegmentDescriptor)
    ensures
        descriptor == SegmentDescriptor::User(USER_DATA_DESCRIPTOR),
{
    match Descriptor::user_data_segment() {
        Descriptor::UserSegment(value) => SegmentDescriptor::User(value),
        Descriptor::SystemSegment(low, high) => SegmentDescriptor::System(low, high),
    }
}

/// Calls `x86_64::structures::gdt::Descriptor::tss_segment`. The entries
/// hold the address of the segment, so they differ from one run to the
/// next. Trusted: whatever the address, the descriptor is a system
/// descriptor that is present, of ring 0, and of the type of an available
/// 64-bit task state segment (9).
#[verifier::external_body]
fn tss_segment(tss: &'static TaskStateSegment) -> (descriptor: SegmentDescriptor)
    ensures
        descriptor is System,
        descriptor.present(),
        descriptor.privilege() == 0,
        descriptor.system_type() == 9,
{
    match Descriptor::tss_segment(tss) {
        Descriptor::UserSegment(value) => SegmentDescriptor::User(value),
        Descriptor::SystemSegment(low, high) => SegmentDescriptor::System(low, high),
    }
}

/// Calls `x86_64::structures::tss::TaskStateSegment::new`. Trusted: every
/// stack pointer of the interrupt stack table of the new segment is zero.
#[verifier::external_body]
fn empty_tss() -> (tss: TaskStateSegment)
    ensures
        tss_stacks(tss).len() == IST_SLOTS,
        forall|i: int| 0 <= i < IST_SLOTS ==> tss_stacks(tss)[i] == 0,
{
    TaskStateSegment::new()
}

/// Makes an `x86_64::VirtAddr` of `stack_end` with `VirtAddr::new` and
/// stores it in slot `index` of the field `interrupt_stack_table`.
/// Trusted: that slot then holds `stack_end` and the other slots are as
/// before.
#[verifier::external_body]
fn store_stack(tss: &mut TaskStateSegment, index: usize, stack_end: u64)
    requires
        index < IST_SLOTS,
        spec_canonical(stack_end),
    ensures
        tss_stacks(*final(tss)).len() == tss_stacks(*old(tss)).len(),
        forall|i: int|
            0 <= i < IST_SLOTS ==> tss_stacks(*final(tss))[i] == (if i == index {
                stack_end
            } else {
                tss_stacks(*old(tss))[i]
            }),
{
    tss.interrupt_stack_table[index] = VirtAddr::new(stack_end);
}

/// Reads slot `index` of the field `interrupt_stack_table` with
/// `x86_64::VirtAddr::as_u64`. Trusted: the value is the stack pointer of
/// that slot.
#[verifier::external_body]
fn load_stack(tss: &TaskStateSegment, index: usize) -> (stack_end: u64)
    requires
        index < IST_SLOTS,
    ensures
        stack_end == tss_stacks(*tss)[index as int],
{
    tss.interrupt_stack_table[index].as_u64()
}

/// The task state segment as it is at boot: the stack of the double fault
/// handler ends at `fault_stack_end`, the timer interrupt starts out on the
/// same stack, and the other slots are empty.
pub fn init_tss(fault_stack_end: u64) -> (tss: TaskStateSegment)
    requires
        spec_canonical(fault_stack_end),
    ensures
        tss_stacks(tss).len() == IST_SLOTS,
        forall|i: int|
            0 <= i < IST_SLOTS ==> tss_stacks(tss)[i] == (if i == DOUBLE_FAULT_IST_INDEX || i
                == TIMER_INTERRUPT_INDEX {
                fault_stack_end
            } else {
                0
            }),
{
    let mut tss = empty_tss();
    store_stack(&mut tss, DOUBLE_FAULT_IST_INDEX as usize, fault_stack_end);
    let shared = load_stack(&tss, DOUBLE_FAULT_IST_INDEX as usize);
    store_stack(&mut tss, TIMER_INTERRUPT_INDEX as usize, shared);
    tss
}

/// Binds the stack slot `index` to the stack that ends at `stack_end`. The
/// next interrupt that uses the slot starts on that stack.
pub fn set_interrupt_stack_table(tss: &mut TaskStateSegment, index: usize, stack_end: u64)
    requires
        index < IST_SLOTS,
        spec_canonical(stack_end),
    ensures
        tss_stacks(*final(tss)).len() == tss_stacks(*old(tss)).len(),
        forall|i: int|
            0 <= i < IST_SLOTS ==> tss_stacks(*final(tss))[i] == (if i == index {
                stack_end
            } else {
                tss_stacks(*old(tss))[i]
            }),
{
    store_stack(tss, index, stack_end);
}

/// The stack that slot `index` is bound to.
pub fn interrupt_stack(tss: &TaskStateSegment, index: usize) -> (stack_end: u64)
    requires
        index < IST_SLOTS,
    ensures
        stack_end == tss_stacks(*tss)[index as int],
{
    load_stack(tss, index)
}

/// The selectors of the five segments.
#[derive(Debug, Clone, Copy, PartialEq, Eq, Structural)]
pub struct Selectors {
    pub code_selector: u16,
    pub data_selector: u16,
    pub tss_selector: u16,
    pub user_code_selector: u16,
    pub user_data_selector: u16,
}

/// The selectors that the table of [`init`] gives: entries 1, 2, 3, 5 and
/// 6, the last two for ring 3.
pub open spec fn spec_selectors() -> Selectors {
    Selectors {
        code_selector: 0x08,
        data_selector: 0x10,
        tss_selector: 0x18,
        user_code_selector: 0x2b,
        user_data_selector: 0x33,
    }
}

proof fn lemma_selector_values()
    ensures
        spec_selector(1, SegmentDescriptor::User(KERNEL_CODE_DESCRIPTOR).privilege()) == 0x08,
        spec_selector(2, SegmentDescriptor::User(KERNEL_DATA_DESCRIPTOR).privilege()) == 0x10,
        spec_selector(3, 0) == 0x18,
        spec_selector(5, SegmentDescriptor::User(USER_CODE_DESCRIPTOR).privilege()) == 0x2b,
        spec_selector(6, SegmentDescriptor::User(USER_DATA_DESCRIPTOR).privilege()) == 0x33,
{
    assert((0x00af_9b00_0000_ffffu64 >> 45) & 3 == 0) by (bit_vector);
    assert((0x00cf_9300_0000_ffffu64 >> 45) & 3 == 0) by (bit_vector);
    assert((0x00af_fb00_0000_ffffu64 >> 45) & 3 == 3) by (bit_vector);
    assert((0x00cf_f300_0000_ffffu64 >> 45) & 3 == 3) by (bit_vector);
    assert((1u16 << 3) | 0u16 == 0x08) by (bit_vector);
    assert((2u16 << 3) | 0u16 == 0x10) by (bit_vector);
    assert((3u16 << 3) | 0u16 == 0x18) by (bit_vector);
    assert((5u16 << 3) | 3u16 == 0x2b) by (bit_vector);
    assert((6u16 << 3) | 3u16 == 0x33) by (bit_vector);
}

/// Builds the descriptor table: kernel code, kernel data, the task state
/// segment `tss`, user code and user data, in this order behind the null
/// entry. There is one code and one data segment for ring 0, one of each
/// for ring 3, and one task state segment. Loading the table into the CPU
/// is left to the caller.
pub fn init(tss: &'static TaskStateSegment) -> (built: (GlobalDescriptorTable<8>, Selectors))
    ensures
        built.1 == spec_selectors(),
        gdt_entries(built.0).len() == 7,
        gdt_entries(built.0)[0] == 0,
        gdt_entries(built.0)[1] == KERNEL_CODE_DESCRIPTOR,
        gdt_entries(built.0)[2] == KERNEL_DATA_DESCRIPTOR,
        SegmentDescriptor::System(gdt_entries(built.0)[3], gdt_entries(built.0)[4]).present(),
        SegmentDescriptor::System(gdt_entries(built.0)[3], gdt_entries(built.0)[4]).privilege()
            == 0,
        SegmentDescriptor::System(gdt_entries(built.0)[3], gdt_entries(built.0)[4]).system_type()
            == 9,
        gdt_entries(built.0)[5] == USER_CODE_DESCRIPTOR,
        gdt_entries(built.0)[6] == USER_DATA_DESCRIPTOR,
{
    proof {
        lemma_selector_values();
    }
    let mut gdt = empty_table();
    let code_selector = append_descriptor(&mut gdt, kernel_code_segment());
    let data_selector = append_descriptor(&mut gdt, kernel_data_segment());
    let tss_descriptor = tss_segment(tss);
    let tss_selector = append_descriptor(&mut gdt, tss_descriptor);
    let user_code_selector = append_descriptor(&mut gdt, user_code_segment());
    let user_data_selector = append_descriptor(&mut gdt, user_data_segment());
    (
        gdt,
        Selectors {
            code_selector,
            data_selector,
            tss_selector,
            user_code_selector,
            user_data_selector,
        },
    )
}

/// The code and data selectors of ring 0.
pub fn get_kernel_segments(selectors: &Selectors) -> (pair: (u16, u16))
    ensures
        pair == (selectors.code_selector, selectors.data_selector),
{
    (selectors.code_selector, selectors.data_selector)
}

/// The code and data selectors of ring 3.
pub fn get_user_segments(selectors: &Selectors) -> (pair: (u16, u16))
    ensures
        pair == (selectors.user_code_selector, selectors.user_data_selector),
{
    (selectors.user_code_selector, selectors.user_data_selector)
}

} // verus!
