//! The interrupt vectors, their handlers, and the set-up of the interrupt
//! controllers.
//!
//! Faults have the vectors that the CPU fixes. The device interrupts
//! follow from [`PIC_1_OFFSET`] on: timer, keyboard, error, spurious. What
//! is written to the hardware (the table itself, the ports of the legacy
//! controller, the registers of the advanced controllers) is worked out
//! here and written by the caller.

use vstd::prelude::*;
use crate::gdt::{
    DOUBLE_FAULT_IST_INDEX, GENERAL_PROTECTION_FAULT_IST_INDEX, KEYBOARD_INTERRUPT_INDEX,
    PAGE_FAULT_IST_INDEX, TIMER_INTERRUPT_INDEX,
};

verus! {

/// Vector of the first device interrupt.
pub const PIC_1_OFFSET: u8 = 32;

/// Vector at which the second bank of legacy interrupt lines would start.
pub const PIC_2_OFFSET: u8 = PIC_1_OFFSET + 8;

/// The device interrupts, in the order of their vectors.
#[derive(Debug, Clone, Copy, PartialEq, Eq, Structural)]
pub enum InterruptIndex {
    Timer,
    Keyboard,
    Error,
    Spurious,
}

impl InterruptIndex {
    /// The vector number as a mathematical integer.
    pub open spec fn vector(self) -> int {
        match self {
            InterruptIndex::Timer => PIC_1_OFFSET as int,
            InterruptIndex::Keyboard => PIC_1_OFFSET + 1,
            InterruptIndex::Error => PIC_1_OFFSET + 2,
            InterruptIndex::Spurious => PIC_1_OFFSET + 3,
        }
    }

    pub fn as_u8(self) -> (v: u8)
        ensures
            v == self.vector(),
    {
        match self {
            InterruptIndex::Timer => PIC_1_OFFSET,
            InterruptIndex::Keyboard => PIC_1_OFFSET + 1,
            InterruptIndex::Error => PIC_1_OFFSET + 2,
            InterruptIndex::Spurious => PIC_1_OFFSET + 3,
        }
    }

    pub fn as_usize(self) -> (v: usize)
        ensures
            v == self.vector(),
    {
        self.as_u8() as usize
    }
}

/// The handlers of the interrupt table.
#[derive(Debug, Clone, Copy, PartialEq, Eq, Structural)]
pub enum Handler {
    DivideError,
    Debug,
    Breakpoint,
    InvalidOpcode,
    DoubleFault,
    GeneralProtectionFault,
    PageFault,
    Timer,
    Keyboard,
    Error,
    Spurious,
}

/// What a handler does when its work is done.
#[derive(Debug, Clone, Copy, PartialEq, Eq, Structural)]
pub enum Completion {
    /// Return: execution goes on after the fault.
    Resume,
    /// Never return: the system stops.
    Halt,
    /// Signal end-of-interrupt to the local interrupt controller, then
    /// return.
    EndOfInterrupt,
}

impl Handler {
    /// Faults come from the CPU itself; the others come from a device
    /// through the interrupt controller.
    pub open spec fn is_fault(self) -> bool {
        !(self == Handler::Timer || self == Handler::Keyboard || self == Handler::Error || self
            == Handler::Spurious)
    }

    /// The vector of the handler.
    pub open spec fn spec_vector(self) -> int {
        match self {
            Handler::DivideError => 0,
            Handler::Debug => 1,
            Handler::Breakpoint => 3,
            Handler::InvalidOpcode => 6,
            Handler::DoubleFault => 8,
            Handler::GeneralProtectionFault => 13,
            Handler::PageFault => 14,
            Handler::Timer => InterruptIndex::Timer.vector(),
            Handler::Keyboard => InterruptIndex::Keyboard.vector(),
            Handler::Error => InterruptIndex::Error.vector(),
            Handler::Spurious => InterruptIndex::Spurious.vector(),
        }
    }

    /// The slot of the interrupt stack table that the handler starts on,
    /// if it has a stack of its own.
    pub open spec fn spec_stack_index(self) -> Option<u16> {
        match self {
            Handler::DoubleFault => Some(DOUBLE_FAULT_IST_INDEX),
            Handler::PageFault => Some(PAGE_FAULT_IST_INDEX),
            Handler::GeneralProtectionFault => Some(GENERAL_PROTECTION_FAULT_IST_INDEX),
            Handler::Timer => Some(TIMER_INTERRUPT_INDEX),
            Handler::Keyboard => Some(KEYBOARD_INTERRUPT_INDEX),
            _ => None,
        }
    }

    /// A double fault stops the system. After any other fault execution
    /// goes on. A device interrupt is acknowledged before the handler
    /// returns.
    pub open spec fn spec_completion(self) -> Completion {
        if self == Handler::DoubleFault {
            Completion::Halt
        } else if self.is_fault() {
            Completion::Resume
        } else {
            Completion::EndOfInterrupt
        }
    }

    /// The vector of the handler.
    pub fn vector(self) -> (v: u8)
        ensures
            v == self.spec_vector(),
    {
        match self {
            Handler::DivideError => 0,
            Handler::Debug => 1,
            Handler::Breakpoint => 3,
            Handler::InvalidOpcode => 6,
            Handler::DoubleFault => 8,
            Handler::GeneralProtectionFault => 13,
            Handler::PageFault => 14,
            Handler::Timer => InterruptIndex::Timer.as_u8(),
            Handler::Keyboard => InterruptIndex::Keyboard.as_u8(),
            Handler::Error => InterruptIndex::Error.as_u8(),
            Handler::Spurious => InterruptIndex::Spurious.as_u8(),
        }
    }

    /// The slot of the interrupt stack table that the handler starts on.
    pub fn stack_index(self) -> (slot: Option<u16>)
        ensures
            slot == self.spec_stack_index(),
    {
        match self {
            Handler::DoubleFault => Some(DOUBLE_FAULT_IST_INDEX),
            Handler::PageFault => Some(PAGE_FAULT_IST_INDEX),
            Handler::GeneralProtectionFault => Some(GENERAL_PROTECTION_FAULT_IST_INDEX),
            Handler::Timer => Some(TIMER_INTERRUPT_INDEX),
            Handler::Keyboard => Some(KEYBOARD_INTERRUPT_INDEX),
            _ => None,
        }
    }

    /// What the handler does when its work is done.
    pub fn completion(self) -> (done: Completion)
        ensures
            done == self.spec_completion(),
    {
        match self {
            Handler::DoubleFault => Completion::Halt,
            Handler::Timer | Handler::Keyboard | Handler::Error | Handler::Spurious => {
                Completion::EndOfInterrupt
            },
            _ => Completion::Resume,
        }
    }
}

/// One entry of the interrupt table.
#[derive(Debug, Clone, Copy, PartialEq, Eq, Structural)]
pub struct IdtEntry {
    pub vector: u8,
    pub handler: Handler,
    pub stack_index: Option<u16>,
}

/// The entry that binds `handler` to its vector and its stack.
pub open spec fn spec_entry(handler: Handler) -> IdtEntry {
    IdtEntry {
        vector: handler.spec_vector() as u8,
        handler,
        stack_index: handler.spec_stack_index(),
    }
}

/// The handlers of the interrupt table in the order in which they are
/// installed.
pub open spec fn spec_handlers() -> Seq<Handler> {
    seq![
        Handler::Breakpoint,
        Handler::DoubleFault,
        Handler::PageFault,
        Handler::Timer,
        Handler::Spurious,
        Handler::Error,
        Handler::Keyboard,
        Handler::DivideError,
        Handler::Debug,
        Handler::InvalidOpcode,
        Handler::GeneralProtectionFault,
    ]
}

/// The interrupt table.
pub open spec fn spec_idt() -> Seq<IdtEntry> {
    Seq::new(spec_handlers().len(), |i: int| spec_entry(spec_handlers()[i]))
}

/// Builds the interrupt table: every handler with its vector and, where
/// it has one, its stack slot. Loading the table into the CPU is left to
/// the caller.
pub fn init_idt() -> (table: Vec<IdtEntry>)
    ensures
        table@ == spec_idt(),
{
    let handlers = [
        Handler::Breakpoint,
        Handler::DoubleFault,
        Handler::PageFault,
        Handler::Timer,
        Handler::Spurious,
        Handler::Error,
        Handler::Keyboard,
        Handler::DivideError,
        Handler::Debug,
        Handler::InvalidOpcode,
        Handler::GeneralProtectionFault,
    ];
    assert(handlers@ =~= spec_handlers());
    let mut table: Vec<IdtEntry> = Vec::new();
    let mut i: usize = 0;
    while i < 11
        invariant
            0 <= i <= 11,
            handlers@ == spec_handlers(),
            table@.len() == i,
            forall|j: int| 0 <= j < i ==> table@[j] == spec_entry(spec_handlers()[j]),
        decreases 11 - i,
    {
        let handler = handlers[i];
        table.push(IdtEntry { vector: handler.vector(), handler, stack_index: handler.stack_index() });
        i += 1;
    }
    assert(table@ =~= spec_idt());
    table
}

/// In the interrupt table no vector is bound twice, and every handler that
/// may be entered while the current stack cannot be trusted (double fault,
/// page fault, general protection fault, timer) starts on a stack slot of
/// its own choosing.
pub proof fn lemma_idt_sound()
    ensures
        forall|i: int, j: int|
            0 <= i < j < spec_idt().len() ==> spec_idt()[i].vector != spec_idt()[j].vector,
        forall|i: int|
            0 <= i < spec_idt().len() && (spec_idt()[i].handler == Handler::DoubleFault
                || spec_idt()[i].handler == Handler::PageFault || spec_idt()[i].handler
                == Handler::GeneralProtectionFault || spec_idt()[i].handler == Handler::Timer)
                ==> spec_idt()[i].stack_index.is_some(),
        forall|i: int|
            0 <= i < spec_idt().len() && !spec_idt()[i].handler.is_fault()
                ==> spec_idt()[i].handler.spec_completion() == Completion::EndOfInterrupt,
{
    let t = spec_idt();
    assert(t.len() == 11);
    assert(t[0].vector == 3 && t[1].vector == 8 && t[2].vector == 14 && t[3].vector == 32
        && t[4].vector == 35 && t[5].vector == 34 && t[6].vector == 33 && t[7].vector == 0
        && t[8].vector == 1 && t[9].vector == 6 && t[10].vector == 13);
}

/// A byte to write to an I/O port.
#[derive(Debug, Clone, Copy, PartialEq, Eq, Structural)]
pub struct PortWrite {
    pub port: u16,
    pub value: u8,
}

/// Command port of the first legacy interrupt controller.
pub const PIC_1_COMMAND: u16 = 0x20;

/// Data port of the first legacy interrupt controller.
pub const PIC_1_DATA: u16 = 0x21;

/// Command port of the second legacy interrupt controller.
pub const PIC_2_COMMAND: u16 = 0xa0;

/// Data port of the second legacy interrupt controller.
pub const PIC_2_DATA: u16 = 0xa1;

/// A write to this port does nothing but take a moment.
pub const WAIT_PORT: u16 = 0x80;

/// The writes that take the legacy interrupt controllers out of the way:
/// both are initialised anew, given vectors out of the way (0xf8 and 0xff),
/// told how they are wired to each other, put into 8086 mode, and in the
/// end every one of their lines is masked. After each pair of writes but
/// the last comes a write to the wait port.
pub open spec fn spec_disable_pic() -> Seq<PortWrite> {
    seq![
        PortWrite { port: PIC_1_COMMAND, value: 0x11 },
        PortWrite { port: PIC_2_COMMAND, value: 0x11 },
        PortWrite { port: WAIT_PORT, value: 0 },
        PortWrite { port: PIC_1_DATA, value: 0xf8 },
        PortWrite { port: PIC_2_DATA, value: 0xff },
        PortWrite { port: WAIT_PORT, value: 0 },
        PortWrite { port: PIC_1_DATA, value: 0b100 },
        PortWrite { port: PIC_2_DATA, value: 0b10 },
        PortWrite { port: WAIT_PORT, value: 0 },
        PortWrite { port: PIC_1_DATA, value: 0x1 },
        PortWrite { port: PIC_2_DATA, value: 0x1 },
        PortWrite { port: WAIT_PORT, value: 0 },
        PortWrite { port: PIC_1_DATA, value: 0xff },
        PortWrite { port: PIC_2_DATA, value: 0xff },
    ]
}

/// The writes that disable the legacy interrupt controllers, in the order
/// in which the caller has to perform them.
pub fn disable_pic() -> (writes: Vec<PortWrite>)
    ensures
        writes@ == spec_disable_pic(),
{
    let writes = vec![
        PortWrite { port: PIC_1_COMMAND, value: 0x11 },
        PortWrite { port: PIC_2_COMMAND, value: 0x11 },
        PortWrite { port: WAIT_PORT, value: 0 },
        PortWrite { port: PIC_1_DATA, value: 0xf8 },
        PortWrite { port: PIC_2_DATA, value: 0xff },
        PortWrite { port: WAIT_PORT, value: 0 },
        PortWrite { port: PIC_1_DATA, value: 0b100 },
        PortWrite { port: PIC_2_DATA, value: 0b10 },
        PortWrite { port: WAIT_PORT, value: 0 },
        PortWrite { port: PIC_1_DATA, value: 0x1 },
        PortWrite { port: PIC_2_DATA, value: 0x1 },
        PortWrite { port: WAIT_PORT, value: 0 },
        PortWrite { port: PIC_1_DATA, value: 0xff },
        PortWrite { port: PIC_2_DATA, value: 0xff },
    ];
    assert(writes@ =~= spec_disable_pic());
    writes
}

/// How the local interrupt controller is set up.
#[derive(Debug, Clone, Copy, PartialEq, Eq, Structural)]
pub struct LapicSetup {
    /// Virtual address of its registers.
    pub xapic_base: u64,
    pub timer_vector: usize,
    pub error_vector: usize,
    pub spurious_vector: usize,
}

/// The set-up of the local interrupt controller whose registers lie at the
/// physical address `lapic_phys`, where physical memory is mapped from
/// `physical_memory_offset` on: its three vectors are those of
/// [`InterruptIndex`]. `None` where the virtual address of the registers
/// does not fit in 64 bits.
pub fn init_lapic(lapic_phys: usize, physical_memory_offset: u64) -> (setup: Option<LapicSetup>)
    ensures
        setup == (if lapic_phys + physical_memory_offset <= u64::MAX {
            Some(
                LapicSetup {
                    xapic_base: (lapic_phys + physical_memory_offset) as u64,
                    timer_vector: InterruptIndex::Timer.vector() as usize,
                    error_vector: InterruptIndex::Error.vector() as usize,
                    spurious_vector: InterruptIndex::Spurious.vector() as usize,
                },
            )
        } else {
            None
        }),
{
    match (lapic_phys as u64).checked_add(physical_memory_offset) {
        Some(xapic_base) => Some(
            LapicSetup {
                xapic_base,
                timer_vector: InterruptIndex::Timer.as_usize(),
                error_vector: InterruptIndex::Error.as_usize(),
                spurious_vector: InterruptIndex::Spurious.as_usize(),
            },
        ),
        None => None,
    }
}

/// Interrupt line of the keyboard at the I/O interrupt controller.
pub const KEYBOARD_IRQ: u8 = 1;

/// How the I/O interrupt controller is set up.
#[derive(Debug, Clone, Copy, PartialEq, Eq, Structural)]
pub struct IoApicSetup {
    /// Virtual address of its registers.
    pub base: u64,
    /// Vector of its first interrupt line.
    pub irq_offset: u8,
    /// The line that is routed and enabled.
    pub irq: u8,
    /// The vector that the line raises.
    pub vector: u8,
    /// The local interrupt controller that the line is delivered to.
    pub destination: u8,
    pub level_triggered: bool,
    pub low_active: bool,
}

/// The set-up of the I/O interrupt controller whose registers lie at the
/// physical address `ioapic_phys`: the line of the keyboard raises the
/// keyboard vector at the local interrupt controller `lapic_id`, in fixed
/// delivery mode, level-triggered and active low. `None` where the virtual
/// address of the registers does not fit in 64 bits.
pub fn init_ioapic(ioapic_phys: usize, physical_memory_offset: u64, irq_offset: u8, lapic_id: u8) -> (setup:
    Option<IoApicSetup>)
    ensures
        setup == (if ioapic_phys + physical_memory_offset <= u64::MAX {
            Some(
                IoApicSetup {
                    base: (ioapic_phys + physical_memory_offset) as u64,
                    irq_offset,
                    irq: KEYBOARD_IRQ,
                    vector: InterruptIndex::Keyboard.vector() as u8,
                    destination: lapic_id,
                    level_triggered: true,
                    low_active: true,
                },
            )
        } else {
            None
        }),
{
    match (ioapic_phys as u64).checked_add(physical_memory_offset) {
        Some(base) => Some(
            IoApicSetup {
                base,
                irq_offset,
                irq: KEYBOARD_IRQ,
                vector: InterruptIndex::Keyboard.as_u8(),
                destination: lapic_id,
                level_triggered: true,
                low_active: true,
            },
        ),
        None => None,
    }
}

/// An I/O interrupt controller as the firmware's tables describe it.
#[derive(Debug, Clone, Copy, PartialEq, Eq, Structural)]
pub struct IoApic {
    pub id: u8,
    /// Physical address of its registers.
    pub address: u32,
    /// Number of the first interrupt that arrives at its inputs.
    pub global_system_interrupt_base: u32,
}

/// The advanced interrupt controllers of the machine as the firmware's
/// tables describe them.
#[derive(Debug)]
pub struct Apic {
    /// Physical address of the registers of the local interrupt
    /// controller.
    pub local_apic_address: u64,
    /// The I/O interrupt controllers in the order of the tables.
    pub io_apics: Vec<IoApic>,
}

/// How interrupts reach the CPU, as far as the firmware's tables say.
#[derive(Debug)]
pub enum InterruptModel {
    /// The tables describe no interrupt controller.
    Unknown,
    /// The advanced interrupt controllers.
    Apic(Apic),
}

/// Where the registers of the interrupt controllers lie in physical
/// memory.
#[derive(Debug, Clone, Copy, PartialEq, Eq, Structural)]
pub struct ApicAddresses {
    pub local_apic: u64,
    pub io_apic: u32,
}

/// The controllers that the kernel uses: the local interrupt controller
/// and the first of the I/O interrupt controllers. `None` where the model
/// is not that of the advanced controllers or names no I/O controller.
pub open spec fn spec_init_apic(model: InterruptModel) -> Option<ApicAddresses> {
    match model {
        InterruptModel::Apic(apic) => if apic.io_apics@.len() > 0 {
            Some(
                ApicAddresses {
                    local_apic: apic.local_apic_address,
                    io_apic: apic.io_apics@[0].address,
                },
            )
        } else {
            None
        },
        InterruptModel::Unknown => None,
    }
}

/// Picks the interrupt controllers to set up out of what the firmware's
/// tables describe.
pub fn init_apic(model: &InterruptModel) -> (found: Option<ApicAddresses>)
    ensures
        found == spec_init_apic(*model),
{
    match model {
        InterruptModel::Apic(apic) => {
            if apic.io_apics.len() > 0 {
                Some(
                    ApicAddresses {
                        local_apic: apic.local_apic_address,
                        io_apic: apic.io_apics[0].address,
                    },
                )
            } else {
                None
            }
        },
        InterruptModel::Unknown => None,
    }
}

} // verus!
