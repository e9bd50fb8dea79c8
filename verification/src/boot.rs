//! The order in which the machine is brought up.
//!
//! The CPU tables come first, so that a fault during the rest of the boot
//! is caught. Hardware interrupts are enabled only when the interrupt
//! controllers are set up and the legacy controller is out of the way: an
//! interrupt before that would find no handler, or arrive twice.

use vstd::prelude::*;

verus! {

/// A step of the boot.
#[derive(Debug, Clone, Copy, PartialEq, Eq, Structural)]
pub enum BootStep {
    /// Load the descriptor table and the task state segment.
    LoadDescriptorTable,
    /// Load the interrupt table: handlers are in place, no device
    /// interrupt is delivered yet.
    LoadInterruptTable,
    /// Take over the page tables and the memory map.
    InitMemory,
    /// Map the kernel heap.
    InitHeap,
    /// Initialise the legacy interrupt controller anew and mask all of
    /// its lines.
    DisableLegacyController,
    /// Find the advanced interrupt controllers in the firmware's tables.
    DiscoverControllers,
    /// Set the vectors of the local interrupt controller and enable it.
    EnableLocalController,
    /// Route the line of the keyboard through the I/O interrupt
    /// controller.
    RouteKeyboard,
    /// Set the caching of the frame buffer.
    RemapFramebuffer,
    /// Enable hardware interrupts.
    EnableInterrupts,
    /// Put the terminal on the screen.
    ActivateTerminal,
    /// Look for devices on the PCI buses.
    ScanPci,
    /// Look for disks.
    DetectDisks,
    /// Create the first threads.
    CreateThreads,
    /// Run the cooperative tasks.
    RunTasks,
    /// Idle: the timer interrupt drives everything from here on.
    Idle,
}

/// The steps of the boot in their order.
pub open spec fn spec_boot_sequence() -> Seq<BootStep> {
    seq![
        BootStep::LoadDescriptorTable,
        BootStep::LoadInterruptTable,
        BootStep::InitMemory,
        BootStep::InitHeap,
        BootStep::DisableLegacyController,
        BootStep::DiscoverControllers,
        BootStep::EnableLocalController,
        BootStep::RouteKeyboard,
        BootStep::DisableLegacyController,
        BootStep::RemapFramebuffer,
        BootStep::EnableInterrupts,
        BootStep::ActivateTerminal,
        BootStep::ScanPci,
        BootStep::DetectDisks,
        BootStep::CreateThreads,
        BootStep::RunTasks,
        BootStep::Idle,
    ]
}

/// The steps of the boot in their order.
pub fn boot_sequence() -> (steps: Vec<BootStep>)
    ensures
        steps@ == spec_boot_sequence(),
{
    let steps = vec![
        BootStep::LoadDescriptorTable,
        BootStep::LoadInterruptTable,
        BootStep::InitMemory,
        BootStep::InitHeap,
        BootStep::DisableLegacyController,
        BootStep::DiscoverControllers,
        BootStep::EnableLocalController,
        BootStep::RouteKeyboard,
        BootStep::DisableLegacyController,
        BootStep::RemapFramebuffer,
        BootStep::EnableInterrupts,
        BootStep::ActivateTerminal,
        BootStep::ScanPci,
        BootStep::DetectDisks,
        BootStep::CreateThreads,
        BootStep::RunTasks,
        BootStep::Idle,
    ];
    assert(steps@ =~= spec_boot_sequence());
    steps
}

/// `step` is done before position `before` of the boot.
pub open spec fn done_before(step: BootStep, before: int) -> bool {
    exists|i: int| 0 <= i < before && i < spec_boot_sequence().len() && spec_boot_sequence()[i] == step
}

/// Hardware interrupts are enabled once, and only after the CPU tables
/// are loaded, the heap is there, both advanced interrupt controllers are
/// set up, and the legacy controller is masked. The legacy controller is
/// masked again after the advanced ones are set up. Threads are created
/// only with interrupts enabled, and idling comes last.
pub proof fn lemma_boot_order()
    ensures
        forall|i: int|
            0 <= i < spec_boot_sequence().len() && spec_boot_sequence()[i]
                == BootStep::EnableInterrupts ==> {
                &&& i == 10
                &&& done_before(BootStep::LoadDescriptorTable, i)
                &&& done_before(BootStep::LoadInterruptTable, i)
                &&& done_before(BootStep::InitHeap, i)
                &&& done_before(BootStep::EnableLocalController, i)
                &&& done_before(BootStep::RouteKeyboard, i)
                &&& spec_boot_sequence()[i - 2] == BootStep::DisableLegacyController
            },
        forall|i: int|
            0 <= i < spec_boot_sequence().len() && spec_boot_sequence()[i]
                == BootStep::CreateThreads ==> done_before(BootStep::EnableInterrupts, i),
        spec_boot_sequence().last() == BootStep::Idle,
        spec_boot_sequence()[0] == BootStep::LoadDescriptorTable,
{
    let s = spec_boot_sequence();
    assert(s.len() == 17);
    assert(s[0] == BootStep::LoadDescriptorTable && s[1] == BootStep::LoadInterruptTable && s[2]
        == BootStep::InitMemory && s[3] == BootStep::InitHeap && s[4]
        == BootStep::DisableLegacyController && s[5] == BootStep::DiscoverControllers && s[6]
        == BootStep::EnableLocalController && s[7] == BootStep::RouteKeyboard && s[8]
        == BootStep::DisableLegacyController && s[9] == BootStep::RemapFramebuffer && s[10]
        == BootStep::EnableInterrupts && s[11] == BootStep::ActivateTerminal && s[12]
        == BootStep::ScanPci && s[13] == BootStep::DetectDisks && s[14] == BootStep::CreateThreads
        && s[15] == BootStep::RunTasks && s[16] == BootStep::Idle);
}

} // verus!
