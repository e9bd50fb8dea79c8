use aurora_kernel::boot::{boot_sequence, BootStep};

fn position(step: BootStep) -> usize {
    boot_sequence().iter().position(|s| *s == step).unwrap()
}

#[test]
fn boot_steps_in_order() {
    assert_eq!(
        boot_sequence(),
        vec![
            BootStep::LoadDescriptorTable,
            BootStep::LoadInterruptTable,
            BootStep::InitMemory,
            BootStep::InitHeap,
            BootStep::DisableLegacyController,
            BootStep::DiscoverControllers,
            BootStep::EnableLocalController,
            BootStep::RouteKeyboard,
            BootStep::DisableLegacyController,
            BootStep::RemapFramebuffer,
            BootStep::EnableInterrupts,
            BootStep::ActivateTerminal,
            BootStep::ScanPci,
            BootStep::DetectDisks,
            BootStep::CreateThreads,
            BootStep::RunTasks,
            BootStep::Idle,
        ]
    );
}

#[test]
fn interrupts_are_enabled_after_the_controllers_are_set_up() {
    let enabled = position(BootStep::EnableInterrupts);
    for before in [
        BootStep::LoadDescriptorTable,
        BootStep::LoadInterruptTable,
        BootStep::InitHeap,
        BootStep::DiscoverControllers,
        BootStep::EnableLocalController,
        BootStep::RouteKeyboard,
        BootStep::DisableLegacyController,
    ] {
        assert!(position(before) < enabled);
    }
    let steps = boot_sequence();
    let last_masking = steps.iter().rposition(|s| *s == BootStep::DisableLegacyController).unwrap();
    assert!(position(BootStep::RouteKeyboard) < last_masking && last_masking < enabled);
    assert_eq!(steps.iter().filter(|s| **s == BootStep::EnableInterrupts).count(), 1);
    assert!(enabled < position(BootStep::CreateThreads));
    assert_eq!(steps.last(), Some(&BootStep::Idle));
}
