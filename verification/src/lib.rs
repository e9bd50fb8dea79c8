//! The core of a small preemptive kernel for x86-64, with its rules
//! proved.
//!
//! The kernel runs threads on one CPU and switches between them on every
//! timer interrupt. This library holds what the kernel decides and
//! computes: which thread runs next, how the registers of a suspended
//! thread lie on its stack, which descriptors and interrupt vectors the CPU
//! is given, which frame backs which page, and whether a user program may
//! be loaded where it wants to go. Nothing here touches the hardware: the
//! caller loads the tables, writes the ports and the page tables, and
//! reports back.
//!
//! - [`context`]: the saved registers of a thread and the push and pop
//!   sequences of a context switch.
//! - [`process`]: threads, the ready queue, and the timer interrupt.
//! - [`loader`] and [`elf`]: loading a user program step by step.
//! - [`memory`]: frames, pages, and address translation.
//! - [`gdt`]: segment descriptors and the interrupt stack table.
//! - [`interrupts`]: vectors, handlers, and the interrupt controllers.
//! - [`boot`]: the order of the boot.
//! - [`task`]: the queue of the keyboard.
//! - [`framebuffer`] and [`tty`]: the screen and the terminal.
//! - [`ide`] and [`pci`]: the disk and the PCI configuration space.

pub mod boot;
pub mod context;
pub mod elf;
pub mod framebuffer;
pub mod gdt;
pub mod ide;
pub mod interrupts;
pub mod loader;
pub mod memory;
pub mod pci;
pub mod process;
pub mod task;
pub mod tty;
