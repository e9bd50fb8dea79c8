//! Cooperative tasks that run inside a kernel thread.

pub mod keyboard;
