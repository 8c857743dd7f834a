//! Bootstrap logic of a minimal freestanding kernel.
//!
//! The library models the cold-start sequence that runs when a bootloader
//! hands control to the kernel image: a liveness probe written into the
//! text-mode framebuffer, the boot message written cell by cell, and the
//! terminal halt state that both normal completion and a panic fall into.
//! The raw memory-mapped writes and the divergent spin loops themselves
//! cannot be verified; they live in the freestanding shell around this
//! library, which replays the verified write sequence against the hardware.

pub mod boot;
pub mod framebuffer;
pub mod state;
