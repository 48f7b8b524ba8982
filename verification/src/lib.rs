//! Verified core of a snapshot-based firmware fuzzing harness.
//!
//! The library models the per-iteration lifecycle of an emulated target:
//! slicing a candidate byte buffer into typed memory writes, choosing which
//! snapshot to restore between iterations, detecting illegal executions,
//! writes and bulk copies through guard regions, trapping CPU exceptions at
//! the vector table, and classifying how a run ended into a fuzzing verdict.
//! The emulator itself and the fuzzing engine around it are outside the
//! library; they exchange plain values with it.

pub mod config;
pub mod exception;
pub mod guard;
pub mod harness;
pub mod hex;
pub mod initial;
pub mod input;
pub mod mailbox;
pub mod observer;
pub mod qemuargs;
pub mod regs;
pub mod snapshot;
pub mod tunnel;

use vstd::prelude::*;

verus! {

/// The boot stage the target is currently executing; the exception vector
/// base depends on it.
#[derive(Debug, Clone)]
pub enum BootStage {
    OnChipBootloader,
    OffChipBootloader,
    TrustedOS,
}

impl BootStage {
    /// Base address of the exception vector table for this boot stage.
    pub fn get_exception_vector_base(&self) -> (r: u32)
        ensures
            r == self.spec_exception_vector_base(),
    {
        match self {
            BootStage::OnChipBootloader => 0x100,
            BootStage::OffChipBootloader => 0x100,
            BootStage::TrustedOS => 0x0,
        }
    }

    pub open spec fn spec_exception_vector_base(&self) -> u32 {
        match self {
            BootStage::OnChipBootloader => 0x100,
            BootStage::OffChipBootloader => 0x100,
            BootStage::TrustedOS => 0x0,
        }
    }
}

impl Default for BootStage {
    fn default() -> (r: Self)
        ensures
            r is OnChipBootloader,
    {
        BootStage::OnChipBootloader
    }
}

} // verus!
