//! Saving and restoring the machine state between iterations.
//!
//! A single baseline is captured once, at the moment the target first
//! reaches the configured start address; every later iteration begins by
//! restoring it. The configured levels only choose how much machinery the
//! restore moves (a fidelity/cost knob); they all re-establish the same
//! observable baseline.

use vstd::prelude::*;

verus! {

use crate::regs::RegisterSnapshot;

/// How a restore is performed: registers only, the host-side memory image,
/// or the emulator's own full snapshot with devices.
#[derive(Clone, Copy, Debug, PartialEq, Eq, Structural)]
pub enum ResetLevel {
    CpuState,
    RustSnapshot,
    QemuSnapshot,
}

/// Which level each occasion uses, and how often the periodic restore runs.
#[derive(Clone, Copy, Debug, PartialEq, Eq, Structural)]
pub struct SnapshotConfig {
    /// The cheap restore used every ordinary iteration.
    pub default: ResetLevel,
    /// The heavier restore used right after a detected crash.
    pub on_crash: ResetLevel,
    /// The heavier restore used every `period` iterations to bound drift.
    pub periodically: ResetLevel,
    pub period: usize,
}

/// The observable machine state the snapshot machinery moves: the register
/// file and the SRAM image.
#[derive(Clone, Debug, PartialEq, Eq)]
pub struct MachineState {
    pub regs: RegisterSnapshot,
    pub sram: Vec<u8>,
}

impl View for MachineState {
    type V = (RegisterSnapshot, Seq<u8>);

    /// What of the machine state is observable: the registers and the bytes
    /// of the SRAM image.
    open spec fn view(&self) -> (RegisterSnapshot, Seq<u8>) {
        (self.regs, self.sram@)
    }
}

/// Owner of the baseline snapshot.
#[derive(Clone, Debug)]
pub struct ResetState {
    /// Size of the SRAM image a well-formed baseline carries.
    pub sram_size: usize,
    /// The single baseline, captured once.
    pub baseline: Option<MachineState>,
}

impl ResetState {
    /// What a restore at any level re-establishes: the stored baseline.
    pub open spec fn spec_restored(self) -> MachineState {
        self.baseline->Some_0
    }

    /// A manager with no baseline captured yet.
    pub fn new(sram_size: usize) -> (r: Self)
        ensures
            r.sram_size == sram_size,
            r.baseline is None,
    {
        ResetState { sram_size, baseline: None }
    }

    /// Capture the baseline. This happens exactly once, at the fixed start
    /// point every test case begins from.
    pub fn save(&mut self, state: MachineState, _level: &ResetLevel)
        requires
            old(self).baseline is None,
            state.sram@.len() == old(self).sram_size,
        ensures
            final(self).sram_size == old(self).sram_size,
            final(self).baseline == Some(state),
    {
        self.baseline = Some(state);
    }

    /// Restore the baseline. Whatever level is chosen, the observable state
    /// handed back is the one captured by `save`.
    pub fn load(&self, _level: &ResetLevel) -> (r: MachineState)
        requires
            self.baseline is Some,
        ensures
            r@ == self.spec_restored()@,
    {
        match &self.baseline {
            Some(s) => {
                let copy = MachineState { regs: s.regs, sram: s.sram.clone() };
                proof {
                    assert(copy.sram@ =~= s.sram@);
                }
                copy
            },
            None => unreached(),
        }
    }
}

/// Restoring the baseline twice in a row, with no intervening save, yields
/// identical observable machine state both times: what a restore hands back
/// is a function of the stored baseline alone.
pub proof fn lemma_restore_idempotent(rs: ResetState, first: MachineState, second: MachineState)
    requires
        rs.baseline is Some,
        first@ == rs.spec_restored()@,
        second@ == rs.spec_restored()@,
    ensures
        first@ == second@,
{
}

} // verus!
