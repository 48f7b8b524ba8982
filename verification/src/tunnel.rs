//! Tunnels: small per-instruction interventions that steer the target past
//! roadblocks (hardware checks, busy loops) without patching the image on
//! disk.
//!
//! Each tunnel names an instruction address and an action; when execution
//! reaches the address, the action sets or copies a register, patches a
//! branch over a stretch of code, writes memory, or just logs. The decision
//! what to do is computed here from plain values; performing it against the
//! emulator is the caller's task.

use vstd::prelude::*;

verus! {

use crate::regs::Reg;

/// Whether a two-byte branch at `cur_pc` can reach `target`: the encoding
/// carries a signed, even 11-bit half-word offset relative to `cur_pc + 4`.
pub open spec fn spec_branch_encodable(cur_pc: u32, target: u32) -> bool {
    &&& cur_pc + 4 <= i32::MAX
    &&& target <= i32::MAX
    &&& -2048 <= target - cur_pc - 4 <= 2046
    &&& (target - cur_pc - 4) % 2 == 0
}

/// The 16-bit unconditional-branch instruction from `cur_pc` to `target`:
/// the top five bits are the opcode, the low eleven the offset in
/// half-words, two's complement.
pub open spec fn spec_branch_call_inst(cur_pc: u32, target: u32) -> int {
    let d = (target - cur_pc - 4) / 2;
    let bits = if d >= 0 {
        d
    } else {
        d + 2048
    };
    0xE000 + bits
}

/// The instruction's two bytes, little endian.
pub open spec fn spec_branch_call_bytes(cur_pc: u32, target: u32) -> Seq<u8> {
    seq![
        (spec_branch_call_inst(cur_pc, target) % 256) as u8,
        (spec_branch_call_inst(cur_pc, target) / 256) as u8,
    ]
}

/// Generate the branch instruction that jumps from `cur_pc` to `target`.
pub fn generate_branch_call(cur_pc: u32, target: u32) -> (r: [u8; 2])
    requires
        spec_branch_encodable(cur_pc, target),
    ensures
        r@ == spec_branch_call_bytes(cur_pc, target),
{
    let t = target as i32;
    let pc4 = (cur_pc + 4) as i32;
    let diff = t - pc4;
    let half = diff / 2;
    proof {
        assert(diff == target - cur_pc - 4);
        assert(half == (target - cur_pc - 4) / 2) by {
            assert(-2048 <= diff <= 2046 && diff % 2 == 0);
        }
        assert(-1024 <= half <= 1023);
    }
    let enc = #[verifier::truncate] (half as u16) & 0x7ff;
    let inst = 0xE000u16 | enc;
    proof {
        assert((half >= 0 ==> enc == half) && (half < 0 ==> enc == half + 2048)) by (bit_vector)
            requires
                -1024 <= half <= 1023,
                enc == #[verifier::truncate] (half as u16) & 0x7ff,
        ;
        assert(inst == 0xE000 + enc) by (bit_vector)
            requires
                enc < 0x800,
                inst == 0xE000u16 | enc,
        ;
        assert(inst == spec_branch_call_inst(cur_pc, target));
    }
    let lo = #[verifier::truncate] (inst as u8);
    let hi16 = inst >> 8;
    proof {
        assert(inst >> 8 < 256) by (bit_vector);
    }
    let hi = hi16 as u8;
    proof {
        assert(lo == inst % 256 && hi == inst / 256) by (bit_vector)
            requires
                lo == #[verifier::truncate] (inst as u8),
                hi == inst >> 8,
        ;
    }
    let r = [lo, hi];
    proof {
        assert(r@ =~= spec_branch_call_bytes(cur_pc, target));
    }
    r
}

/// What a tunnel does when its instruction is reached.
#[derive(Clone, Debug)]
pub enum CmpAction {
    /// Copy one register into another.
    CopyRegister { target: Reg, source: Reg },
    /// Load a constant into a register.
    SetConstant { target: Reg, value: u32 },
    /// Patch a branch from `source` to `target` into the code, once; the
    /// translation cache is invalidated so the patch can be undone by the
    /// next snapshot restore.
    Jump { source: u32, target: u32 },
    /// Patch the same branch, but keep it for the life of the run.
    PermaJump { source: u32, target: u32 },
    /// Log a register's value.
    LogRegister { target: Reg },
    /// Write the given bytes at an address.
    WriteMemory { target: u32, value: Vec<u8> },
    /// Log `size` bytes of memory at an address.
    LogMemory { target: u32, size: usize },
}

/// The concrete intervention one firing of a tunnel asks of the emulator.
#[derive(Clone, Debug)]
pub enum TunnelEffect {
    /// Write `value` into `target`.
    SetRegister { target: Reg, value: u32 },
    /// Overwrite the code at `at` with `bytes` and flush the translation
    /// cache.
    PatchInstruction { at: u32, bytes: Vec<u8> },
    /// Read and log register `target`.
    ReadRegister { target: Reg },
    /// Write `bytes` at memory address `at`.
    StoreMemory { at: u32, bytes: Vec<u8> },
    /// Read and log `size` bytes at memory address `at`.
    ReadMemory { at: u32, size: usize },
}

impl CmpAction {
    /// Whether this action's hook is removed after its first firing.
    pub fn fires_once(&self) -> (r: bool)
        ensures
            r == (self is Jump),
    {
        match self {
            CmpAction::Jump { .. } => true,
            _ => false,
        }
    }

    /// The intervention this action asks for. For a register copy the caller
    /// reads the source register first and passes its value in
    /// `source_value`; the other actions ignore it.
    pub fn effect(&self, source_value: u32) -> (r: TunnelEffect)
        requires
            ((*self) matches CmpAction::Jump { source, target } ==> spec_branch_encodable(
                source,
                target,
            )),
            ((*self) matches CmpAction::PermaJump { source, target } ==> spec_branch_encodable(
                source,
                target,
            )),
        ensures
            ((*self) matches CmpAction::SetConstant { target, value } ==> r == (TunnelEffect::SetRegister {
                target,
                value,
            })),
            ((*self) matches CmpAction::CopyRegister { target, .. } ==> r == (TunnelEffect::SetRegister {
                target,
                value: source_value,
            })),
            ((*self) matches CmpAction::Jump { source, target } ==> (r matches
                TunnelEffect::PatchInstruction { at, bytes } && at == source && bytes@
                == spec_branch_call_bytes(source, target))),
            ((*self) matches CmpAction::PermaJump { source, target } ==> (r matches
                TunnelEffect::PatchInstruction { at, bytes } && at == source && bytes@
                == spec_branch_call_bytes(source, target))),
            ((*self) matches CmpAction::LogRegister { target } ==> r == (TunnelEffect::ReadRegister {
                target,
            })),
            ((*self) matches CmpAction::WriteMemory { target, value } ==> (r matches
                TunnelEffect::StoreMemory { at, bytes } && at == target && bytes@ == value@)),
            ((*self) matches CmpAction::LogMemory { target, size } ==> r == (TunnelEffect::ReadMemory {
                at: target,
                size,
            })),
    {
        match self {
            CmpAction::SetConstant { target, value } => TunnelEffect::SetRegister {
                target: *target,
                value: *value,
            },
            CmpAction::CopyRegister { target, .. } => TunnelEffect::SetRegister {
                target: *target,
                value: source_value,
            },
            CmpAction::Jump { source, target } => {
                let inst = generate_branch_call(*source, *target);
                let mut bytes: Vec<u8> = Vec::new();
                bytes.push(inst[0]);
                bytes.push(inst[1]);
                proof {
                    assert(bytes@ =~= spec_branch_call_bytes(*source, *target));
                }
                TunnelEffect::PatchInstruction { at: *source, bytes }
            },
            CmpAction::PermaJump { source, target } => {
                let inst = generate_branch_call(*source, *target);
                let mut bytes: Vec<u8> = Vec::new();
                bytes.push(inst[0]);
                bytes.push(inst[1]);
                proof {
                    assert(bytes@ =~= spec_branch_call_bytes(*source, *target));
                }
                TunnelEffect::PatchInstruction { at: *source, bytes }
            },
            CmpAction::LogRegister { target } => TunnelEffect::ReadRegister { target: *target },
            CmpAction::WriteMemory { target, value } => {
                let mut bytes: Vec<u8> = Vec::new();
                let mut i: usize = 0;
                while i < value.len()
                    invariant
                        i <= value@.len(),
                        bytes@ == value@.subrange(0, i as int),
                    decreases value@.len() - i,
                {
                    bytes.push(value[i]);
                    i = i + 1;
                    proof {
                        assert(bytes@ =~= value@.subrange(0, i as int));
                    }
                }
                proof {
                    assert(bytes@ =~= value@);
                }
                TunnelEffect::StoreMemory { at: *target, bytes }
            },
            CmpAction::LogMemory { target, size } => TunnelEffect::ReadMemory {
                at: *target,
                size: *size,
            },
        }
    }
}

/// One tunnel: the hooked instruction address and what to do there.
#[derive(Clone, Debug)]
pub struct TunnelActions {
    pub addr: u32,
    pub value: CmpAction,
}

/// All configured tunnels, in configuration order.
#[derive(Clone, Debug)]
pub struct TunnelConfig {
    pub actions: Vec<TunnelActions>,
}

} // verus!
