//! Register names and register-state snapshots.
//!
//! The emulator exposes the guest CPU registers by name; the library keeps
//! its own name type and a plain-value snapshot of the register file, and
//! renders the snapshot as fixed-width hex text for reporting.

use vstd::prelude::*;

verus! {

use crate::hex::{format_hex32, spec_hex32};
use vstd::string::StrSliceExecFns;

/// A guest CPU register, by the names the configuration may use.
/// `Sp`, `Lr`, `Pc`, `Sb`, `Sl`, `Fp` and `Ip` are the calling-convention
/// names; the numbered names address the same file directly.
#[derive(Clone, Copy, Debug, PartialEq, Eq, Structural)]
pub enum Reg {
    R0,
    R1,
    R2,
    R3,
    R4,
    R5,
    R6,
    R7,
    R8,
    R9,
    R10,
    R11,
    R12,
    R13,
    R14,
    R15,
    R25,
    Sp,
    Lr,
    Pc,
    Sb,
    Sl,
    Fp,
    Ip,
    Cpsr,
}

/// Whole-string equality of two string slices.
pub fn str_eq(a: &str, b: &str) -> (r: bool)
    ensures
        r == (a@ == b@),
{
    let la = a.unicode_len();
    let lb = b.unicode_len();
    if la != lb {
        proof {
            assert(a@ != b@) by {
                assert(a@.len() != b@.len());
            }
        }
        return false;
    }
    let mut i: usize = 0;
    while i < la
        invariant
            la == a@.len(),
            la == b@.len(),
            i <= la,
            forall|j: int| 0 <= j < i ==> a@[j] == b@[j],
        decreases la - i,
    {
        if a.get_char(i) != b.get_char(i) {
            proof {
                assert(a@ != b@) by {
                    assert(a@[i as int] != b@[i as int]);
                }
            }
            return false;
        }
        i = i + 1;
    }
    proof {
        assert(a@ =~= b@);
    }
    true
}

/// The register named by `s`, or `None` for an unknown name.
pub open spec fn spec_parse_reg(s: Seq<char>) -> Option<Reg> {
    if s == "R0"@ {
        Some(Reg::R0)
    } else if s == "R1"@ {
        Some(Reg::R1)
    } else if s == "R2"@ {
        Some(Reg::R2)
    } else if s == "R3"@ {
        Some(Reg::R3)
    } else if s == "R4"@ {
        Some(Reg::R4)
    } else if s == "R5"@ {
        Some(Reg::R5)
    } else if s == "R6"@ {
        Some(Reg::R6)
    } else if s == "R7"@ {
        Some(Reg::R7)
    } else if s == "R8"@ {
        Some(Reg::R8)
    } else if s == "R9"@ {
        Some(Reg::R9)
    } else if s == "R10"@ {
        Some(Reg::R10)
    } else if s == "R11"@ {
        Some(Reg::R11)
    } else if s == "R12"@ {
        Some(Reg::R12)
    } else if s == "R13"@ {
        Some(Reg::R13)
    } else if s == "R14"@ {
        Some(Reg::R14)
    } else if s == "R15"@ {
        Some(Reg::R15)
    } else if s == "R25"@ {
        Some(Reg::R25)
    } else if s == "Sp"@ || s == "SP"@ {
        Some(Reg::Sp)
    } else if s == "Lr"@ || s == "LR"@ {
        Some(Reg::Lr)
    } else if s == "Pc"@ || s == "PC"@ {
        Some(Reg::Pc)
    } else if s == "Sb"@ || s == "SB"@ {
        Some(Reg::Sb)
    } else if s == "Sl"@ || s == "SL"@ {
        Some(Reg::Sl)
    } else if s == "Fp"@ || s == "FP"@ {
        Some(Reg::Fp)
    } else if s == "Ip"@ || s == "IP"@ {
        Some(Reg::Ip)
    } else if s == "Cpsr"@ || s == "CPSR"@ {
        Some(Reg::Cpsr)
    } else {
        None
    }
}

/// Parse a register name from the configuration.
pub fn parse_regs2(reg: &str) -> (r: Option<Reg>)
    ensures
        r == spec_parse_reg(reg@),
{
    if str_eq(reg, "R0") {
        Some(Reg::R0)
    } else if str_eq(reg, "R1") {
        Some(Reg::R1)
    } else if str_eq(reg, "R2") {
        Some(Reg::R2)
    } else if str_eq(reg, "R3") {
        Some(Reg::R3)
    } else if str_eq(reg, "R4") {
        Some(Reg::R4)
    } else if str_eq(reg, "R5") {
        Some(Reg::R5)
    } else if str_eq(reg, "R6") {
        Some(Reg::R6)
    } else if str_eq(reg, "R7") {
        Some(Reg::R7)
    } else if str_eq(reg, "R8") {
        Some(Reg::R8)
    } else if str_eq(reg, "R9") {
        Some(Reg::R9)
    } else if str_eq(reg, "R10") {
        Some(Reg::R10)
    } else if str_eq(reg, "R11") {
        Some(Reg::R11)
    } else if str_eq(reg, "R12") {
        Some(Reg::R12)
    } else if str_eq(reg, "R13") {
        Some(Reg::R13)
    } else if str_eq(reg, "R14") {
        Some(Reg::R14)
    } else if str_eq(reg, "R15") {
        Some(Reg::R15)
    } else if str_eq(reg, "R25") {
        Some(Reg::R25)
    } else if str_eq(reg, "Sp") || str_eq(reg, "SP") {
        Some(Reg::Sp)
    } else if str_eq(reg, "Lr") || str_eq(reg, "LR") {
        Some(Reg::Lr)
    } else if str_eq(reg, "Pc") || str_eq(reg, "PC") {
        Some(Reg::Pc)
    } else if str_eq(reg, "Sb") || str_eq(reg, "SB") {
        Some(Reg::Sb)
    } else if str_eq(reg, "Sl") || str_eq(reg, "SL") {
        Some(Reg::Sl)
    } else if str_eq(reg, "Fp") || str_eq(reg, "FP") {
        Some(Reg::Fp)
    } else if str_eq(reg, "Ip") || str_eq(reg, "IP") {
        Some(Reg::Ip)
    } else if str_eq(reg, "Cpsr") || str_eq(reg, "CPSR") {
        Some(Reg::Cpsr)
    } else {
        None
    }
}

/// A plain-value snapshot of the guest register file at a halt.
#[derive(Clone, Copy, Debug, Default, PartialEq, Eq, Structural)]
pub struct RegisterSnapshot {
    pub r0: u32,
    pub r1: u32,
    pub r2: u32,
    pub r3: u32,
    pub r4: u32,
    pub r5: u32,
    pub r6: u32,
    pub r7: u32,
    pub r8: u32,
    pub r9: u32,
    pub r10: u32,
    pub r11: u32,
    pub r12: u32,
    pub sp: u32,
    pub lr: u32,
    pub pc: u32,
    pub cpsr: u32,
}

/// The register file rendered as `0x`-prefixed eight-digit hex words, the
/// form in which solutions are reported.
#[derive(Clone, Debug)]
pub struct RegisterMetadata {
    pub r0: String,
    pub r1: String,
    pub r2: String,
    pub r3: String,
    pub r4: String,
    pub r5: String,
    pub r6: String,
    pub r7: String,
    pub r8: String,
    pub r9: String,
    pub r10: String,
    pub r11: String,
    pub r12: String,
    pub sp: String,
    pub lr: String,
    pub pc: String,
    pub cpsr: String,
}

impl RegisterMetadata {
    /// Render a register snapshot; every field is the hex text of the
    /// corresponding register value.
    pub fn new(regs: &RegisterSnapshot) -> (r: Self)
        ensures
            r.r0@ == spec_hex32(regs.r0),
            r.r1@ == spec_hex32(regs.r1),
            r.r2@ == spec_hex32(regs.r2),
            r.r3@ == spec_hex32(regs.r3),
            r.r4@ == spec_hex32(regs.r4),
            r.r5@ == spec_hex32(regs.r5),
            r.r6@ == spec_hex32(regs.r6),
            r.r7@ == spec_hex32(regs.r7),
            r.r8@ == spec_hex32(regs.r8),
            r.r9@ == spec_hex32(regs.r9),
            r.r10@ == spec_hex32(regs.r10),
            r.r11@ == spec_hex32(regs.r11),
            r.r12@ == spec_hex32(regs.r12),
            r.sp@ == spec_hex32(regs.sp),
            r.lr@ == spec_hex32(regs.lr),
            r.pc@ == spec_hex32(regs.pc),
            r.cpsr@ == spec_hex32(regs.cpsr),
    {
        RegisterMetadata {
            r0: format_hex32(regs.r0),
            r1: format_hex32(regs.r1),
            r2: format_hex32(regs.r2),
            r3: format_hex32(regs.r3),
            r4: format_hex32(regs.r4),
            r5: format_hex32(regs.r5),
            r6: format_hex32(regs.r6),
            r7: format_hex32(regs.r7),
            r8: format_hex32(regs.r8),
            r9: format_hex32(regs.r9),
            r10: format_hex32(regs.r10),
            r11: format_hex32(regs.r11),
            r12: format_hex32(regs.r12),
            sp: format_hex32(regs.sp),
            lr: format_hex32(regs.lr),
            pc: format_hex32(regs.pc),
            cpsr: format_hex32(regs.cpsr),
        }
    }
}

} // verus!
