//! The exception-vector trap.
//!
//! The target's exception vector is a table of branch slots at a fixed base:
//! slot `k` belongs to exception kind `k` and sits at `base + 4 * k`. The
//! trap installs an instruction hook on every slot except the reset vector
//! (never expected) and the supervisor-call vector (used deliberately by the
//! firmware), records which exception fired together with the registers, and
//! halts the run.

use vstd::prelude::*;

verus! {

use crate::regs::RegisterSnapshot;

/// The guest CPU exception kinds, in vector-table order.
#[derive(Clone, Copy, Debug, PartialEq, Eq, Structural)]
pub enum ExceptionType {
    RESET,
    UNDEF,
    SVC,
    PREAB,
    DATAB,
    HYP,
    IRQ,
    FIQ,
    UNKNOWN,
}

/// The position of an exception kind in the vector table.
pub open spec fn spec_exception_ordinal(e: ExceptionType) -> u32 {
    match e {
        ExceptionType::RESET => 0,
        ExceptionType::UNDEF => 1,
        ExceptionType::SVC => 2,
        ExceptionType::PREAB => 3,
        ExceptionType::DATAB => 4,
        ExceptionType::HYP => 5,
        ExceptionType::IRQ => 6,
        ExceptionType::FIQ => 7,
        ExceptionType::UNKNOWN => 8,
    }
}

impl ExceptionType {
    /// The position of this kind in the vector table.
    pub fn ordinal(&self) -> (r: u32)
        ensures
            r == spec_exception_ordinal(*self),
    {
        match self {
            ExceptionType::RESET => 0,
            ExceptionType::UNDEF => 1,
            ExceptionType::SVC => 2,
            ExceptionType::PREAB => 3,
            ExceptionType::DATAB => 4,
            ExceptionType::HYP => 5,
            ExceptionType::IRQ => 6,
            ExceptionType::FIQ => 7,
            ExceptionType::UNKNOWN => 8,
        }
    }

    /// The kind at position `d` of the vector table, if any.
    pub fn from_repr(d: u32) -> (r: Option<ExceptionType>)
        ensures
            r matches Some(e) ==> spec_exception_ordinal(e) == d,
            r is None <==> d > 8,
    {
        match d {
            0 => Some(ExceptionType::RESET),
            1 => Some(ExceptionType::UNDEF),
            2 => Some(ExceptionType::SVC),
            3 => Some(ExceptionType::PREAB),
            4 => Some(ExceptionType::DATAB),
            5 => Some(ExceptionType::HYP),
            6 => Some(ExceptionType::IRQ),
            7 => Some(ExceptionType::FIQ),
            8 => Some(ExceptionType::UNKNOWN),
            _ => None,
        }
    }

    /// All kinds, in vector-table order.
    pub fn all() -> (r: Vec<ExceptionType>)
        ensures
            r@.len() == 9,
            forall|i: int| 0 <= i < 9 ==> spec_exception_ordinal(#[trigger] r@[i]) == i,
    {
        let mut v: Vec<ExceptionType> = Vec::new();
        v.push(ExceptionType::RESET);
        v.push(ExceptionType::UNDEF);
        v.push(ExceptionType::SVC);
        v.push(ExceptionType::PREAB);
        v.push(ExceptionType::DATAB);
        v.push(ExceptionType::HYP);
        v.push(ExceptionType::IRQ);
        v.push(ExceptionType::FIQ);
        v.push(ExceptionType::UNKNOWN);
        v
    }

    /// Whether the trap hooks this kind's vector slot: everything but the
    /// reset vector and the supervisor call.
    pub fn is_trapped(&self) -> (r: bool)
        ensures
            r == spec_is_trapped(*self),
    {
        match self {
            ExceptionType::RESET => false,
            ExceptionType::SVC => false,
            ExceptionType::UNKNOWN => false,
            _ => true,
        }
    }
}

/// Whether the trap hooks this kind's vector slot. `UNKNOWN` is no real
/// slot: it only marks the end of the table.
pub open spec fn spec_is_trapped(e: ExceptionType) -> bool {
    !(e is RESET || e is SVC || e is UNKNOWN)
}

/// The address of kind `e`'s vector slot under base `base`.
pub open spec fn spec_vector_address(base: u32, e: ExceptionType) -> int {
    base + 4 * spec_exception_ordinal(e)
}

/// First address past the vector table: the table covers
/// `[base, base + 4 * 8)`, one slot per real kind.
pub open spec fn spec_vector_end(base: u32) -> int {
    base + 4 * spec_exception_ordinal(ExceptionType::UNKNOWN)
}

/// Whether `pc` lies inside the vector table at `base`: such a halt is the
/// trap's own deliberate stop, not a wild jump.
pub open spec fn spec_in_vector_range(base: u32, pc: u32) -> bool {
    base <= pc < spec_vector_end(base)
}

/// What the trap records when an exception fires: the kind and the register
/// file at that instant. Produced at most once per iteration and cleared
/// before the next.
#[derive(Clone, Copy, Debug, PartialEq, Eq, Structural)]
pub struct ExceptionRecord {
    pub triggered_exception: ExceptionType,
    pub registers: RegisterSnapshot,
}

/// The planned exception hooks: which vector slots to watch, given the
/// table's base address.
pub struct ExceptionModule {
    /// Addresses the instruction hooks sit at, with each one's kind.
    pub hooks: Vec<(u32, ExceptionType)>,
}

impl ExceptionModule {
    /// A trap with no hooks planned yet.
    pub fn new() -> (r: Self)
        ensures
            r.hooks@ == Seq::<(u32, ExceptionType)>::empty(),
    {
        ExceptionModule { hooks: Vec::new() }
    }

    /// Re-plan the hooks for a vector table at `base`: one hook per trapped
    /// kind, at that kind's slot, replacing whatever was planned before.
    pub fn update_exception_vector_base(&mut self, base: u32)
        requires
            spec_vector_end(base) <= u32::MAX,
        ensures
            final(self).hooks@ == spec_exception_hooks(base),
            forall|i: int|
                0 <= i < final(self).hooks@.len() ==> {
                    &&& spec_is_trapped((#[trigger] final(self).hooks@[i]).1)
                    &&& final(self).hooks@[i].0 == spec_vector_address(
                        base,
                        final(self).hooks@[i].1,
                    )
                },
            forall|e: ExceptionType|
                spec_is_trapped(e) ==> exists|i: int|
                    0 <= i < final(self).hooks@.len() && (#[trigger] final(self).hooks@[i]).1 == e,
    {
        let mut v: Vec<(u32, ExceptionType)> = Vec::new();
        v.push((base + 4, ExceptionType::UNDEF));
        v.push((base + 12, ExceptionType::PREAB));
        v.push((base + 16, ExceptionType::DATAB));
        v.push((base + 20, ExceptionType::HYP));
        v.push((base + 24, ExceptionType::IRQ));
        v.push((base + 28, ExceptionType::FIQ));
        self.hooks = v;
        proof {
            assert(self.hooks@ =~= spec_exception_hooks(base));
            assert forall|e: ExceptionType| spec_is_trapped(e) implies exists|i: int|
                0 <= i < self.hooks@.len() && (#[trigger] self.hooks@[i]).1 == e by {
                match e {
                    ExceptionType::UNDEF => assert(self.hooks@[0].1 == e),
                    ExceptionType::PREAB => assert(self.hooks@[1].1 == e),
                    ExceptionType::DATAB => assert(self.hooks@[2].1 == e),
                    ExceptionType::HYP => assert(self.hooks@[3].1 == e),
                    ExceptionType::IRQ => assert(self.hooks@[4].1 == e),
                    ExceptionType::FIQ => assert(self.hooks@[5].1 == e),
                    _ => assert(false),
                }
            }
        }
    }
}

/// The planned hooks for a vector table at `base`: the six trapped kinds,
/// each at its slot.
pub open spec fn spec_exception_hooks(base: u32) -> Seq<(u32, ExceptionType)> {
    seq![
        ((base + 4) as u32, ExceptionType::UNDEF),
        ((base + 12) as u32, ExceptionType::PREAB),
        ((base + 16) as u32, ExceptionType::DATAB),
        ((base + 20) as u32, ExceptionType::HYP),
        ((base + 24) as u32, ExceptionType::IRQ),
        ((base + 28) as u32, ExceptionType::FIQ),
    ]
}

/// Decides which runs the exception trap makes interesting.
#[derive(Clone, Copy, Debug, Default, PartialEq, Eq, Structural)]
pub struct ExceptionFeedback {}

impl ExceptionFeedback {
    pub fn new() -> (r: Self)
        ensures
            r == (ExceptionFeedback {  }),
    {
        ExceptionFeedback {  }
    }

    /// An exception record, on its own, makes a run interesting: the trap
    /// fires only on anomalies.
    pub fn is_interesting(&self, record: &Option<ExceptionRecord>) -> (r: bool)
        ensures
            r == (record is Some),
    {
        record.is_some()
    }
}

} // verus!
