//! The per-iteration harness state machine and the outcome classifier.
//!
//! Between two runs the harness decides which snapshot to restore (cheap by
//! default, heavier after a crash or periodically) and clears the exception
//! record and guard marker. After a run it classifies the halt: stopping at
//! a configured sink is a normal completion, stopping inside the
//! exception-vector table is the trap's own doing, and stopping anywhere
//! else is a crash.
//!
//! The emulator itself stays outside the library: the driver loop calls
//! [`HarnessState::begin_iteration`], runs the target, and hands the halt to
//! [`HarnessState::finish_iteration`]. For reasoning and tests,
//! [`HarnessState::run_synthetic`] plays a whole iteration against a list of
//! run events instead of a live target.

use vstd::prelude::*;

verus! {

use crate::exception::{
    spec_exception_ordinal, spec_in_vector_range, spec_is_trapped, spec_vector_end, ExceptionRecord,
    ExceptionType,
};
use crate::guard::{
    check_memcopy, check_no_exec, check_write, spec_in_no_exec, spec_memcopy_triggers,
    spec_write_triggers, CrashConfig, GuardKind,
};
use crate::regs::RegisterSnapshot;
use crate::snapshot::{ResetLevel, SnapshotConfig};

/// Which snapshot an iteration starts from. `Baseline` is the one captured
/// state; the other three say on which occasion it is being restored.
#[derive(Clone, Copy, Debug, PartialEq, Eq, Structural)]
pub enum SnapshotLevel {
    Baseline,
    Default,
    OnCrash,
    Periodic,
}

/// How the emulator came back from a run.
#[derive(Clone, Copy, Debug, PartialEq, Eq, Structural)]
pub enum GuestExit {
    /// A clean halt at a breakpoint (sinks, guard hits and the exception
    /// trap all stop the machine this way).
    Breakpoint(u32),
    /// The watchdog forced the run to stop.
    Timeout,
    /// The emulator aborted abnormally.
    AbnormalExit,
    /// The host asked the process to shut down; the driver exits instead of
    /// classifying.
    HostSignal,
}

/// The classification of one iteration.
#[derive(Clone, Copy, Debug, PartialEq, Eq, Structural)]
pub enum Verdict {
    /// The run ended at an expected control point.
    Normal,
    Crash,
    Timeout,
}

/// Everything one iteration reports back to the fuzzing engine.
#[derive(Clone, Copy, Debug, PartialEq, Eq, Structural)]
pub struct IterationOutcome {
    pub verdict: Verdict,
    pub halting_pc: u32,
    pub exception: Option<ExceptionRecord>,
    pub guard_hit: Option<GuardKind>,
}

/// The harness's own mutable state: the snapshot rotation counters and the
/// per-iteration side channels the guards and the exception trap write.
#[derive(Clone, Debug)]
pub struct HarnessState {
    pub snapshot: SnapshotConfig,
    /// Addresses where a halt counts as normal completion.
    pub sinks: Vec<u32>,
    /// Base of the exception vector table.
    pub vector_base: u32,
    /// Iterations since the last heavy restore.
    pub counter_snapshot: usize,
    /// Whether the previous iteration crashed.
    pub crash_snapshot: bool,
    /// The exception the trap recorded in the current iteration, if any.
    pub exception: Option<ExceptionRecord>,
    /// The guard that halted the current iteration, if any.
    pub guard_hit: Option<GuardKind>,
}

/// Which snapshot the next iteration restores, in priority order: the
/// on-crash restore after a crash, the periodic restore when the counter has
/// reached the period, the cheap default restore otherwise.
pub open spec fn spec_choose_level(s: HarnessState) -> SnapshotLevel {
    if s.crash_snapshot {
        SnapshotLevel::OnCrash
    } else if s.counter_snapshot >= s.snapshot.period {
        SnapshotLevel::Periodic
    } else {
        SnapshotLevel::Default
    }
}

/// The state after the start-of-iteration step: the counter reset (or
/// advanced on the default path), the crash flag consumed, and both
/// per-iteration side channels cleared.
pub open spec fn spec_begin(s: HarnessState) -> HarnessState {
    HarnessState {
        counter_snapshot: if s.crash_snapshot || s.counter_snapshot >= s.snapshot.period {
            0
        } else {
            (s.counter_snapshot + 1) as usize
        },
        crash_snapshot: false,
        exception: None,
        guard_hit: None,
        ..s
    }
}

/// The verdict for a halt: a timeout is a timeout, an abnormal exit is a
/// crash, and a breakpoint halt is normal exactly when it stopped at a sink
/// or inside the exception-vector table (the trap's own stop).
pub open spec fn spec_classify(s: HarnessState, exit: GuestExit, pc: u32) -> Verdict {
    match exit {
        GuestExit::Timeout => Verdict::Timeout,
        GuestExit::AbnormalExit => Verdict::Crash,
        _ => if s.sinks@.contains(pc) {
            Verdict::Normal
        } else if spec_in_vector_range(s.vector_base, pc) {
            Verdict::Normal
        } else {
            Verdict::Crash
        },
    }
}

/// What one iteration reports: the verdict plus the side channels as the run
/// left them.
pub open spec fn spec_outcome(s: HarnessState, exit: GuestExit, pc: u32) -> IterationOutcome {
    IterationOutcome {
        verdict: spec_classify(s, exit, pc),
        halting_pc: pc,
        exception: s.exception,
        guard_hit: s.guard_hit,
    }
}

/// The state after classification: only the crash flag changes, arming the
/// on-crash restore for the next iteration.
pub open spec fn spec_finish(s: HarnessState, exit: GuestExit, pc: u32) -> HarnessState {
    HarnessState { crash_snapshot: spec_classify(s, exit, pc) is Crash, ..s }
}

impl HarnessState {
    /// A harness that has not run yet: counter at zero, no prior outcome, so
    /// the first iteration takes the default path.
    pub fn new(snapshot: SnapshotConfig, sinks: Vec<u32>, vector_base: u32) -> (r: Self)
        ensures
            r.snapshot == snapshot,
            r.sinks == sinks,
            r.vector_base == vector_base,
            r.counter_snapshot == 0,
            !r.crash_snapshot,
            r.exception is None,
            r.guard_hit is None,
    {
        HarnessState {
            snapshot,
            sinks,
            vector_base,
            counter_snapshot: 0,
            crash_snapshot: false,
            exception: None,
            guard_hit: None,
        }
    }

    /// The restore depth the configuration assigns to a chosen occasion.
    pub fn reset_level_for(&self, level: SnapshotLevel) -> (r: ResetLevel)
        requires
            !(level is Baseline),
        ensures
            level is Default ==> r == self.snapshot.default,
            level is OnCrash ==> r == self.snapshot.on_crash,
            level is Periodic ==> r == self.snapshot.periodically,
    {
        match level {
            SnapshotLevel::Default => self.snapshot.default,
            SnapshotLevel::OnCrash => self.snapshot.on_crash,
            SnapshotLevel::Periodic => self.snapshot.periodically,
            SnapshotLevel::Baseline => unreached(),
        }
    }

    /// Start an iteration: decide which snapshot to restore, consume the
    /// crash flag, advance or reset the periodic counter, and clear the
    /// per-iteration side channels so nothing from the previous run can leak
    /// into this one's classification.
    pub fn begin_iteration(&mut self) -> (level: SnapshotLevel)
        requires
            old(self).counter_snapshot < usize::MAX,
        ensures
            level == spec_choose_level(*old(self)),
            *final(self) == spec_begin(*old(self)),
    {
        self.exception = None;
        self.guard_hit = None;
        if self.crash_snapshot {
            self.crash_snapshot = false;
            self.counter_snapshot = 0;
            SnapshotLevel::OnCrash
        } else if self.counter_snapshot >= self.snapshot.period {
            self.counter_snapshot = 0;
            SnapshotLevel::Periodic
        } else {
            self.counter_snapshot = self.counter_snapshot + 1;
            SnapshotLevel::Default
        }
    }

    /// The exception trap's record hook: remember which exception fired and
    /// the registers at that instant.
    pub fn record_exception(&mut self, kind: ExceptionType, registers: RegisterSnapshot)
        ensures
            *final(self) == (HarnessState {
                exception: Some(ExceptionRecord { triggered_exception: kind, registers }),
                ..*old(self)
            }),
    {
        self.exception = Some(ExceptionRecord { triggered_exception: kind, registers });
    }

    /// The guard engine's record hook: remember which guard halted the run.
    pub fn record_guard_hit(&mut self, kind: GuardKind)
        ensures
            *final(self) == (HarnessState { guard_hit: Some(kind), ..*old(self) }),
    {
        self.guard_hit = Some(kind);
    }

    /// Classify a finished run and arm the snapshot rotation for the next
    /// one. A host shutdown signal is the driver's business, never
    /// classified.
    pub fn finish_iteration(&mut self, exit: GuestExit, pc: u32) -> (r: IterationOutcome)
        requires
            !(exit is HostSignal),
            spec_vector_end(old(self).vector_base) <= u32::MAX,
        ensures
            r == spec_outcome(*old(self), exit, pc),
            *final(self) == spec_finish(*old(self), exit, pc),
    {
        let verdict = match exit {
            GuestExit::Timeout => Verdict::Timeout,
            GuestExit::AbnormalExit => Verdict::Crash,
            GuestExit::Breakpoint(_) => self.classify_breakpoint(pc),
            GuestExit::HostSignal => unreached(),
        };
        self.crash_snapshot = match verdict {
            Verdict::Crash => true,
            _ => false,
        };
        IterationOutcome {
            verdict,
            halting_pc: pc,
            exception: self.exception,
            guard_hit: self.guard_hit,
        }
    }

    /// The breakpoint rule of the classifier: normal at a sink or inside the
    /// vector table, a crash anywhere else.
    fn classify_breakpoint(&self, pc: u32) -> (r: Verdict)
        requires
            spec_vector_end(self.vector_base) <= u32::MAX,
        ensures
            r == spec_classify(*self, GuestExit::Breakpoint(pc), pc),
    {
        if crate::guard::contains_u32(&self.sinks, pc) {
            Verdict::Normal
        } else {
            proof {
                assert(spec_vector_end(self.vector_base) == self.vector_base + 32);
            }
            if pc >= self.vector_base && pc < self.vector_base + 32 {
                Verdict::Normal
            } else {
                Verdict::Crash
            }
        }
    }
}

/// One observable step of a synthetic run, as the guard engine and the
/// exception trap would see it.
#[derive(Clone, Copy, Debug, PartialEq, Eq, Structural)]
pub enum RunEvent {
    /// Control flow enters a basic block at `addr`.
    BlockEnter { addr: u32 },
    /// The instruction at `pc` writes to `addr`.
    Write { pc: u32, addr: u32 },
    /// The bulk-copy routine copies `len` bytes to `dest`, called from
    /// return address `lr`.
    Memcopy { dest: u32, len: u32, lr: u32 },
    /// A CPU exception of `kind` fires with the registers in `regs`.
    ExceptionFired { kind: ExceptionType, regs: RegisterSnapshot },
}

/// The machine limit an event must respect.
pub open spec fn spec_event_wf(e: RunEvent) -> bool {
    match e {
        RunEvent::Memcopy { dest, len, .. } => dest + len <= u32::MAX,
        _ => true,
    }
}

/// Where and why a synthetic run halted.
#[derive(Clone, Copy, Debug, PartialEq, Eq, Structural)]
pub struct SynthHalt {
    pub pc: u32,
    pub guard: Option<GuardKind>,
    pub exception: Option<ExceptionRecord>,
}

/// Whether one event halts the run, and how: a block entry in a no-exec
/// range, a guarded write, a guarded bulk copy, or a trapped exception.
pub open spec fn spec_event_halt(c: CrashConfig, vbase: u32, e: RunEvent) -> Option<SynthHalt> {
    match e {
        RunEvent::BlockEnter { addr } => if spec_in_no_exec(c.mmap.no_exec@, addr) {
            Some(SynthHalt { pc: addr, guard: Some(GuardKind::NoExec), exception: None })
        } else {
            None
        },
        RunEvent::Write { pc, addr } => if spec_write_triggers(c.mmap.forbidden_writes@, pc, addr) {
            Some(SynthHalt { pc, guard: Some(GuardKind::NoWrite), exception: None })
        } else {
            None
        },
        RunEvent::Memcopy { dest, len, lr } => if spec_memcopy_triggers(
            c.mmap.forbidden_memcopies@,
            dest,
            len,
            lr,
        ) {
            Some(
                SynthHalt {
                    pc: c.mmap.ccp_memcopy_addr,
                    guard: Some(GuardKind::NoMemcopyDest),
                    exception: None,
                },
            )
        } else {
            None
        },
        RunEvent::ExceptionFired { kind, regs } => if spec_is_trapped(kind) {
            Some(
                SynthHalt {
                    pc: (vbase + 4 * spec_exception_ordinal(kind)) as u32,
                    guard: None,
                    exception: Some(ExceptionRecord { triggered_exception: kind, registers: regs }),
                },
            )
        } else {
            None
        },
    }
}

/// The first halting event at or after index `i`, if any.
pub open spec fn spec_first_halt_from(
    c: CrashConfig,
    vbase: u32,
    events: Seq<RunEvent>,
    i: int,
) -> Option<SynthHalt>
    decreases events.len() - i,
{
    if i < 0 || i >= events.len() {
        None
    } else if spec_event_halt(c, vbase, events[i]) is Some {
        spec_event_halt(c, vbase, events[i])
    } else {
        spec_first_halt_from(c, vbase, events, i + 1)
    }
}

/// Where a synthetic run halts: at the first halting event, or, when no
/// guard or exception intervenes, at `end_pc` (the breakpoint the run would
/// otherwise reach).
pub open spec fn spec_halt_of(
    c: CrashConfig,
    vbase: u32,
    events: Seq<RunEvent>,
    end_pc: u32,
) -> SynthHalt {
    match spec_first_halt_from(c, vbase, events, 0) {
        Some(h) => h,
        None => SynthHalt { pc: end_pc, guard: None, exception: None },
    }
}

/// The state mid-iteration, after the run halted: the side channels hold
/// what the halt recorded.
pub open spec fn spec_run_mid(
    s: HarnessState,
    c: CrashConfig,
    events: Seq<RunEvent>,
    end_pc: u32,
) -> HarnessState {
    let h = spec_halt_of(c, s.vector_base, events, end_pc);
    HarnessState { exception: h.exception, guard_hit: h.guard, ..spec_begin(s) }
}

/// What a whole synthetic iteration reports.
pub open spec fn spec_run_outcome(
    s: HarnessState,
    c: CrashConfig,
    events: Seq<RunEvent>,
    end_pc: u32,
) -> IterationOutcome {
    let h = spec_halt_of(c, s.vector_base, events, end_pc);
    spec_outcome(spec_run_mid(s, c, events, end_pc), GuestExit::Breakpoint(h.pc), h.pc)
}

/// The harness state a whole synthetic iteration leaves behind.
pub open spec fn spec_run_post(
    s: HarnessState,
    c: CrashConfig,
    events: Seq<RunEvent>,
    end_pc: u32,
) -> HarnessState {
    let h = spec_halt_of(c, s.vector_base, events, end_pc);
    spec_finish(spec_run_mid(s, c, events, end_pc), GuestExit::Breakpoint(h.pc), h.pc)
}

impl HarnessState {
    /// Play one whole iteration against a list of run events instead of a
    /// live target: begin (rotation and clearing), process events until the
    /// first guard hit or trapped exception halts the run (or `end_pc` is
    /// reached), then classify.
    pub fn run_synthetic(
        &mut self,
        crashes: &CrashConfig,
        events: &Vec<RunEvent>,
        end_pc: u32,
    ) -> (r: IterationOutcome)
        requires
            old(self).counter_snapshot < usize::MAX,
            spec_vector_end(old(self).vector_base) <= u32::MAX,
            forall|i: int| 0 <= i < events@.len() ==> spec_event_wf(#[trigger] events@[i]),
        ensures
            r == spec_run_outcome(*old(self), *crashes, events@, end_pc),
            *final(self) == spec_run_post(*old(self), *crashes, events@, end_pc),
    {
        let ghost s0 = *old(self);
        let vbase = self.vector_base;
        let _level = self.begin_iteration();
        let mut halt_pc = end_pc;
        let mut done = false;
        let mut i: usize = 0;
        while i < events.len() && !done
            invariant
                i <= events@.len(),
                vbase == s0.vector_base,
                forall|k: int| 0 <= k < events@.len() ==> spec_event_wf(#[trigger] events@[k]),
                spec_vector_end(vbase) <= u32::MAX,
                !done ==> {
                    &&& *self == spec_begin(s0)
                    &&& halt_pc == end_pc
                    &&& spec_first_halt_from(*crashes, vbase, events@, 0)
                        == spec_first_halt_from(*crashes, vbase, events@, i as int)
                },
                done ==> (spec_first_halt_from(*crashes, vbase, events@, 0) matches Some(h) && {
                    &&& halt_pc == h.pc
                    &&& *self == (HarnessState {
                        exception: h.exception,
                        guard_hit: h.guard,
                        ..spec_begin(s0)
                    })
                }),
            decreases events@.len() - i, (if done { 0int } else { 1int }),
        {
            let ghost pre = *self;
            match events[i] {
                RunEvent::BlockEnter { addr } => {
                    if check_no_exec(&crashes.mmap.no_exec, addr) {
                        self.record_guard_hit(GuardKind::NoExec);
                        halt_pc = addr;
                        done = true;
                    }
                },
                RunEvent::Write { pc, addr } => {
                    if check_write(&crashes.mmap.forbidden_writes, pc, addr) {
                        self.record_guard_hit(GuardKind::NoWrite);
                        halt_pc = pc;
                        done = true;
                    }
                },
                RunEvent::Memcopy { dest, len, lr } => {
                    if check_memcopy(&crashes.mmap.forbidden_memcopies, dest, len, lr) {
                        self.record_guard_hit(GuardKind::NoMemcopyDest);
                        halt_pc = crashes.mmap.ccp_memcopy_addr;
                        done = true;
                    }
                },
                RunEvent::ExceptionFired { kind, regs } => {
                    if kind.is_trapped() {
                        self.record_exception(kind, regs);
                        halt_pc = vbase + 4 * kind.ordinal();
                        done = true;
                    }
                },
            }
            if !done {
                i = i + 1;
            }
        }
        proof {
            if !done {
                assert(spec_first_halt_from(*crashes, vbase, events@, i as int) is None);
            }
            assert(*self == spec_run_mid(s0, *crashes, events@, end_pc));
            assert(halt_pc == spec_halt_of(*crashes, s0.vector_base, events@, end_pc).pc);
        }
        self.finish_iteration(GuestExit::Breakpoint(halt_pc), halt_pc)
    }
}

// The laws of the iteration lifecycle.

/// Snapshot rotation: after a crash verdict, the next iteration restores the
/// on-crash snapshot and the periodic counter resets to zero, whatever its
/// prior value.
pub proof fn lemma_crash_rotation(s: HarnessState, exit: GuestExit, pc: u32)
    requires
        !(exit is HostSignal),
        spec_classify(s, exit, pc) is Crash,
    ensures
        spec_choose_level(spec_finish(s, exit, pc)) is OnCrash,
        spec_begin(spec_finish(s, exit, pc)).counter_snapshot == 0,
{
}

/// Helper: if no event is a trapped exception, no halt carries an exception
/// record.
proof fn lemma_no_exception_in_halts(c: CrashConfig, vbase: u32, events: Seq<RunEvent>, i: int)
    requires
        forall|k: int|
            0 <= k < events.len() ==> ((#[trigger] events[k]) matches RunEvent::ExceptionFired {
                kind,
                ..
            } ==> !spec_is_trapped(kind)),
    ensures
        spec_first_halt_from(c, vbase, events, i) matches Some(h) ==> h.exception is None,
    decreases events.len() - i,
{
    if 0 <= i < events.len() {
        lemma_no_exception_in_halts(c, vbase, events, i + 1);
    }
}

/// Exception record isolation: even if the previous iteration recorded an
/// exception, an iteration none of whose events fires a trapped exception
/// reports no exception record — the record is cleared before the run and
/// can only be re-created by this run's own events.
pub proof fn lemma_exception_isolated(
    s: HarnessState,
    c: CrashConfig,
    events: Seq<RunEvent>,
    end_pc: u32,
)
    requires
        s.exception is Some,
        forall|k: int|
            0 <= k < events.len() ==> ((#[trigger] events[k]) matches RunEvent::ExceptionFired {
                kind,
                ..
            } ==> !spec_is_trapped(kind)),
    ensures
        spec_run_outcome(s, c, events, end_pc).exception is None,
{
    lemma_no_exception_in_halts(c, s.vector_base, events, 0);
}

/// Helper: with no halting event before index `k`, the first halt at or
/// after 0 is the first halt at or after `k`.
proof fn lemma_first_halt_skip(c: CrashConfig, vbase: u32, events: Seq<RunEvent>, j: int, k: int)
    requires
        0 <= j <= k <= events.len(),
        forall|t: int| j <= t < k ==> spec_event_halt(c, vbase, #[trigger] events[t]) is None,
    ensures
        spec_first_halt_from(c, vbase, events, j) == spec_first_halt_from(c, vbase, events, k),
    decreases k - j,
{
    if j < k {
        lemma_first_halt_skip(c, vbase, events, j + 1, k);
    }
}

/// Illegal execution: a synthetic run whose control flow enters a no-exec
/// range — no earlier event having halted it — halts right there and
/// classifies as a crash with the no-exec guard marked, provided the entry
/// address is neither a configured sink nor inside the vector table.
pub proof fn lemma_no_exec_entry_crashes(
    s: HarnessState,
    c: CrashConfig,
    events: Seq<RunEvent>,
    end_pc: u32,
    k: int,
    addr: u32,
)
    requires
        0 <= k < events.len(),
        events[k] == (RunEvent::BlockEnter { addr }),
        spec_in_no_exec(c.mmap.no_exec@, addr),
        forall|j: int| 0 <= j < k ==> spec_event_halt(c, s.vector_base, #[trigger] events[j]) is None,
        !s.sinks@.contains(addr),
        !spec_in_vector_range(s.vector_base, addr),
    ensures
        spec_run_outcome(s, c, events, end_pc).verdict is Crash,
        spec_run_outcome(s, c, events, end_pc).guard_hit == Some(GuardKind::NoExec),
        spec_run_outcome(s, c, events, end_pc).halting_pc == addr,
{
    lemma_first_halt_skip(c, s.vector_base, events, 0, k);
}

/// A write from a hole is exempt: when every no-write region covering the
/// written address lists the writing site among its holes, the write event
/// does not halt the run.
pub proof fn lemma_hole_write_exempt(c: CrashConfig, vbase: u32, pc: u32, addr: u32)
    requires
        forall|i: int|
            0 <= i < c.mmap.forbidden_writes@.len()
                && ((#[trigger] c.mmap.forbidden_writes@[i]).begin <= addr
                < c.mmap.forbidden_writes@[i].end) ==> c.mmap.forbidden_writes@[i].no_hook@.contains(
                pc,
            ),
    ensures
        spec_event_halt(c, vbase, RunEvent::Write { pc, addr }) is None,
{
}

/// A write from any other site must crash: a synthetic run in which an
/// instruction outside a region's holes writes into that region — no earlier
/// event having halted it — halts at the writing instruction and classifies
/// as a crash with the no-write guard marked, provided the site is neither a
/// sink nor inside the vector table.
pub proof fn lemma_illegal_write_crashes(
    s: HarnessState,
    c: CrashConfig,
    events: Seq<RunEvent>,
    end_pc: u32,
    k: int,
    pc: u32,
    addr: u32,
)
    requires
        0 <= k < events.len(),
        events[k] == (RunEvent::Write { pc, addr }),
        spec_write_triggers(c.mmap.forbidden_writes@, pc, addr),
        forall|j: int| 0 <= j < k ==> spec_event_halt(c, s.vector_base, #[trigger] events[j]) is None,
        !s.sinks@.contains(pc),
        !spec_in_vector_range(s.vector_base, pc),
    ensures
        spec_run_outcome(s, c, events, end_pc).verdict is Crash,
        spec_run_outcome(s, c, events, end_pc).guard_hit == Some(GuardKind::NoWrite),
        spec_run_outcome(s, c, events, end_pc).halting_pc == pc,
{
    lemma_first_halt_skip(c, s.vector_base, events, 0, k);
}

} // verus!
