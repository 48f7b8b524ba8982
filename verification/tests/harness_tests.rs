use libasp::exception::ExceptionType;
use libasp::guard::{
    CrashConfig, CrashModule, ForbiddenWritesConfig, GuardKind, MmapConfig, NoExecConfig,
};
use libasp::harness::{GuestExit, HarnessState, RunEvent, SnapshotLevel, Verdict};
use libasp::regs::RegisterSnapshot;
use libasp::snapshot::{ResetLevel, SnapshotConfig};

fn snapshot_config(period: usize) -> SnapshotConfig {
    SnapshotConfig {
        default: ResetLevel::CpuState,
        on_crash: ResetLevel::QemuSnapshot,
        periodically: ResetLevel::RustSnapshot,
        period,
    }
}

fn crash_config() -> CrashConfig {
    CrashConfig {
        breakpoints: Vec::new(),
        mmap: MmapConfig {
            no_exec: vec![NoExecConfig { begin: 0x8000, end: 0x9000 }],
            ccp_memcopy_addr: 0x500,
            forbidden_memcopies: vec![ForbiddenWritesConfig {
                begin: 0x7000,
                end: 0x7100,
                no_hook: vec![0x4444],
            }],
            forbidden_writes: vec![ForbiddenWritesConfig {
                begin: 0x3000,
                end: 0x3100,
                no_hook: vec![0x1234],
            }],
        },
        x86: None,
    }
}

fn harness(period: usize) -> HarnessState {
    HarnessState::new(snapshot_config(period), vec![0x1000], 0x100)
}

#[test]
fn first_iteration_takes_default_path() {
    let mut h = harness(100);
    assert_eq!(h.begin_iteration(), SnapshotLevel::Default);
    assert_eq!(h.counter_snapshot, 1);
}

#[test]
fn crash_restores_on_crash_and_resets_counter() {
    // Whatever the counter held, a crash forces the on-crash restore and a
    // counter of zero.
    let mut h = harness(100);
    h.counter_snapshot = 57;
    let outcome = h.finish_iteration(GuestExit::Breakpoint(0x2000), 0x2000);
    assert_eq!(outcome.verdict, Verdict::Crash);
    assert_eq!(h.begin_iteration(), SnapshotLevel::OnCrash);
    assert_eq!(h.counter_snapshot, 0);
}

#[test]
fn periodic_restore_after_period() {
    let mut h = harness(2);
    assert_eq!(h.begin_iteration(), SnapshotLevel::Default);
    assert_eq!(h.begin_iteration(), SnapshotLevel::Default);
    assert_eq!(h.begin_iteration(), SnapshotLevel::Periodic);
    assert_eq!(h.counter_snapshot, 0);
    assert_eq!(h.begin_iteration(), SnapshotLevel::Default);
}

#[test]
fn reset_level_follows_config() {
    let h = harness(10);
    assert_eq!(h.reset_level_for(SnapshotLevel::Default), ResetLevel::CpuState);
    assert_eq!(h.reset_level_for(SnapshotLevel::OnCrash), ResetLevel::QemuSnapshot);
    assert_eq!(h.reset_level_for(SnapshotLevel::Periodic), ResetLevel::RustSnapshot);
}

#[test]
fn timeout_classified_as_timeout() {
    let mut h = harness(10);
    let outcome = h.finish_iteration(GuestExit::Timeout, 0x9999);
    assert_eq!(outcome.verdict, Verdict::Timeout);
    // A timeout does not arm the on-crash restore.
    assert_eq!(h.begin_iteration(), SnapshotLevel::Default);
}

#[test]
fn abnormal_exit_classified_as_crash() {
    let mut h = harness(10);
    let outcome = h.finish_iteration(GuestExit::AbnormalExit, 0x9999);
    assert_eq!(outcome.verdict, Verdict::Crash);
}

#[test]
fn vector_table_halt_is_not_a_crash() {
    let mut h = harness(10);
    // 0x100 + 4 * 4 is the data-abort slot; the trap halted there itself.
    let outcome = h.finish_iteration(GuestExit::Breakpoint(0x110), 0x110);
    assert_eq!(outcome.verdict, Verdict::Normal);
}

#[test]
fn scenario_sink_normal_stray_crash_write_crash() {
    // Sink set {0x1000}: a halt at 0x1000 is a normal completion.
    let c = crash_config();
    let mut h = harness(100);
    let outcome = h.run_synthetic(&c, &Vec::new(), 0x1000);
    assert_eq!(outcome.verdict, Verdict::Normal);
    assert_eq!(outcome.halting_pc, 0x1000);
    assert_eq!(outcome.guard_hit, None);

    // A halt at 0x2000 — no sink, no vector slot, no guard — is a crash.
    let outcome = h.run_synthetic(&c, &Vec::new(), 0x2000);
    assert_eq!(outcome.verdict, Verdict::Crash);
    assert_eq!(outcome.halting_pc, 0x2000);
    assert_eq!(outcome.guard_hit, None);

    // A write into the no-write region at 0x3000 with no matching hole is a
    // crash with the no-write guard marked.
    let events = vec![RunEvent::Write { pc: 0x9990, addr: 0x3000 }];
    let outcome = h.run_synthetic(&c, &events, 0x1000);
    assert_eq!(outcome.verdict, Verdict::Crash);
    assert_eq!(outcome.guard_hit, Some(GuardKind::NoWrite));
}

#[test]
fn no_exec_entry_crashes_with_guard_marked() {
    let c = crash_config();
    let mut h = harness(100);
    let events = vec![
        RunEvent::BlockEnter { addr: 0x4000 },
        RunEvent::BlockEnter { addr: 0x8800 },
    ];
    let outcome = h.run_synthetic(&c, &events, 0x1000);
    assert_eq!(outcome.verdict, Verdict::Crash);
    assert_eq!(outcome.guard_hit, Some(GuardKind::NoExec));
    assert_eq!(outcome.halting_pc, 0x8800);
}

#[test]
fn write_from_hole_does_not_crash() {
    // 0x1234 is the region's hole: its write to the guarded range must not
    // trigger; the run falls through to the sink.
    let c = crash_config();
    let mut h = harness(100);
    let events = vec![RunEvent::Write { pc: 0x1234, addr: 0x3050 }];
    let outcome = h.run_synthetic(&c, &events, 0x1000);
    assert_eq!(outcome.verdict, Verdict::Normal);
    assert_eq!(outcome.guard_hit, None);
}

#[test]
fn write_from_other_site_crashes() {
    let c = crash_config();
    let mut h = harness(100);
    let events = vec![RunEvent::Write { pc: 0x4321, addr: 0x3050 }];
    let outcome = h.run_synthetic(&c, &events, 0x1000);
    assert_eq!(outcome.verdict, Verdict::Crash);
    assert_eq!(outcome.guard_hit, Some(GuardKind::NoWrite));
    assert_eq!(outcome.halting_pc, 0x4321);
}

#[test]
fn memcopy_into_guarded_range_crashes_unless_caller_exempt() {
    let c = crash_config();
    let mut h = harness(100);
    // Exempt caller 0x4444: no crash.
    let events = vec![RunEvent::Memcopy { dest: 0x6ff0, len: 0x40, lr: 0x4444 }];
    let outcome = h.run_synthetic(&c, &events, 0x1000);
    assert_eq!(outcome.verdict, Verdict::Normal);
    // Any other caller: crash at the copy routine's entry.
    let events = vec![RunEvent::Memcopy { dest: 0x6ff0, len: 0x40, lr: 0x5555 }];
    let outcome = h.run_synthetic(&c, &events, 0x1000);
    assert_eq!(outcome.verdict, Verdict::Crash);
    assert_eq!(outcome.guard_hit, Some(GuardKind::NoMemcopyDest));
    assert_eq!(outcome.halting_pc, 0x500);
}

#[test]
fn memcopy_strictly_inside_region_crashes() {
    // Region [0x7000, 0x7100); the copy [0x7010, 0x7014) lies strictly
    // inside it — neither region bound falls in the copied interval, yet
    // the intervals overlap, so the copy must halt.
    let c = crash_config();
    let mut h = harness(100);
    let events = vec![RunEvent::Memcopy { dest: 0x7010, len: 4, lr: 0x5555 }];
    let outcome = h.run_synthetic(&c, &events, 0x1000);
    assert_eq!(outcome.verdict, Verdict::Crash);
    assert_eq!(outcome.guard_hit, Some(GuardKind::NoMemcopyDest));
}

#[test]
fn empty_memcopy_never_triggers() {
    let c = crash_config();
    let mut h = harness(100);
    let events = vec![RunEvent::Memcopy { dest: 0x7010, len: 0, lr: 0x5555 }];
    let outcome = h.run_synthetic(&c, &events, 0x1000);
    assert_eq!(outcome.verdict, Verdict::Normal);
    assert_eq!(outcome.guard_hit, None);
}

#[test]
fn block_id_zero_is_no_exec_before_memcopy_entry_seen() {
    // The first translated block gets id 0. Before the bulk-copy entry has
    // been translated, that id must still halt as a no-exec hit rather than
    // run the copy check against the unset token.
    let mut m = CrashModule::new(crash_config());
    match m.gen_block_hook(0x8800) {
        libasp::guard::BlockGen::IllegalExec { id } => assert_eq!(id, 0),
        other => panic!("expected an illegal-exec halt, got {:?}", other),
    }
    assert_eq!(m.exec_block_hook(0, 0x6ff0, 0x40, 0x4444), Some(GuardKind::NoExec));
}

#[test]
fn exception_halts_at_vector_slot_and_is_reported() {
    let c = crash_config();
    let mut h = harness(100);
    let events = vec![RunEvent::ExceptionFired {
        kind: ExceptionType::DATAB,
        regs: RegisterSnapshot::default(),
    }];
    let outcome = h.run_synthetic(&c, &events, 0x1000);
    // The trap's own halt inside the vector table is not a crash by itself.
    assert_eq!(outcome.verdict, Verdict::Normal);
    assert_eq!(outcome.halting_pc, 0x100 + 4 * 4);
    let record = outcome.exception.expect("exception must be recorded");
    assert_eq!(record.triggered_exception, ExceptionType::DATAB);
}

#[test]
fn supervisor_call_is_not_trapped() {
    let c = crash_config();
    let mut h = harness(100);
    let events = vec![RunEvent::ExceptionFired {
        kind: ExceptionType::SVC,
        regs: RegisterSnapshot::default(),
    }];
    let outcome = h.run_synthetic(&c, &events, 0x1000);
    assert_eq!(outcome.verdict, Verdict::Normal);
    assert_eq!(outcome.exception, None);
}

#[test]
fn exception_record_does_not_leak_into_next_iteration() {
    let c = crash_config();
    let mut h = harness(100);
    let events = vec![RunEvent::ExceptionFired {
        kind: ExceptionType::UNDEF,
        regs: RegisterSnapshot::default(),
    }];
    let first = h.run_synthetic(&c, &events, 0x1000);
    assert!(first.exception.is_some());
    // The next iteration triggers no exception; its view must hold none.
    let second = h.run_synthetic(&c, &Vec::new(), 0x1000);
    assert_eq!(second.exception, None);
}

#[test]
fn guard_hooks_count_and_detect() {
    let mut m = CrashModule::new(crash_config());
    // A block in the no-exec range halts at translation.
    match m.gen_block_hook(0x8800) {
        libasp::guard::BlockGen::IllegalExec { id } => assert_eq!(id, 0),
        other => panic!("expected an illegal-exec halt, got {:?}", other),
    }
    // The bulk-copy routine's entry is remembered.
    match m.gen_block_hook(0x500) {
        libasp::guard::BlockGen::MemcopyEntry { id } => {
            assert_eq!(id, 1);
            assert_eq!(m.r.ccp_memcopy_id, 1);
        }
        other => panic!("expected the memcopy entry, got {:?}", other),
    }
    // An ordinary block passes.
    assert!(matches!(m.gen_block_hook(0x4000), libasp::guard::BlockGen::Pass));

    // Execution of the remembered copy with a guarded destination and a
    // non-exempt caller halts.
    assert_eq!(m.exec_block_hook(1, 0x6ff0, 0x40, 0x9999), Some(GuardKind::NoMemcopyDest));
    assert_eq!(m.exec_block_hook(1, 0x6ff0, 0x40, 0x4444), None);
    // Any other remembered id is a no-exec block: halt.
    assert_eq!(m.exec_block_hook(0, 0, 0, 0), Some(GuardKind::NoExec));
}

#[test]
fn write_hooks_respect_holes() {
    let mut m = CrashModule::new(crash_config());
    assert!(m.needs_write_hooks());
    // The hole site is fully exempt (it is a hole of every region here), so
    // no hook is generated for it.
    assert_eq!(m.gen_writes_hook(0x1234), None);
    // Another site gets a hook.
    let id = m.gen_writes_hook(0x4321).expect("site must be instrumented");
    assert_eq!(id, 0);
    assert!(m.exec_writes_hook(id, 0x3000));
    assert!(!m.exec_writes_hook(id, 0x2fff));
    assert!(m.exec_writes_hook_n(id, 0x30ff, 4));
    assert!(!m.exec_writes_hook_n(id, 0x3100, 4));
}
