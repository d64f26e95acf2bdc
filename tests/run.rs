use boottime::drift::ClockSnapshot;
use boottime::fault::Fault;
use boottime::output::ToolOutput;
use boottime::run::{default_log_files, Action, Correction, Event, BOOT_TIME_SYMBOL};

fn exited(code: i32, stderr: &str) -> ToolOutput {
    ToolOutput { code: Some(code), stdout: Vec::new(), stderr: stderr.as_bytes().to_vec() }
}

fn snap(monotonic_nanos: u64, wall_seconds: u64) -> ClockSnapshot {
    ClockSnapshot { monotonic_nanos, wall_seconds }
}

fn feed(c: Correction, e: Event) -> (Correction, Action) {
    assert!(c.accepts_event(&e));
    c.step(e)
}

/// Drives a run up to the request to write the kernel value.
fn up_to_write(boot_time: u64, pre: ClockSnapshot, post: ClockSnapshot) -> (Correction, Action) {
    let (c, a) = Correction::new(default_log_files());
    assert!(matches!(a, Action::Locate));
    let (c, a) = feed(c, Event::Located);
    assert!(matches!(a, Action::ReadBootTime));
    let (c, a) = feed(c, Event::BootTimeRead { value: boot_time });
    assert!(matches!(a, Action::CaptureSnapshot));
    let (c, a) = feed(c, Event::Snapshot { snapshot: pre });
    assert!(matches!(a, Action::RunSync));
    let (c, a) = feed(c, Event::SyncExited { output: exited(0, "") });
    assert!(matches!(a, Action::CaptureSnapshot));
    feed(c, Event::Snapshot { snapshot: post })
}

fn expect_rewrite(a: &Action, argument: &str, path: &str) {
    match a {
        Action::RewriteLog { argument: g, path: p } => {
            assert_eq!(g, argument);
            assert_eq!(p, path);
        }
        _ => panic!("expected a log rewrite"),
    }
}

#[test]
fn symbol_name_and_log_files() {
    assert_eq!(BOOT_TIME_SYMBOL, "boot_time");
    assert_eq!(default_log_files(), vec!["/var/adm/utmpx".to_string(), "/var/adm/wtmpx".to_string()]);
}

#[test]
fn full_correction_rewrites_both_logs() {
    let (c, a) = up_to_write(1_700_000_000, snap(0, 1_700_100_000), snap(2_000_000_000, 1_700_100_005));
    match &a {
        Action::WriteBootTime { drift, original, corrected } => {
            assert_eq!(drift.elapsed_process_seconds, 2);
            assert_eq!(drift.shift_seconds, 3);
            assert_eq!(*original, 1_700_000_000);
            assert_eq!(*corrected, 1_700_000_003);
        }
        _ => panic!("expected the kernel write"),
    }
    let (c, a) = feed(c, Event::Written);
    expect_rewrite(&a, "1700000003", "/var/adm/utmpx");
    let (c, a) = feed(c, Event::LogRewritten { output: exited(0, "") });
    expect_rewrite(&a, "1700000003", "/var/adm/wtmpx");
    let (c, a) = feed(c, Event::LogRewritten { output: exited(0, "") });
    assert!(matches!(a, Action::Finish { outcome: Ok(()) }));
    assert!(c.is_done());
}

#[test]
fn sync_failure_stops_before_write() {
    let (c, _) = Correction::new(default_log_files());
    let (c, _) = feed(c, Event::Located);
    let (c, _) = feed(c, Event::BootTimeRead { value: 1_700_000_000 });
    let (c, _) = feed(c, Event::Snapshot { snapshot: snap(0, 1_700_100_000) });
    let (c, a) = feed(c, Event::SyncExited { output: exited(1, "no servers reachable\n") });
    match a {
        Action::Finish { outcome: Err(Fault::SyncFailed { detail }) } => {
            assert!(detail.contains("no servers reachable"));
            assert_eq!(detail, "exit code 1: no servers reachable");
        }
        _ => panic!("expected the run to stop on the synchronisation failure"),
    }
    assert!(c.is_done());
    assert!(!c.accepts_event(&Event::Written));
}

#[test]
fn first_log_failure_still_rewrites_second() {
    let (c, _) = up_to_write(1_700_000_000, snap(0, 1_700_100_000), snap(2_000_000_000, 1_700_100_005));
    let (c, a) = feed(c, Event::Written);
    expect_rewrite(&a, "1700000003", "/var/adm/utmpx");
    let (c, a) = feed(c, Event::LogRewritten { output: exited(2, "bad record") });
    expect_rewrite(&a, "1700000003", "/var/adm/wtmpx");
    let (c, a) = feed(c, Event::LogRewritten { output: exited(0, "") });
    match a {
        Action::Finish { outcome: Err(Fault::LogRewriteFailed { path, detail }) } => {
            assert_eq!(path, "/var/adm/utmpx");
            assert_eq!(detail, "exit code 2: bad record");
        }
        _ => panic!("expected the run to report the failed log"),
    }
    assert!(c.is_done());
}

#[test]
fn both_log_failures_report_the_first() {
    let (c, _) = up_to_write(100, snap(0, 1_000), snap(0, 1_000));
    let (c, _) = feed(c, Event::Written);
    let (c, _) = feed(c, Event::LogRewritten { output: exited(1, "first") });
    let (_, a) = feed(c, Event::LogRewritten { output: exited(1, "second") });
    match a {
        Action::Finish { outcome: Err(Fault::LogRewriteFailed { path, detail }) } => {
            assert_eq!(path, "/var/adm/utmpx");
            assert_eq!(detail, "exit code 1: first");
        }
        _ => panic!("expected the first failure"),
    }
}

#[test]
fn negative_correction_never_writes() {
    let (c, a) = up_to_write(0, snap(0, 1_000), snap(0, 999));
    assert!(matches!(a, Action::Finish { outcome: Err(Fault::NegativeOrOutOfRange) }));
    assert!(c.is_done());
}

#[test]
fn overflowing_correction_never_writes() {
    let (c, a) = up_to_write(u64::MAX, snap(0, 1_000), snap(0, 1_001));
    assert!(matches!(a, Action::Finish { outcome: Err(Fault::ArithmeticOverflow) }));
    assert!(c.is_done());
}

#[test]
fn missing_symbol_fails() {
    let (c, _) = Correction::new(default_log_files());
    let (c, a) = feed(c, Event::LocateFailed);
    assert!(matches!(a, Action::Finish { outcome: Err(Fault::SymbolNotFound) }));
    assert!(c.is_done());
}

#[test]
fn unreadable_boot_time_fails() {
    let (c, _) = Correction::new(default_log_files());
    let (c, _) = feed(c, Event::Located);
    let (_, a) = feed(c, Event::ReadFailed);
    assert!(matches!(a, Action::Finish { outcome: Err(Fault::KernelReadError) }));
}

#[test]
fn failed_write_skips_logs() {
    let (c, _) = up_to_write(100, snap(0, 1_000), snap(0, 1_000));
    let (c, a) = feed(c, Event::WriteFailed);
    assert!(matches!(a, Action::Finish { outcome: Err(Fault::KernelWriteError) }));
    assert!(c.is_done());
}

#[test]
fn no_logs_finishes_after_write() {
    let (c, _) = Correction::new(Vec::new());
    let (c, _) = feed(c, Event::Located);
    let (c, _) = feed(c, Event::BootTimeRead { value: 50 });
    let (c, _) = feed(c, Event::Snapshot { snapshot: snap(0, 10) });
    let (c, _) = feed(c, Event::SyncExited { output: exited(0, "") });
    let (c, a) = feed(c, Event::Snapshot { snapshot: snap(0, 10) });
    assert!(matches!(a, Action::WriteBootTime { corrected: 50, .. }));
    let (_, a) = feed(c, Event::Written);
    assert!(matches!(a, Action::Finish { outcome: Ok(()) }));
}

#[test]
fn out_of_order_events_are_refused() {
    let (c, _) = Correction::new(default_log_files());
    assert!(!c.accepts_event(&Event::Written));
    let (c, _) = feed(c, Event::Located);
    let (c, _) = feed(c, Event::BootTimeRead { value: 1 });
    let (c, _) = feed(c, Event::Snapshot { snapshot: snap(500, 10) });
    let (c, _) = feed(c, Event::SyncExited { output: exited(0, "") });
    assert!(!c.accepts_event(&Event::Snapshot { snapshot: snap(499, 10) }));
    assert!(c.accepts_event(&Event::Snapshot { snapshot: snap(500, 10) }));
}
