use memsos::modules::bit_fade::{check_bit_fade, PATTERN_A as FADE_A, TIME_A_SECS};
use memsos::modules::commons::{
    entry_range, is_usable_memory, MemMapEntry, MemoryError, MemoryReport, USABLE,
};
use memsos::modules::march_c::record_stuck_at;
use memsos::modules::modulo_n::{
    check_modulo_n, modulo_n_pattern, modulo_n_range, PATTERN_A, PATTERN_B,
};
use memsos::sched::{Context, Process, Scheduler};
use std::time::Duration;

#[test]
fn usable_entries_and_ranges() {
    let e = MemMapEntry { base: 0x1000, length: 0x2000, entry_type: USABLE };
    assert!(is_usable_memory(&e));
    assert!(!is_usable_memory(&MemMapEntry { base: 0, length: 0, entry_type: 1 }));
    assert_eq!(entry_range(&e, 0x10_0000), (0x10_1000, 0x10_3000));
}

#[test]
fn march_c_reports_each_address_once() {
    let mut errors = Vec::new();
    let mut reports: Vec<MemoryReport> = Vec::new();
    record_stuck_at(&mut errors, &mut reports, 10, 1, 0);
    record_stuck_at(&mut errors, &mut reports, 10, 0, 1);
    record_stuck_at(&mut errors, &mut reports, 11, 1, 1);
    record_stuck_at(&mut errors, &mut reports, 12, 0, 1);
    assert_eq!(errors, vec![10, 12]);
    assert_eq!(reports.len(), 2);
    assert_eq!(reports[0].address, 10);
    assert!(matches!(reports[1].kind, MemoryError::StuckAt));
}

#[test]
fn bit_fade_reports() {
    let mut reports = Vec::new();
    let t = Duration::from_secs(TIME_A_SECS);
    check_bit_fade(&mut reports, 5, FADE_A, FADE_A, t);
    check_bit_fade(&mut reports, 6, 0, FADE_A, t);
    assert_eq!(reports.len(), 1);
    assert_eq!(reports[0].address, 6);
    assert!(matches!(reports[0].kind, MemoryError::BitFade(d) if d == Duration::from_secs(90)));
}

#[test]
fn modulo_n_patterns() {
    assert_eq!(modulo_n_pattern(8), PATTERN_A);
    assert_eq!(modulo_n_pattern(9), PATTERN_B);
    let mut reports = Vec::new();
    check_modulo_n(&mut reports, 8, PATTERN_A);
    check_modulo_n(&mut reports, 9, PATTERN_A);
    check_modulo_n(&mut reports, 10, PATTERN_B);
    assert_eq!(reports.len(), 1);
    assert_eq!(reports[0].address, 9);
    assert_eq!(modulo_n_range(0x1000, 0x100, 0x8000, 2), (0x9002, 0x9100));
}

#[test]
fn scheduler_round_robin() {
    let p = |rip: u64, rsp: u64| Process { context: Context { rip, rsp } };
    let mut s = Scheduler::new([p(0x1000, 0xA000), p(0x2000, 0xB000)]);
    assert_eq!(s.get(), p(0x1000, 0xA000));
    // The first run resumes the current process and saves nothing.
    assert_eq!(s.call_next(0x1234), Some(0xA000));
    assert_eq!(s.current_process, 0);
    assert_eq!(s.processes[0], p(0x1000, 0xA000));
    s.first_run = false;
    assert_eq!(s.call_next(0x1010), Some(0xB000));
    assert_eq!(s.processes[0], p(0x1010, 0xA000));
    assert_eq!(s.get(), p(0x2000, 0xB000));
    assert_eq!(s.call_next(0x2020), Some(0xA000));
    assert_eq!(s.processes[1], p(0x2020, 0xB000));
    assert_eq!(s.current_process, 0);
    s.enabled = false;
    assert_eq!(s.call_next(0x3030), None);
    assert_eq!(s.current_process, 0);
    assert_eq!(s.processes[0], p(0x1010, 0xA000));
}
