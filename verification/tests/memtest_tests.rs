use memsos::lang::{Ask, CpuInfo, Dialogs, MemInfo, MemTestDebug, MemsosInfo, MemtestInfo};
use memsos::memtest::{
    count_mismatch, rand, run_march_c, run_test, run_test_own_address, run_test_rand_num,
    InvalidKind, LogEntries, Logger, Mem, MemOps, MemTestKind, MemoryRegion, TestResult, RAND_MAX,
};
use std::cell::RefCell;
use std::collections::HashMap;

/// Word-addressed memory that holds what is written, except at addresses that
/// always read as a fixed value.
struct FakeMem {
    cells: HashMap<u64, u64>,
    /// Every access: whether it was a read, the address and the value.
    accesses: Vec<(bool, u64, u64)>,
    stuck: HashMap<u64, u64>,
    offset: u64,
}

impl FakeMem {
    fn good() -> Self {
        FakeMem { cells: HashMap::new(), accesses: Vec::new(), stuck: HashMap::new(), offset: 0 }
    }
    fn with_stuck(stuck: &[(u64, u64)]) -> Self {
        let mut m = Self::good();
        for (a, v) in stuck {
            m.stuck.insert(*a, *v);
        }
        m
    }
}

impl Mem for FakeMem {
    fn spec_parse(&self, region: MemoryRegion) -> MemoryRegion {
        self.parse(&region)
    }
    fn spec_check(&self, addr: u64) -> bool {
        self.check(addr)
    }
    fn parse(&self, region: &MemoryRegion) -> MemoryRegion {
        MemoryRegion { start: region.start + self.offset, end: region.end + self.offset }
    }
    fn check(&self, addr: u64) -> bool {
        addr % 8 == 0 && addr != 0
    }
    fn spec_faithful(&self) -> bool {
        self.stuck.is_empty()
    }
    fn spec_word(&self, addr: u64) -> u64 {
        self.peek(addr)
    }
    fn spec_ops(&self) -> MemOps {
        panic!("the access record exists only in proofs")
    }
    fn read(&mut self, addr: u64) -> u64 {
        let v = self.peek(addr);
        self.accesses.push((true, addr, v));
        v
    }
    fn write(&mut self, addr: u64, value: u64) {
        self.accesses.push((false, addr, value));
        self.cells.insert(addr, value);
    }
}

impl FakeMem {
    fn peek(&self, addr: u64) -> u64 {
        if let Some(v) = self.stuck.get(&addr) {
            return *v;
        }
        *self.cells.get(&addr).unwrap_or(&0xdead)
    }
}

struct RecLogger {
    lines: RefCell<Vec<String>>,
    tests: Vec<String>,
}

impl Logger for RecLogger {
    fn spec_log(&self) -> LogEntries {
        panic!("the report record exists only in proofs")
    }
    fn log(&mut self, region: &MemoryRegion) {
        self.lines.borrow_mut().push(format!("Checking region {:?}", region));
    }
    fn ui_change_test(&mut self, test: &str) {
        self.tests.push(test.to_string());
    }
}

fn dialogs() -> Dialogs {
    let s = |x: &str| x.to_string();
    Dialogs {
        ask: Ask { test_kind: s("Which test?"), advanced: s("Advanced"), basic: s("Basic") },
        info: MemsosInfo { bootloader_version: s("v"), love_message: s("<3") },
        memtest_info: MemtestInfo { info: s("i"), actual_tests: s("a"), kind_test: s("k") },
        mem_info: MemInfo { info: s("m"), size: s("s") },
        cpu_info: CpuInfo {
            info: s("c"),
            model: s("mo"),
            vendor: s("ve"),
            family: s("fa"),
            stepping: s("st"),
        },
        debug_info: MemTestDebug { checking: s("ch"), omitting: s("om") },
    }
}

#[test]
fn march_c_on_good_memory_finds_nothing() {
    let mut mem = FakeMem::good();
    let r = run_march_c(&mut mem, &MemoryRegion { start: 0, end: 64 });
    assert_eq!(r.bad_addrs, 0);
}

#[test]
fn march_c_counts_stuck_at_zero() {
    // A cell stuck at 0 fails the two reads that expect 1 once: the descending element.
    let mut mem = FakeMem::with_stuck(&[(16, 0)]);
    let r = run_march_c(&mut mem, &MemoryRegion { start: 0, end: 64 });
    assert_eq!(r.bad_addrs, 1);
}

#[test]
fn march_c_counts_stuck_at_one() {
    // A cell stuck at 1 fails both ascending reads that expect 0.
    let mut mem = FakeMem::with_stuck(&[(24, 1)]);
    let r = run_march_c(&mut mem, &MemoryRegion { start: 0, end: 64 });
    assert_eq!(r.bad_addrs, 2);
}

#[test]
fn march_c_skips_unchecked_addresses() {
    // Address 17 is not aligned, so it is never read.
    let mut mem = FakeMem::with_stuck(&[(17, 5)]);
    let r = run_march_c(&mut mem, &MemoryRegion { start: 0, end: 64 });
    assert_eq!(r.bad_addrs, 0);
}

#[test]
fn own_address_finds_stuck_cell() {
    let mut mem = FakeMem::with_stuck(&[(8, 3), (32, 32)]);
    let r = run_test_own_address(&mut mem, &MemoryRegion { start: 0, end: 48 });
    assert_eq!(r.bad_addrs, 1);
}

#[test]
fn own_address_on_empty_region() {
    let mut mem = FakeMem::with_stuck(&[(8, 3)]);
    let r = run_test_own_address(&mut mem, &MemoryRegion { start: 40, end: 8 });
    assert_eq!(r.bad_addrs, 0);
}

#[test]
fn rand_sequence_from_zero() {
    let mut seed = 0u64;
    assert_eq!(rand(&mut seed), 12345);
    assert_eq!(seed, 12345);
    let second = (12345u64 * 214013 + 12345) & RAND_MAX;
    assert_eq!(rand(&mut seed), second);
    assert_eq!(seed, second);
    assert!(second <= RAND_MAX);
}

#[test]
fn rand_num_test_on_good_memory() {
    let mut mem = FakeMem::good();
    let mut seed = 0u64;
    let r = run_test_rand_num(&mut mem, &MemoryRegion { start: 0, end: 32 }, &mut seed);
    assert_eq!(r.bad_addrs, 0);
}

#[test]
fn rand_num_test_draws_one_value_per_address() {
    let mut mem = FakeMem::with_stuck(&[(8, 0)]);
    let mut seed = 0u64;
    let r = run_test_rand_num(&mut mem, &MemoryRegion { start: 0, end: 16 }, &mut seed);
    assert_eq!(r.bad_addrs, 1);
    let mut expect = 0u64;
    for _ in 0..16 {
        rand(&mut expect);
    }
    assert_eq!(seed, expect);
}

#[test]
fn run_test_basic_runs_two_tests() {
    let mut mem = FakeMem::with_stuck(&[(24, 1)]);
    let mut logger = RecLogger { lines: RefCell::new(Vec::new()), tests: Vec::new() };
    let mut seed = 7u64;
    let r = run_test(&mut logger, &mut mem, &MemoryRegion { start: 0, end: 64 }, MemTestKind::Basic, &mut seed);
    // March C: 2, own address: 1.
    assert_eq!(r.bad_addrs, 3);
    assert_eq!(seed, 7);
    assert_eq!(logger.tests, vec!["March-C".to_string(), "Pattern test, own address".to_string()]);
    assert_eq!(logger.lines.borrow()[0], "Checking region MemoryRegion { start: 0, end: 64 }");
}

#[test]
fn run_test_advanced_runs_three_tests() {
    let mut mem = FakeMem::with_stuck(&[(24, 1)]);
    let mut logger = RecLogger { lines: RefCell::new(Vec::new()), tests: Vec::new() };
    let mut seed = 0u64;
    let r = run_test(&mut logger, &mut mem, &MemoryRegion { start: 0, end: 64 }, MemTestKind::Advanced, &mut seed);
    assert_eq!(r.bad_addrs, 4);
    assert_eq!(logger.tests.len(), 3);
    assert_eq!(logger.tests[2], "Pattern test, rand number");
}

#[test]
fn test_result_add_and_saturate() {
    let a = TestResult { bad_addrs: 2 };
    let b = TestResult { bad_addrs: 3 };
    assert_eq!(a.add(b).bad_addrs, 5);
    let mut c = TestResult::new();
    c.add_assign(TestResult { bad_addrs: u64::MAX });
    c.add_assign(TestResult { bad_addrs: 1 });
    assert_eq!(c.bad_addrs, u64::MAX);
}

#[test]
fn count_mismatch_counts() {
    assert_eq!(count_mismatch(4, 1, 1), 4);
    assert_eq!(count_mismatch(4, 1, 2), 5);
    assert_eq!(count_mismatch(u64::MAX, 1, 2), u64::MAX);
}

#[test]
fn kind_labels_and_parsing() {
    let d = dialogs();
    assert_eq!(MemTestKind::Basic.label(&d), "Basic");
    assert_eq!(MemTestKind::Advanced.label(&d), "Advanced");
    assert_eq!(MemTestKind::try_from(&"Basic".to_string(), &d), Ok(MemTestKind::Basic));
    assert_eq!(MemTestKind::try_from(&"Advanced".to_string(), &d), Ok(MemTestKind::Advanced));
    assert_eq!(MemTestKind::try_from(&"basic".to_string(), &d), Err(InvalidKind));
}

#[test]
fn march_c_leaves_one_in_every_checked_word() {
    let mut mem = FakeMem::good();
    let r = run_march_c(&mut mem, &MemoryRegion { start: 0, end: 32 });
    assert_eq!(r.bad_addrs, 0);
    assert_eq!(mem.peek(8), 1);
    assert_eq!(mem.peek(24), 1);
    // Address 0 is never accepted, 32 lies outside the region.
    assert_eq!(mem.peek(0), 0xdead);
    assert_eq!(mem.peek(32), 0xdead);
}

#[test]
fn own_address_leaves_each_address_in_its_word() {
    let mut mem = FakeMem::good();
    let r = run_test_own_address(&mut mem, &MemoryRegion { start: 0, end: 40 });
    assert_eq!(r.bad_addrs, 0);
    assert_eq!(mem.peek(8), 8);
    assert_eq!(mem.peek(32), 32);
    assert_eq!(mem.peek(40), 0xdead);
}

#[test]
fn rand_num_leaves_the_draw_of_each_address() {
    let mut mem = FakeMem::good();
    let mut seed = 0u64;
    let r = run_test_rand_num(&mut mem, &MemoryRegion { start: 0, end: 16 }, &mut seed);
    assert_eq!(r.bad_addrs, 0);
    // Address 8 gets the ninth draw.
    let mut expect = 0u64;
    for _ in 0..9 {
        rand(&mut expect);
    }
    assert_eq!(mem.peek(8), expect);
}

#[test]
fn run_test_on_good_memory_finds_nothing() {
    let mut mem = FakeMem::good();
    let mut logger = RecLogger { lines: RefCell::new(Vec::new()), tests: Vec::new() };
    let mut seed = 0u64;
    let r = run_test(&mut logger, &mut mem, &MemoryRegion { start: 0, end: 64 }, MemTestKind::Advanced, &mut seed);
    assert_eq!(r.bad_addrs, 0);
    let r = run_test(&mut logger, &mut mem, &MemoryRegion { start: 0, end: 64 }, MemTestKind::Basic, &mut seed);
    assert_eq!(r.bad_addrs, 0);
    assert_eq!(mem.peek(16), 16);
}

#[test]
fn march_c_accesses_in_order() {
    let mut mem = FakeMem::with_stuck(&[(16, 0)]);
    let r = run_march_c(&mut mem, &MemoryRegion { start: 0, end: 24 });
    let (w, rd) = (false, true);
    let expected = vec![
        (w, 8, 0), (w, 16, 0),
        (rd, 8, 0), (w, 8, 1), (rd, 16, 0), (w, 16, 1),
        (rd, 16, 0), (w, 16, 0), (rd, 8, 1), (w, 8, 0),
        (rd, 8, 0), (w, 8, 1), (rd, 16, 0), (w, 16, 1),
    ];
    assert_eq!(mem.accesses, expected);
    // Only the descending element expects 1 at the stuck cell.
    assert_eq!(r.bad_addrs, 1);
}

#[test]
fn own_address_writes_then_reads_each_word() {
    let mut mem = FakeMem::with_stuck(&[(8, 3)]);
    let r = run_test_own_address(&mut mem, &MemoryRegion { start: 0, end: 17 });
    assert_eq!(mem.accesses, vec![(false, 8, 8), (true, 8, 3), (false, 16, 16), (true, 16, 16)]);
    assert_eq!(r.bad_addrs, 1);
}

#[test]
fn run_test_total_is_the_sum_of_its_tests() {
    let mut logger = RecLogger { lines: RefCell::new(Vec::new()), tests: Vec::new() };
    let region = MemoryRegion { start: 0, end: 64 };
    let mut alone = FakeMem::with_stuck(&[(24, 1)]);
    let m = run_march_c(&mut alone, &region).bad_addrs;
    let o = run_test_own_address(&mut alone, &region).bad_addrs;
    let mut seed = 0u64;
    let n = run_test_rand_num(&mut alone, &region, &mut seed).bad_addrs;
    let mut mem = FakeMem::with_stuck(&[(24, 1)]);
    let mut seed = 0u64;
    let r = run_test(&mut logger, &mut mem, &region, MemTestKind::Advanced, &mut seed);
    assert_eq!(r.bad_addrs, m + o + n);
}
