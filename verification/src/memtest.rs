//! The portable memory tests: March C, the own-address pattern test and the
//! pseudo-random pattern test, run over any memory that implements [`Mem`].
use vstd::prelude::*;
use crate::lang::Dialogs;

verus! {

/// The outcome of one or more memory tests.
#[derive(Default)]
pub struct TestResult {
    /// Number of read-backs that did not return the value the test expected.
    pub bad_addrs: u64,
}

/// A half-open range `[start, end)` of addresses handed to a test.
#[derive(Debug)]
pub struct MemoryRegion {
    pub start: u64,
    pub end: u64,
}

/// One access that a test made: a read of an address and the value it gave, or
/// a write of a value to an address.
pub enum MemOp {
    Read(u64, u64),
    Write(u64, u64),
}

/// The accesses a memory has seen, oldest first.
pub type MemOps = Seq<MemOp>;

/// Memory as the tests see it. Implementations decide how a test address maps to
/// a real location and which addresses may be touched at all.
pub trait Mem {
    /// The region that `parse` gives back for `region`.
    spec fn spec_parse(&self, region: MemoryRegion) -> MemoryRegion;

    /// Whether `check` accepts `addr`.
    spec fn spec_check(&self, addr: u64) -> bool;

    /// Whether the memory keeps what is written to it: a read of an accepted
    /// address gives back the word last written there.
    spec fn spec_faithful(&self) -> bool;

    /// The word held at `addr`.
    spec fn spec_word(&self, addr: u64) -> u64;

    /// Every read and write made so far, oldest first, with the value read or
    /// written.
    spec fn spec_ops(&self) -> MemOps;

    /// Translates a test region into the addresses that are actually accessed.
    fn parse(&self, region: &MemoryRegion) -> (parsed: MemoryRegion)
        ensures
            parsed == self.spec_parse(*region),
    ;

    /// Whether the test may access `addr`.
    fn check(&self, addr: u64) -> (ok: bool)
        ensures
            ok == self.spec_check(addr),
    ;

    /// Reads the word at `addr`. The tests read only addresses that `check`
    /// accepts. The read is recorded with the value it gave.
    fn read(&mut self, addr: u64) -> (v: u64)
        requires
            old(self).spec_check(addr),
        ensures
            final(self).spec_faithful() == old(self).spec_faithful(),
            forall|a: u64| #[trigger] final(self).spec_check(a) == old(self).spec_check(a),
            forall|r: MemoryRegion| #[trigger] final(self).spec_parse(r) == old(self).spec_parse(r),
            final(self).spec_ops() == old(self).spec_ops().push(MemOp::Read(addr, v)),
            old(self).spec_faithful() ==> v == old(self).spec_word(addr),
            old(self).spec_faithful() ==> forall|a: u64| #[trigger]
                final(self).spec_word(a) == old(self).spec_word(a),
    ;

    /// Writes `value` to the word at `addr`. The tests write only addresses that
    /// `check` accepts. A write changes neither which addresses are accepted nor
    /// how regions are translated, and it is recorded.
    fn write(&mut self, addr: u64, value: u64)
        requires
            old(self).spec_check(addr),
        ensures
            final(self).spec_faithful() == old(self).spec_faithful(),
            forall|a: u64| #[trigger] final(self).spec_check(a) == old(self).spec_check(a),
            forall|r: MemoryRegion| #[trigger] final(self).spec_parse(r) == old(self).spec_parse(r),
            final(self).spec_ops() == old(self).spec_ops().push(MemOp::Write(addr, value)),
            old(self).spec_faithful() ==> final(self).spec_word(addr) == value,
            old(self).spec_faithful() ==> forall|a: u64|
                a != addr ==> #[trigger] final(self).spec_word(a) == old(self).spec_word(a),
    ;
}

/// What the tests report: the region they start on, or the name of a test that
/// starts.
pub enum LogEntry {
    Region(u64, u64),
    Test(Seq<char>),
}

/// The reports a logger has received, oldest first.
pub type LogEntries = Seq<LogEntry>;

/// Where the tests report their progress.
pub trait Logger {
    /// Every report received so far, oldest first.
    spec fn spec_log(&self) -> LogEntries;

    /// Reports that the tests start on `region`.
    fn log(&mut self, region: &MemoryRegion)
        ensures
            final(self).spec_log() == old(self).spec_log().push(
                LogEntry::Region(region.start, region.end),
            ),
    ;

    /// Announces that the named test starts.
    fn ui_change_test(&mut self, test: &str)
        ensures
            final(self).spec_log() == old(self).spec_log().push(LogEntry::Test(test@)),
    ;
}

/// How thorough a test run is.
#[derive(Debug, PartialEq, Eq, Clone, Copy, Structural)]
pub enum MemTestKind {
    Basic,
    Advanced,
}

/// A text that names no kind of test.
#[derive(Debug, PartialEq, Eq, Structural)]
pub struct InvalidKind;

impl MemTestKind {
    /// The name of the kind in the interface language.
    pub fn label<'a>(&self, dialogs: &'a Dialogs) -> (s: &'a str)
        ensures
            s@ == match self {
                MemTestKind::Basic => dialogs.ask.basic@,
                MemTestKind::Advanced => dialogs.ask.advanced@,
            },
    {
        match self {
            MemTestKind::Basic => dialogs.ask.basic.as_str(),
            MemTestKind::Advanced => dialogs.ask.advanced.as_str(),
        }
    }

    /// The kind whose name in the interface language is `value`; the basic name is
    /// tried first.
    pub fn try_from(value: &String, dialogs: &Dialogs) -> (r: Result<MemTestKind, InvalidKind>)
        ensures
            r == if value@ == dialogs.ask.basic@ {
                Ok::<MemTestKind, InvalidKind>(MemTestKind::Basic)
            } else if value@ == dialogs.ask.advanced@ {
                Ok(MemTestKind::Advanced)
            } else {
                Err(InvalidKind)
            },
    {
        if *value == dialogs.ask.basic {
            Ok(MemTestKind::Basic)
        } else if *value == dialogs.ask.advanced {
            Ok(MemTestKind::Advanced)
        } else {
            Err(InvalidKind)
        }
    }
}

/// The region that `mem` makes of `region`.
pub open spec fn parsed<M: Mem>(mem: M, region: MemoryRegion) -> MemoryRegion {
    mem.spec_parse(region)
}

/// The number of addresses in the region that `mem` makes of `region`, accepted
/// or not.
pub open spec fn parsed_len<M: Mem>(mem: M, region: MemoryRegion) -> nat {
    let p = parsed(mem, region);
    if p.start < p.end {
        (p.end - p.start) as nat
    } else {
        0
    }
}

/// Whether the region that `mem` makes of `region` has an address.
pub open spec fn parsed_nonempty<M: Mem>(mem: M, region: MemoryRegion) -> bool {
    parsed(mem, region).start < parsed(mem, region).end
}

/// The addresses that `mem` accepts.
pub open spec fn accepted<M: Mem>(mem: M) -> spec_fn(u64) -> bool {
    |a: u64| mem.spec_check(a)
}

/// Whether `after` accepts, translates and keeps words exactly as `before` does.
pub open spec fn same_layout<M: Mem>(before: M, after: M) -> bool {
    &&& after.spec_faithful() == before.spec_faithful()
    &&& forall|a: u64| #[trigger] after.spec_check(a) == before.spec_check(a)
    &&& forall|r: MemoryRegion| #[trigger] after.spec_parse(r) == before.spec_parse(r)
}

/// The accesses that `after` has seen beyond those of `before`.
pub open spec fn new_ops<M: Mem>(before: M, after: M) -> Seq<MemOp> {
    after.spec_ops().subrange(before.spec_ops().len() as int, after.spec_ops().len() as int)
}

/// Whether the record of `after` is that of `before` followed by more accesses.
pub open spec fn extends<M: Mem>(before: M, after: M) -> bool {
    after.spec_ops() == before.spec_ops() + new_ops(before, after)
}

/// Whether `after` holds `value(a)` at every address `a` of `[start, end)` that
/// `before` accepts, and the word of `before` everywhere else.
pub open spec fn written<M: Mem>(
    before: M,
    after: M,
    start: int,
    end: int,
    value: spec_fn(u64) -> u64,
) -> bool {
    forall|a: u64| #[trigger]
        after.spec_word(a) == if start <= a < end && before.spec_check(a) {
            value(a)
        } else {
            before.spec_word(a)
        }
}

/// Whether every address of `[start, end)` that `mem` accepts holds `value`.
pub open spec fn holds<M: Mem>(mem: M, start: int, end: int, value: u64) -> bool {
    forall|a: u64| start <= a < end && mem.spec_check(a) ==> #[trigger] mem.spec_word(a) == value
}

/// An access a test intends: a read of an address that should give a value, or
/// a write of a value to an address.
pub enum Access {
    Read(u64, u64),
    Write(u64, u64),
}

/// Whether the access `op` carries out `access`: the same kind at the same
/// address, and for a write the same value.
pub open spec fn fits(op: MemOp, access: Access) -> bool {
    match access {
        Access::Read(a, _) => op matches MemOp::Read(b, _) && b == a,
        Access::Write(a, v) => op == MemOp::Write(a, v),
    }
}

/// Whether `op` is a read that gave another value than `access` expected.
pub open spec fn differs(op: MemOp, access: Access) -> bool {
    match (op, access) {
        (MemOp::Read(_, v), Access::Read(_, e)) => v != e,
        _ => false,
    }
}

/// Whether `ops` carries out `plan`, access by access.
pub open spec fn follows(ops: Seq<MemOp>, plan: Seq<Access>) -> bool {
    &&& ops.len() == plan.len()
    &&& forall|i: int| 0 <= i < ops.len() ==> fits(#[trigger] ops[i], plan[i])
}

/// The number of reads of `ops` that gave another value than `plan` expected.
pub open spec fn mismatches(ops: Seq<MemOp>, plan: Seq<Access>) -> nat
    decreases ops.len(),
{
    if ops.len() == 0 {
        0
    } else {
        mismatches(ops.drop_last(), plan.drop_last()) + if differs(ops.last(), plan.last()) {
            1nat
        } else {
            0nat
        }
    }
}

/// `n`, cut off at `u64::MAX`.
pub open spec fn saturated(n: int) -> int {
    if n > u64::MAX {
        u64::MAX as int
    } else {
        n
    }
}

/// The accesses of a March element at `a`: a read expecting `expect` when there
/// is one, then a write of `value`.
pub open spec fn march_cell(a: u64, expect: Option<u64>, value: u64) -> Seq<Access> {
    match expect {
        Some(e) => seq![Access::Read(a, e), Access::Write(a, value)],
        None => seq![Access::Write(a, value)],
    }
}

/// A write of `value` to `a`, then a read of `a` that should give it back.
pub open spec fn write_read(a: u64, value: u64) -> Seq<Access> {
    seq![Access::Write(a, value), Access::Read(a, value)]
}

/// An ascending March element over `[start, end)`: the accesses of
/// `march_cell` at each address that `ok` accepts, lowest first.
pub open spec fn up_plan(
    ok: spec_fn(u64) -> bool,
    start: int,
    end: int,
    expect: Option<u64>,
    value: u64,
) -> Seq<Access>
    decreases end - start,
{
    if end <= start {
        Seq::empty()
    } else {
        up_plan(ok, start, end - 1, expect, value) + if ok((end - 1) as u64) {
            march_cell((end - 1) as u64, expect, value)
        } else {
            Seq::empty()
        }
    }
}

/// A descending March element over `[start, end)` that reads expecting
/// `expect` and writes `value`, highest address first.
pub open spec fn down_plan(
    ok: spec_fn(u64) -> bool,
    start: int,
    end: int,
    expect: u64,
    value: u64,
) -> Seq<Access>
    decreases end - start,
{
    if end <= start {
        Seq::empty()
    } else {
        down_plan(ok, start + 1, end, expect, value) + if ok(start as u64) {
            march_cell(start as u64, Some(expect), value)
        } else {
            Seq::empty()
        }
    }
}

/// March C over `[start, end)`: write 0 upwards; read 0 and write 1 upwards;
/// read 1 and write 0 downwards; read 0 and write 1 upwards.
pub open spec fn march_c_plan(ok: spec_fn(u64) -> bool, start: int, end: int) -> Seq<Access> {
    up_plan(ok, start, end, None, 0) + up_plan(ok, start, end, Some(0), 1) + down_plan(
        ok,
        start,
        end,
        1,
        0,
    ) + up_plan(ok, start, end, Some(0), 1)
}

/// The own-address test over `[start, end)`: at each accepted address, lowest
/// first, write the address and read it back.
pub open spec fn own_address_plan(ok: spec_fn(u64) -> bool, start: int, end: int) -> Seq<Access>
    decreases end - start,
{
    if end <= start {
        Seq::empty()
    } else {
        own_address_plan(ok, start, end - 1) + if ok((end - 1) as u64) {
            write_read((end - 1) as u64, (end - 1) as u64)
        } else {
            Seq::empty()
        }
    }
}

/// The random-pattern test over `[start, end)` from `seed`: at each accepted
/// address, lowest first, write the draw for that address and read it back.
pub open spec fn rand_plan(ok: spec_fn(u64) -> bool, start: int, end: int, seed: u64) -> Seq<
    Access,
>
    decreases end - start,
{
    if end <= start {
        Seq::empty()
    } else {
        rand_plan(ok, start, end - 1, seed) + if ok((end - 1) as u64) {
            write_read((end - 1) as u64, rand_pattern(seed, start, (end - 1) as u64))
        } else {
            Seq::empty()
        }
    }
}

/// One access more on both sides keeps `ops` following `plan`, and counts one
/// more mismatch when the new read gave another value than expected.
pub proof fn lemma_follows_push(ops: Seq<MemOp>, plan: Seq<Access>, op: MemOp, access: Access)
    requires
        follows(ops, plan),
        fits(op, access),
    ensures
        follows(ops.push(op), plan.push(access)),
        mismatches(ops.push(op), plan.push(access)) == mismatches(ops, plan) + if differs(
            op,
            access,
        ) {
            1nat
        } else {
            0nat
        },
{
    assert(ops.push(op).drop_last() =~= ops);
    assert(plan.push(access).drop_last() =~= plan);
    assert forall|i: int| 0 <= i < ops.push(op).len() implies fits(
        #[trigger] ops.push(op)[i],
        plan.push(access)[i],
    ) by {
        if i < ops.len() {
            assert(fits(ops[i], plan[i]));
        }
    }
}

/// Accesses that follow two plans one after the other follow the joined plan,
/// and their mismatches add up.
pub proof fn lemma_follows_concat(
    a: Seq<MemOp>,
    pa: Seq<Access>,
    b: Seq<MemOp>,
    pb: Seq<Access>,
)
    requires
        follows(a, pa),
        follows(b, pb),
    ensures
        follows(a + b, pa + pb),
        mismatches(a + b, pa + pb) == mismatches(a, pa) + mismatches(b, pb),
    decreases b.len(),
{
    if b.len() == 0 {
        assert(a + b =~= a);
        assert(pa + pb =~= pa);
    } else {
        let b0 = b.drop_last();
        let pb0 = pb.drop_last();
        assert(follows(b0, pb0)) by {
            assert forall|i: int| 0 <= i < b0.len() implies fits(#[trigger] b0[i], pb0[i]) by {
                assert(fits(b[i], pb[i]));
            }
        }
        lemma_follows_concat(a, pa, b0, pb0);
        assert(b.last() == b[b.len() - 1]);
        assert(fits(b[b.len() - 1], pb[pb.len() - 1]));
        lemma_follows_push(a + b0, pa + pb0, b.last(), pb.last());
        assert((a + b0).push(b.last()) =~= a + b);
        assert((pa + pb0).push(pb.last()) =~= pa + pb);
    }
}

/// Writes keep the layout: a test region translates the same after them, and
/// the same addresses are accepted.
pub proof fn lemma_same_layout_region<M: Mem>(before: M, after: M, region: MemoryRegion)
    requires
        same_layout(before, after),
    ensures
        parsed(after, region) == parsed(before, region),
        parsed_len(after, region) == parsed_len(before, region),
        accepted(after) == accepted(before),
{
    assert(after.spec_parse(region) == before.spec_parse(region));
    assert(accepted(after) =~= accepted(before));
}

/// Two passes over the same range in a row leave what the second one wrote.
pub proof fn lemma_written_twice<M: Mem>(
    m0: M,
    m1: M,
    m2: M,
    start: int,
    end: int,
    f: spec_fn(u64) -> u64,
    g: spec_fn(u64) -> u64,
)
    requires
        same_layout(m0, m1),
        written(m0, m1, start, end, f),
        written(m1, m2, start, end, g),
    ensures
        written(m0, m2, start, end, g),
{
    assert forall|a: u64| #[trigger]
        m2.spec_word(a) == if start <= a < end && m0.spec_check(a) {
            g(a)
        } else {
            m0.spec_word(a)
        } by {
        assert(m1.spec_check(a) == m0.spec_check(a));
        assert(m1.spec_word(a) == if start <= a < end && m0.spec_check(a) {
            f(a)
        } else {
            m0.spec_word(a)
        });
    }
}

/// The record of three memories in a row: the accesses from the first to the
/// last are those from the first to the second, then those from the second to
/// the last.
pub proof fn lemma_extends_twice<M: Mem>(m0: M, m1: M, m2: M)
    requires
        extends(m0, m1),
        extends(m1, m2),
    ensures
        extends(m0, m2),
        new_ops(m0, m2) == new_ops(m0, m1) + new_ops(m1, m2),
{
    let s1 = new_ops(m0, m1);
    let s2 = new_ops(m1, m2);
    assert(m2.spec_ops() =~= m0.spec_ops() + (s1 + s2));
    assert(new_ops(m0, m2) =~= s1 + s2);
}

impl TestResult {
    /// A result with no bad address.
    pub fn new() -> (r: Self)
        ensures
            r.bad_addrs == 0,
    {
        TestResult { bad_addrs: 0 }
    }

    /// The combined result of two tests; the count saturates at `u64::MAX`.
    pub fn add(self, rhs: Self) -> (r: Self)
        ensures
            r.bad_addrs == sat_add(self.bad_addrs as int, rhs.bad_addrs as int),
    {
        TestResult { bad_addrs: self.bad_addrs.saturating_add(rhs.bad_addrs) }
    }

    /// Adds the bad addresses of `rhs` to `self`; the count saturates at `u64::MAX`.
    pub fn add_assign(&mut self, rhs: Self)
        ensures
            final(self).bad_addrs == sat_add(old(self).bad_addrs as int, rhs.bad_addrs as int),
    {
        self.bad_addrs = self.bad_addrs.saturating_add(rhs.bad_addrs);
    }
}

/// `a + b`, cut off at `u64::MAX`.
pub open spec fn sat_add(a: int, b: int) -> int {
    if a + b > u64::MAX {
        u64::MAX as int
    } else {
        a + b
    }
}

/// The count after one read-back: one more when the value read differs from the
/// value expected. The count saturates at `u64::MAX`.
pub fn count_mismatch(bad_addrs: u64, observed: u64, expected: u64) -> (r: u64)
    ensures
        r == if observed != expected {
            sat_add(bad_addrs as int, 1) as u64
        } else {
            bad_addrs
        },
{
    if observed != expected {
        bad_addrs.saturating_add(1)
    } else {
        bad_addrs
    }
}

/// One ascending March element over `[start, end)`: at each accepted address,
/// optionally read and compare with `expect`, then write `value`.
fn march_up<M: Mem>(
    mem: &mut M,
    start: u64,
    end: u64,
    bad_addrs: u64,
    expect: Option<u64>,
    value: u64,
) -> (r: u64)
    ensures
        same_layout(*old(mem), *final(mem)),
        extends(*old(mem), *final(mem)),
        follows(
            new_ops(*old(mem), *final(mem)),
            up_plan(accepted(*old(mem)), start as int, end as int, expect, value),
        ),
        r == saturated(
            bad_addrs + mismatches(
                new_ops(*old(mem), *final(mem)),
                up_plan(accepted(*old(mem)), start as int, end as int, expect, value),
            ),
        ),
        old(mem).spec_faithful() ==> written(
            *old(mem),
            *final(mem),
            start as int,
            end as int,
            |a: u64| value,
        ),
        expect is None ==> r == bad_addrs,
        old(mem).spec_faithful() && expect is Some && holds(
            *old(mem),
            start as int,
            end as int,
            expect->0,
        ) ==> r == bad_addrs,
{
    let ghost m0 = *mem;
    let ghost ok = accepted(m0);
    let ghost mut seg: Seq<MemOp> = Seq::empty();
    let mut bad = bad_addrs;
    let mut addr = start;
    while addr < end
        invariant
            start <= addr <= end || (end <= start && addr == start),
            ok == accepted(m0),
            same_layout(m0, *mem),
            mem.spec_ops() == m0.spec_ops() + seg,
            follows(seg, up_plan(ok, start as int, addr as int, expect, value)),
            bad == saturated(
                bad_addrs + mismatches(seg, up_plan(ok, start as int, addr as int, expect, value)),
            ),
            m0.spec_faithful() ==> written(m0, *mem, start as int, addr as int, |a: u64| value),
            expect is None ==> bad == bad_addrs,
            m0.spec_faithful() && expect is Some && holds(m0, start as int, end as int, expect->0)
                ==> bad == bad_addrs,
        decreases end - addr,
    {
        let ghost before = *mem;
        let ghost mut mid = *mem;
        let ghost mut pl = up_plan(ok, start as int, addr as int, expect, value);
        if mem.check(addr) {
            if let Some(e) = expect {
                let observed = mem.read(addr);
                proof {
                    lemma_follows_push(seg, pl, MemOp::Read(addr, observed), Access::Read(addr, e));
                    assert((m0.spec_ops() + seg).push(MemOp::Read(addr, observed)) =~= m0.spec_ops()
                        + seg.push(MemOp::Read(addr, observed)));
                    seg = seg.push(MemOp::Read(addr, observed));
                    pl = pl.push(Access::Read(addr, e));
                    mid = *mem;
                    if m0.spec_faithful() {
                        assert(before.spec_word(addr) == m0.spec_word(addr));
                    }
                }
                bad = count_mismatch(bad, observed, e);
            }
            mem.write(addr, value);
            proof {
                lemma_follows_push(seg, pl, MemOp::Write(addr, value), Access::Write(addr, value));
                assert((m0.spec_ops() + seg).push(MemOp::Write(addr, value)) =~= m0.spec_ops()
                    + seg.push(MemOp::Write(addr, value)));
                seg = seg.push(MemOp::Write(addr, value));
                pl = pl.push(Access::Write(addr, value));
            }
        }
        proof {
            let p0 = up_plan(ok, start as int, addr as int, expect, value);
            assert(ok(addr) == m0.spec_check(addr));
            assert(m0.spec_check(addr) == before.spec_check(addr));
            if before.spec_check(addr) {
                match expect {
                    Some(e) => {
                        assert(pl =~= p0 + march_cell(addr, expect, value));
                    },
                    None => {
                        assert(pl =~= p0 + march_cell(addr, expect, value));
                    },
                }
            } else {
                assert(pl =~= p0 + Seq::<Access>::empty());
            }
            assert(up_plan(ok, start as int, addr + 1, expect, value) == pl);
            if m0.spec_faithful() {
                assert forall|a: u64| #[trigger]
                    mem.spec_word(a) == if start <= a < addr + 1 && m0.spec_check(a) {
                        value
                    } else {
                        m0.spec_word(a)
                    } by {
                    if a != addr {
                        assert(mid.spec_word(a) == before.spec_word(a));
                        assert(before.spec_word(a) == if start <= a < addr && m0.spec_check(a) {
                            value
                        } else {
                            m0.spec_word(a)
                        });
                    }
                }
            }
        }
        addr = addr + 1;
    }
    assert(new_ops(m0, *mem) =~= seg);
    bad
}

/// The descending March element over `[start, end)`: from the top address down,
/// at each accepted address read and compare with `expect`, then write `value`.
fn march_down<M: Mem>(mem: &mut M, start: u64, end: u64, bad_addrs: u64, expect: u64, value: u64) -> (r: u64)
    ensures
        same_layout(*old(mem), *final(mem)),
        extends(*old(mem), *final(mem)),
        follows(
            new_ops(*old(mem), *final(mem)),
            down_plan(accepted(*old(mem)), start as int, end as int, expect, value),
        ),
        r == saturated(
            bad_addrs + mismatches(
                new_ops(*old(mem), *final(mem)),
                down_plan(accepted(*old(mem)), start as int, end as int, expect, value),
            ),
        ),
        old(mem).spec_faithful() ==> written(
            *old(mem),
            *final(mem),
            start as int,
            end as int,
            |a: u64| value,
        ),
        old(mem).spec_faithful() && holds(*old(mem), start as int, end as int, expect) ==> r
            == bad_addrs,
{
    let ghost m0 = *mem;
    let ghost ok = accepted(m0);
    let ghost mut seg: Seq<MemOp> = Seq::empty();
    if end <= start {
        assert(written(m0, *mem, start as int, end as int, |a: u64| value));
        assert(new_ops(m0, *mem) =~= seg);
        assert(*mem == m0);
        assert(m0.spec_ops() + seg =~= m0.spec_ops());
        return bad_addrs;
    }
    let mut bad = bad_addrs;
    let mut addr = end;
    while addr > start
        invariant
            start <= addr <= end,
            ok == accepted(m0),
            same_layout(m0, *mem),
            mem.spec_ops() == m0.spec_ops() + seg,
            follows(seg, down_plan(ok, addr as int, end as int, expect, value)),
            bad == saturated(
                bad_addrs + mismatches(seg, down_plan(ok, addr as int, end as int, expect, value)),
            ),
            m0.spec_faithful() ==> written(m0, *mem, addr as int, end as int, |a: u64| value),
            m0.spec_faithful() && holds(m0, start as int, end as int, expect) ==> bad == bad_addrs,
        decreases addr - start,
    {
        let ghost p0 = down_plan(ok, addr as int, end as int, expect, value);
        addr = addr - 1;
        let ghost before = *mem;
        let ghost mut mid = *mem;
        let ghost mut pl = p0;
        if mem.check(addr) {
            let observed = mem.read(addr);
            proof {
                lemma_follows_push(seg, pl, MemOp::Read(addr, observed), Access::Read(addr, expect));
                assert((m0.spec_ops() + seg).push(MemOp::Read(addr, observed)) =~= m0.spec_ops()
                    + seg.push(MemOp::Read(addr, observed)));
                seg = seg.push(MemOp::Read(addr, observed));
                pl = pl.push(Access::Read(addr, expect));
                mid = *mem;
                if m0.spec_faithful() {
                    assert(before.spec_word(addr) == m0.spec_word(addr));
                }
            }
            bad = count_mismatch(bad, observed, expect);
            mem.write(addr, value);
            proof {
                lemma_follows_push(seg, pl, MemOp::Write(addr, value), Access::Write(addr, value));
                assert((m0.spec_ops() + seg).push(MemOp::Write(addr, value)) =~= m0.spec_ops()
                    + seg.push(MemOp::Write(addr, value)));
                seg = seg.push(MemOp::Write(addr, value));
                pl = pl.push(Access::Write(addr, value));
            }
        }
        proof {
            assert(ok(addr) == m0.spec_check(addr));
            assert(m0.spec_check(addr) == before.spec_check(addr));
            if before.spec_check(addr) {
                assert(pl =~= p0 + march_cell(addr, Some(expect), value));
            } else {
                assert(pl =~= p0 + Seq::<Access>::empty());
            }
            assert(down_plan(ok, addr as int, end as int, expect, value) == pl);
            if m0.spec_faithful() {
                assert forall|a: u64| #[trigger]
                    mem.spec_word(a) == if addr <= a < end && m0.spec_check(a) {
                        value
                    } else {
                        m0.spec_word(a)
                    } by {
                    if a != addr {
                        assert(mid.spec_word(a) == before.spec_word(a));
                        assert(before.spec_word(a) == if addr + 1 <= a < end && m0.spec_check(
                            a,
                        ) {
                            value
                        } else {
                            m0.spec_word(a)
                        });
                    }
                }
            }
        }
    }
    assert(new_ops(m0, *mem) =~= seg);
    bad
}

/// The four elements of March C one after the other: their accesses follow
/// the whole plan, and their mismatches add up.
proof fn lemma_march_c_ops<M: Mem>(
    m0: M,
    m1: M,
    m2: M,
    m3: M,
    m4: M,
    ok: spec_fn(u64) -> bool,
    s: int,
    e: int,
)
    requires
        extends(m0, m1),
        extends(m1, m2),
        extends(m2, m3),
        extends(m3, m4),
        follows(new_ops(m0, m1), up_plan(ok, s, e, None, 0)),
        follows(new_ops(m1, m2), up_plan(ok, s, e, Some(0), 1)),
        follows(new_ops(m2, m3), down_plan(ok, s, e, 1, 0)),
        follows(new_ops(m3, m4), up_plan(ok, s, e, Some(0), 1)),
    ensures
        extends(m0, m4),
        follows(new_ops(m0, m4), march_c_plan(ok, s, e)),
        mismatches(new_ops(m0, m4), march_c_plan(ok, s, e)) == mismatches(
            new_ops(m0, m1),
            up_plan(ok, s, e, None, 0),
        ) + mismatches(new_ops(m1, m2), up_plan(ok, s, e, Some(0), 1)) + mismatches(
            new_ops(m2, m3),
            down_plan(ok, s, e, 1, 0),
        ) + mismatches(new_ops(m3, m4), up_plan(ok, s, e, Some(0), 1)),
{
    let p1 = up_plan(ok, s, e, None, 0);
    let p2 = up_plan(ok, s, e, Some(0), 1);
    let p3 = down_plan(ok, s, e, 1, 0);
    let p4 = up_plan(ok, s, e, Some(0), 1);
    lemma_extends_twice(m0, m1, m2);
    lemma_extends_twice(m0, m2, m3);
    lemma_extends_twice(m0, m3, m4);
    lemma_follows_concat(new_ops(m0, m1), p1, new_ops(m1, m2), p2);
    lemma_follows_concat(new_ops(m0, m2), p1 + p2, new_ops(m2, m3), p3);
    lemma_follows_concat(new_ops(m0, m3), p1 + p2 + p3, new_ops(m3, m4), p4);
}

/// On memory that keeps what is written, each March C element finds what the
/// previous one wrote, and the last one leaves 1 everywhere.
proof fn lemma_march_c_faithful<M: Mem>(m0: M, m1: M, m2: M, m3: M, m4: M, s: int, e: int)
    requires
        m0.spec_faithful(),
        same_layout(m0, m1),
        same_layout(m1, m2),
        same_layout(m2, m3),
        written(m0, m1, s, e, |a: u64| 0u64),
        written(m1, m2, s, e, |a: u64| 1u64),
        written(m2, m3, s, e, |a: u64| 0u64),
        written(m3, m4, s, e, |a: u64| 1u64),
    ensures
        holds(m1, s, e, 0),
        holds(m2, s, e, 1),
        holds(m3, s, e, 0),
        written(m0, m4, s, e, |a: u64| 1u64),
{
    assert forall|a: u64| s <= a < e && m1.spec_check(a) implies #[trigger] m1.spec_word(a) == 0 by {
        assert(m1.spec_check(a) == m0.spec_check(a));
    }
    assert forall|a: u64| s <= a < e && m2.spec_check(a) implies #[trigger] m2.spec_word(a) == 1 by {
        assert(m2.spec_check(a) == m1.spec_check(a));
    }
    assert forall|a: u64| s <= a < e && m3.spec_check(a) implies #[trigger] m3.spec_word(a) == 0 by {
        assert(m3.spec_check(a) == m2.spec_check(a));
    }
    lemma_written_twice(m0, m1, m2, s, e, |a: u64| 0u64, |a: u64| 1u64);
    lemma_written_twice(m0, m2, m3, s, e, |a: u64| 1u64, |a: u64| 0u64);
    lemma_written_twice(m0, m3, m4, s, e, |a: u64| 0u64, |a: u64| 1u64);
}

/// March C over the region that `mem` makes of `region`: write 0 upwards; read 0
/// and write 1 upwards; read 1 and write 0 downwards; read 0 and write 1 upwards.
/// Each read-back that differs from the expected value counts as a bad address.
/// Memory that keeps what is written shows no bad address and ends with 1 in
/// every accepted word of the region.
pub fn run_march_c<M: Mem>(mem: &mut M, region: &MemoryRegion) -> (r: TestResult)
    ensures
        same_layout(*old(mem), *final(mem)),
        extends(*old(mem), *final(mem)),
        follows(
            new_ops(*old(mem), *final(mem)),
            march_c_plan(
                accepted(*old(mem)),
                parsed(*old(mem), *region).start as int,
                parsed(*old(mem), *region).end as int,
            ),
        ),
        r.bad_addrs == saturated(
            mismatches(
                new_ops(*old(mem), *final(mem)),
                march_c_plan(
                    accepted(*old(mem)),
                    parsed(*old(mem), *region).start as int,
                    parsed(*old(mem), *region).end as int,
                ),
            ) as int,
        ),
        old(mem).spec_faithful() ==> r.bad_addrs == 0,
        old(mem).spec_faithful() ==> written(
            *old(mem),
            *final(mem),
            parsed(*old(mem), *region).start as int,
            parsed(*old(mem), *region).end as int,
            |a: u64| 1u64,
        ),
{
    let ghost m0 = *mem;
    let ghost ok = accepted(m0);
    let offset_region = mem.parse(region);
    let start = offset_region.start;
    let end = offset_region.end;
    let ghost s = start as int;
    let ghost e = end as int;
    let b0 = march_up(mem, start, end, 0, None, 0);
    let ghost m1 = *mem;
    proof {
        assert(accepted(m1) =~= ok);
    }
    let b1 = march_up(mem, start, end, b0, Some(0), 1);
    let ghost m2 = *mem;
    proof {
        assert(accepted(m2) =~= ok);
    }
    let b2 = march_down(mem, start, end, b1, 1, 0);
    let ghost m3 = *mem;
    proof {
        assert(accepted(m3) =~= ok);
    }
    let b3 = march_up(mem, start, end, b2, Some(0), 1);
    proof {
        lemma_march_c_ops(m0, m1, m2, m3, *mem, ok, s, e);
        if m0.spec_faithful() {
            lemma_march_c_faithful(m0, m1, m2, m3, *mem, s, e);
        }
    }
    TestResult { bad_addrs: b3 }
}

/// Writes each accepted address with its own value and reads it back; each
/// read-back that differs from the address counts as a bad address. Memory that
/// keeps what is written shows no bad address and ends with its own address in
/// every accepted word of the region.
pub fn run_test_own_address<M: Mem>(mem: &mut M, region: &MemoryRegion) -> (r: TestResult)
    ensures
        same_layout(*old(mem), *final(mem)),
        extends(*old(mem), *final(mem)),
        follows(
            new_ops(*old(mem), *final(mem)),
            own_address_plan(
                accepted(*old(mem)),
                parsed(*old(mem), *region).start as int,
                parsed(*old(mem), *region).end as int,
            ),
        ),
        r.bad_addrs == saturated(
            mismatches(
                new_ops(*old(mem), *final(mem)),
                own_address_plan(
                    accepted(*old(mem)),
                    parsed(*old(mem), *region).start as int,
                    parsed(*old(mem), *region).end as int,
                ),
            ) as int,
        ),
        old(mem).spec_faithful() ==> r.bad_addrs == 0,
        old(mem).spec_faithful() ==> written(
            *old(mem),
            *final(mem),
            parsed(*old(mem), *region).start as int,
            parsed(*old(mem), *region).end as int,
            |a: u64| a,
        ),
{
    let ghost m0 = *mem;
    let ghost ok = accepted(m0);
    let ghost mut seg: Seq<MemOp> = Seq::empty();
    let offset_region = mem.parse(region);
    let start = offset_region.start;
    let end = offset_region.end;
    let mut bad_addrs: u64 = 0;
    let mut addr = start;
    while addr < end
        invariant
            start <= addr <= end || (end <= start && addr == start),
            ok == accepted(m0),
            same_layout(m0, *mem),
            mem.spec_ops() == m0.spec_ops() + seg,
            follows(seg, own_address_plan(ok, start as int, addr as int)),
            bad_addrs == saturated(
                mismatches(seg, own_address_plan(ok, start as int, addr as int)) as int,
            ),
            m0.spec_faithful() ==> written(m0, *mem, start as int, addr as int, |a: u64| a),
            m0.spec_faithful() ==> bad_addrs == 0,
        decreases end - addr,
    {
        let ghost before = *mem;
        let ghost mut mid = *mem;
        let ghost p0 = own_address_plan(ok, start as int, addr as int);
        let ghost mut pl = p0;
        if mem.check(addr) {
            mem.write(addr, addr);
            proof {
                lemma_follows_push(seg, pl, MemOp::Write(addr, addr), Access::Write(addr, addr));
                assert((m0.spec_ops() + seg).push(MemOp::Write(addr, addr)) =~= m0.spec_ops()
                    + seg.push(MemOp::Write(addr, addr)));
                seg = seg.push(MemOp::Write(addr, addr));
                pl = pl.push(Access::Write(addr, addr));
                mid = *mem;
            }
            let observed = mem.read(addr);
            proof {
                lemma_follows_push(seg, pl, MemOp::Read(addr, observed), Access::Read(addr, addr));
                assert((m0.spec_ops() + seg).push(MemOp::Read(addr, observed)) =~= m0.spec_ops()
                    + seg.push(MemOp::Read(addr, observed)));
                seg = seg.push(MemOp::Read(addr, observed));
                pl = pl.push(Access::Read(addr, addr));
            }
            bad_addrs = count_mismatch(bad_addrs, observed, addr);
        }
        proof {
            assert(ok(addr) == m0.spec_check(addr));
            assert(m0.spec_check(addr) == before.spec_check(addr));
            if before.spec_check(addr) {
                assert(pl =~= p0 + write_read(addr, addr));
            } else {
                assert(pl =~= p0 + Seq::<Access>::empty());
            }
            assert(own_address_plan(ok, start as int, addr + 1) == pl);
            if m0.spec_faithful() {
                assert forall|a: u64| #[trigger]
                    mem.spec_word(a) == if start <= a < addr + 1 && m0.spec_check(a) {
                        a
                    } else {
                        m0.spec_word(a)
                    } by {
                    if a != addr {
                        assert(mid.spec_word(a) == before.spec_word(a));
                        assert(before.spec_word(a) == if start <= a < addr && m0.spec_check(a) {
                            a
                        } else {
                            m0.spec_word(a)
                        });
                    }
                }
            }
        }
        addr = addr + 1;
    }
    assert(new_ops(m0, *mem) =~= seg);
    TestResult { bad_addrs }
}

/// The largest value `rand` produces.
pub const RAND_MAX: u64 = 0x7fff_ffff;

/// The value `rand` produces from `seed`.
pub open spec fn next_seed(seed: u64) -> u64 {
    ((seed * 214013 + 12345) as u64) & RAND_MAX
}

/// Whether `rand` can step from `seed` without overflow.
pub open spec fn seed_steppable(seed: u64) -> bool {
    seed * 214013 + 12345 <= u64::MAX
}

/// The seed after `n` draws from `seed`.
pub open spec fn seed_after(seed: u64, n: nat) -> u64
    decreases n,
{
    if n == 0 {
        seed
    } else {
        next_seed(seed_after(seed, (n - 1) as nat))
    }
}

/// The linear congruential generator of the pattern test: stores and returns
/// `(seed * 214013 + 12345) & RAND_MAX`.
pub fn rand(seed: &mut u64) -> (r: u64)
    requires
        seed_steppable(*old(seed)),
    ensures
        r == next_seed(*old(seed)),
        *final(seed) == r,
        r <= RAND_MAX,
{
    let s = *seed;
    let r = (s * 214013 + 12345) & RAND_MAX;
    assert(((s * 214013 + 12345) as u64) & RAND_MAX <= RAND_MAX) by (bit_vector);
    *seed = r;
    r
}

/// The pattern the random test writes at `a` in a region starting at `start`
/// when the generator starts from `seed`: the value of the draw for `a`.
pub open spec fn rand_pattern(seed: u64, start: int, a: u64) -> u64 {
    seed_after(seed, (a - start + 1) as nat)
}

/// Writes each accepted address with a fresh pseudo-random value and reads it
/// back; each read-back that differs from the value counts as a bad address. One
/// value is drawn for every address of the region, accepted or not. Memory that
/// keeps what is written shows no bad address and ends with the drawn value in
/// every accepted word of the region.
pub fn run_test_rand_num<M: Mem>(mem: &mut M, region: &MemoryRegion, seed: &mut u64) -> (r: TestResult)
    requires
        parsed_nonempty(*old(mem), *region) ==> seed_steppable(*old(seed)),
    ensures
        same_layout(*old(mem), *final(mem)),
        extends(*old(mem), *final(mem)),
        follows(
            new_ops(*old(mem), *final(mem)),
            rand_plan(
                accepted(*old(mem)),
                parsed(*old(mem), *region).start as int,
                parsed(*old(mem), *region).end as int,
                *old(seed),
            ),
        ),
        r.bad_addrs == saturated(
            mismatches(
                new_ops(*old(mem), *final(mem)),
                rand_plan(
                    accepted(*old(mem)),
                    parsed(*old(mem), *region).start as int,
                    parsed(*old(mem), *region).end as int,
                    *old(seed),
                ),
            ) as int,
        ),
        *final(seed) == seed_after(*old(seed), parsed_len(*old(mem), *region)),
        old(mem).spec_faithful() ==> r.bad_addrs == 0,
        old(mem).spec_faithful() ==> written(
            *old(mem),
            *final(mem),
            parsed(*old(mem), *region).start as int,
            parsed(*old(mem), *region).end as int,
            |a: u64| rand_pattern(*old(seed), parsed(*old(mem), *region).start as int, a),
        ),
{
    let ghost m0 = *mem;
    let ghost ok = accepted(m0);
    let ghost seed0 = *seed;
    let ghost mut seg: Seq<MemOp> = Seq::empty();
    let offset_region = mem.parse(region);
    let start = offset_region.start;
    let end = offset_region.end;
    let mut bad_addrs: u64 = 0;
    let mut addr = start;
    while addr < end
        invariant
            start <= addr <= end || (end <= start && addr == start),
            ok == accepted(m0),
            same_layout(m0, *mem),
            mem.spec_ops() == m0.spec_ops() + seg,
            follows(seg, rand_plan(ok, start as int, addr as int, seed0)),
            bad_addrs == saturated(mismatches(seg, rand_plan(ok, start as int, addr as int, seed0)) as int),
            m0.spec_faithful() ==> written(
                m0,
                *mem,
                start as int,
                addr as int,
                |a: u64| rand_pattern(seed0, start as int, a),
            ),
            m0.spec_faithful() ==> bad_addrs == 0,
            start < end ==> seed_steppable(seed0),
            *seed == seed_after(seed0, (addr - start) as nat),
            addr > start ==> *seed <= RAND_MAX,
        decreases end - addr,
    {
        let pattern = rand(seed);
        assert(pattern == rand_pattern(seed0, start as int, addr));
        let ghost before = *mem;
        let ghost mut mid = *mem;
        let ghost p0 = rand_plan(ok, start as int, addr as int, seed0);
        let ghost mut pl = p0;
        if mem.check(addr) {
            mem.write(addr, pattern);
            proof {
                lemma_follows_push(seg, pl, MemOp::Write(addr, pattern), Access::Write(addr, pattern));
                assert((m0.spec_ops() + seg).push(MemOp::Write(addr, pattern)) =~= m0.spec_ops()
                    + seg.push(MemOp::Write(addr, pattern)));
                seg = seg.push(MemOp::Write(addr, pattern));
                pl = pl.push(Access::Write(addr, pattern));
                mid = *mem;
            }
            let observed = mem.read(addr);
            proof {
                lemma_follows_push(seg, pl, MemOp::Read(addr, observed), Access::Read(addr, pattern));
                assert((m0.spec_ops() + seg).push(MemOp::Read(addr, observed)) =~= m0.spec_ops()
                    + seg.push(MemOp::Read(addr, observed)));
                seg = seg.push(MemOp::Read(addr, observed));
                pl = pl.push(Access::Read(addr, pattern));
            }
            bad_addrs = count_mismatch(bad_addrs, observed, pattern);
        }
        proof {
            assert(ok(addr) == m0.spec_check(addr));
            assert(m0.spec_check(addr) == before.spec_check(addr));
            if before.spec_check(addr) {
                assert(pl =~= p0 + write_read(addr, rand_pattern(seed0, start as int, addr)));
            } else {
                assert(pl =~= p0 + Seq::<Access>::empty());
            }
            assert(rand_plan(ok, start as int, addr + 1, seed0) == pl);
            if m0.spec_faithful() {
                assert forall|a: u64| #[trigger]
                    mem.spec_word(a) == if start <= a < addr + 1 && m0.spec_check(a) {
                        rand_pattern(seed0, start as int, a)
                    } else {
                        m0.spec_word(a)
                    } by {
                    if a != addr {
                        assert(mid.spec_word(a) == before.spec_word(a));
                        assert(before.spec_word(a) == if start <= a < addr && m0.spec_check(a) {
                            rand_pattern(seed0, start as int, a)
                        } else {
                            m0.spec_word(a)
                        });
                    }
                }
            }
        }
        addr = addr + 1;
    }
    assert(new_ops(m0, *mem) =~= seg);
    TestResult { bad_addrs }
}

/// The reports of a test run on `region` of the given kind: the region, then
/// the names of the tests in the order they run.
pub open spec fn run_log(region: MemoryRegion, kind: MemTestKind) -> Seq<LogEntry> {
    seq![
        LogEntry::Region(region.start, region.end),
        LogEntry::Test("March-C"@),
        LogEntry::Test("Pattern test, own address"@),
    ] + if kind == MemTestKind::Advanced {
        seq![LogEntry::Test("Pattern test, rand number"@)]
    } else {
        Seq::empty()
    }
}

/// The accesses of a test run of the given kind over `[start, end)`: March C,
/// the own-address test, and for `Advanced` the random test from `seed`.
pub open spec fn run_plan(
    ok: spec_fn(u64) -> bool,
    start: int,
    end: int,
    kind: MemTestKind,
    seed: u64,
) -> Seq<Access> {
    march_c_plan(ok, start, end) + own_address_plan(ok, start, end) + if kind
        == MemTestKind::Advanced {
        rand_plan(ok, start, end, seed)
    } else {
        Seq::empty()
    }
}

/// Runs the tests that `kind` selects on `region`: March C and the own-address
/// test for both kinds, and the random-pattern test for `Advanced` as well. The
/// result counts every read-back of the tests run that differs from what was
/// written. Memory that keeps what is written shows no bad address.
pub fn run_test<M: Mem, L: Logger>(
    logger: &mut L,
    mem: &mut M,
    region: &MemoryRegion,
    kind: MemTestKind,
    seed: &mut u64,
) -> (r: TestResult)
    requires
        kind == MemTestKind::Advanced && parsed_nonempty(*old(mem), *region) ==> seed_steppable(
            *old(seed),
        ),
    ensures
        final(logger).spec_log() == old(logger).spec_log() + run_log(*region, kind),
        same_layout(*old(mem), *final(mem)),
        extends(*old(mem), *final(mem)),
        follows(
            new_ops(*old(mem), *final(mem)),
            run_plan(
                accepted(*old(mem)),
                parsed(*old(mem), *region).start as int,
                parsed(*old(mem), *region).end as int,
                kind,
                *old(seed),
            ),
        ),
        r.bad_addrs == saturated(
            mismatches(
                new_ops(*old(mem), *final(mem)),
                run_plan(
                    accepted(*old(mem)),
                    parsed(*old(mem), *region).start as int,
                    parsed(*old(mem), *region).end as int,
                    kind,
                    *old(seed),
                ),
            ) as int,
        ),
        kind == MemTestKind::Advanced ==> *final(seed) == seed_after(
            *old(seed),
            parsed_len(*old(mem), *region),
        ),
        kind == MemTestKind::Basic ==> *final(seed) == *old(seed),
        old(mem).spec_faithful() ==> r.bad_addrs == 0,
        old(mem).spec_faithful() && kind == MemTestKind::Basic ==> written(
            *old(mem),
            *final(mem),
            parsed(*old(mem), *region).start as int,
            parsed(*old(mem), *region).end as int,
            |a: u64| a,
        ),
        old(mem).spec_faithful() && kind == MemTestKind::Advanced ==> written(
            *old(mem),
            *final(mem),
            parsed(*old(mem), *region).start as int,
            parsed(*old(mem), *region).end as int,
            |a: u64| rand_pattern(*old(seed), parsed(*old(mem), *region).start as int, a),
        ),
{
    let ghost m0 = *mem;
    let ghost l0 = logger.spec_log();
    let ghost seed0 = *seed;
    let ghost p = parsed(m0, *region);
    let ghost ok = accepted(m0);
    let ghost s = p.start as int;
    let ghost e = p.end as int;
    logger.log(region);
    let mut result = TestResult::new();

    logger.ui_change_test("March-C");
    result.add_assign(run_march_c(mem, region));
    let ghost m1 = *mem;
    proof {
        lemma_same_layout_region(m0, m1, *region);
    }
    logger.ui_change_test("Pattern test, own address");
    result.add_assign(run_test_own_address(mem, region));
    let ghost m2 = *mem;
    proof {
        lemma_same_layout_region(m1, m2, *region);
        lemma_extends_twice(m0, m1, m2);
        lemma_follows_concat(
            new_ops(m0, m1),
            march_c_plan(ok, s, e),
            new_ops(m1, m2),
            own_address_plan(ok, s, e),
        );
        if m0.spec_faithful() {
            lemma_written_twice(m0, m1, m2, s, e, |a: u64| 1u64, |a: u64| a);
        }
    }
    if kind == MemTestKind::Advanced {
        logger.ui_change_test("Pattern test, rand number");
        result.add_assign(run_test_rand_num(mem, region, seed));
        proof {
            lemma_same_layout_region(m2, *mem, *region);
            lemma_extends_twice(m0, m2, *mem);
            lemma_follows_concat(
                new_ops(m0, m2),
                march_c_plan(ok, s, e) + own_address_plan(ok, s, e),
                new_ops(m2, *mem),
                rand_plan(ok, s, e, seed0),
            );
            if m0.spec_faithful() {
                lemma_written_twice(
                    m0,
                    m2,
                    *mem,
                    s,
                    e,
                    |a: u64| a,
                    |a: u64| rand_pattern(seed0, s, a),
                );
            }
        }
    } else {
        proof {
            assert(march_c_plan(ok, s, e) + own_address_plan(ok, s, e) + Seq::<Access>::empty()
                =~= march_c_plan(ok, s, e) + own_address_plan(ok, s, e));
        }
    }
    proof {
        assert(logger.spec_log() =~= l0 + run_log(*region, kind));
    }
    result
}

} // verus!
