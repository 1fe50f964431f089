//! The control-flow pass. First every still-unknown address whose control
//! flow can only ever reach `NotCode` addresses is itself marked `NotCode`,
//! by iterating a monotone marking to its least fixed point. Then every
//! chain of unique concrete successors starting from a `Code` address is
//! marked `Code`, each address visited at most once across all walks.

use vstd::prelude::*;

use crate::address::{Address, ArrayByAddress};
use crate::input::Input;
use crate::memory::{Memory, OpSuccResolved};

use super::{Analysis, AnalysisKind};

verus! {

/// One successor of an instruction: a concrete address, or an unresolvable
/// destination somewhere outside the tracked space.
#[derive(Clone, Copy, Debug, PartialEq, Eq, Structural)]
pub enum SuccAddr {
    Somewhere,
    Addr(Address),
}

impl SuccAddr {
    /// The concrete address a successor holds (meaningful only for `Addr`).
    pub open spec fn spec_dst(self) -> Address {
        match self {
            SuccAddr::Addr(d) => d,
            SuccAddr::Somewhere => Address(0),
        }
    }
}

/// Whether a successor address is concrete: it is unmapped, lies in the
/// bank of its instruction, or lies in a non-fixed bank (a switchable bank
/// may hold anything, so it is conservatively treated as reachable).
pub open spec fn spec_concrete(m: Memory, bank_id: usize, dst: Address) -> bool {
    match m.spec_bank_id_at(dst.get() as int) {
        Some(i) => i == bank_id || !m.spec_banks()[i as int].spec_is_fixed(),
        None => true,
    }
}

/// Classifies one successor address by the concreteness rule.
pub open spec fn spec_determine(m: Memory, bank_id: usize, dst: Address) -> SuccAddr {
    if spec_concrete(m, bank_id, dst) {
        SuccAddr::Addr(dst)
    } else {
        SuccAddr::Somewhere
    }
}

/// Classifies an optional successor; an absent destination is unresolvable.
pub open spec fn spec_opt_determine(m: Memory, bank_id: usize, o: Option<Address>) -> SuccAddr {
    match o {
        Some(dst) => spec_determine(m, bank_id, dst),
        None => SuccAddr::Somewhere,
    }
}

/// All successors of the instruction at `a`: one or two entries, equal
/// branch targets deduplicated, `None` when no instruction can be fetched.
/// Opaque: the proofs below reason over the returned value, which
/// `get_succ_addrs` computes; only its own proof looks inside.
#[verifier::opaque]
pub open spec fn spec_succ_addrs(input: Input, a: int) -> Option<Seq<SuccAddr>> {
    let m = input.spec_memory();
    match m.spec_op_at(a) {
        None => None,
        Some(oi) => Some(
            match m.spec_resolve_op_succ(a, oi.0.spec_succ()) {
                OpSuccResolved::Normal(dst) => seq![spec_determine(m, oi.1, dst)],
                OpSuccResolved::Brk(o) => seq![spec_opt_determine(m, oi.1, o)],
                OpSuccResolved::Kil => seq![SuccAddr::Somewhere],
                OpSuccResolved::Branch { taken, not_taken } => {
                    let t = spec_determine(m, oi.1, taken);
                    let n = spec_determine(m, oi.1, not_taken);
                    if t == n {
                        seq![t]
                    } else {
                        seq![t, n]
                    }
                },
                OpSuccResolved::Jsr(dst) => seq![spec_determine(m, oi.1, dst)],
                OpSuccResolved::Rti => seq![SuccAddr::Somewhere],
                OpSuccResolved::Rts => seq![SuccAddr::Somewhere],
                OpSuccResolved::JmpAbs(dst) => seq![spec_determine(m, oi.1, dst)],
                OpSuccResolved::JmpInd(o) => seq![spec_opt_determine(m, oi.1, o)],
            },
        ),
    }
}

/// Whether every successor of the list is a concrete address classified
/// `NotCode` in `s`.
pub open spec fn spec_all_notcode(s: Seq<AnalysisKind>, succs: Seq<SuccAddr>) -> bool {
    forall|k: int|
        0 <= k < succs.len() ==> ((#[trigger] succs[k]) matches SuccAddr::Addr(d) && s[d.get()
            as int] == AnalysisKind::NotCode)
}

/// Whether the dead-flow marking applies to `a` in the array `s`: the cell
/// is still unknown, its instruction can be fetched, and every successor is
/// a concrete address already marked `NotCode`.
pub open spec fn spec_markable(input: Input, s: Seq<AnalysisKind>, a: int) -> bool {
    s[a] == AnalysisKind::Unknown && (spec_succ_addrs(input, a) matches Some(ss)
        && spec_all_notcode(s, ss))
}

/// Whether, in at most `fuel` steps, every control path from `a` dies: the
/// cell is already `NotCode`, or it is `Unknown` with a fetchable
/// instruction all of whose successors are concrete and dead in fewer
/// steps. A `Code` cell, an unfetchable cell and an unresolvable successor
/// are never dead.
pub open spec fn spec_dead_within(input: Input, base: Seq<AnalysisKind>, a: int, fuel: nat) -> bool
    decreases fuel,
{
    ||| base[a] == AnalysisKind::NotCode
    ||| (fuel > 0 && base[a] == AnalysisKind::Unknown && (spec_succ_addrs(input, a) matches Some(
        ss,
    ) && forall|k: int|
        0 <= k < ss.len() ==> ((#[trigger] ss[k]) matches SuccAddr::Addr(d) && spec_dead_within(
            input,
            base,
            d.get() as int,
            (fuel - 1) as nat,
        ))))
}

/// Whether every control path from `a` dies: the least fixed point of the
/// dead-flow marking over the array `base`.
pub open spec fn spec_dead(input: Input, base: Seq<AnalysisKind>, a: int) -> bool {
    exists|fuel: nat| spec_dead_within(input, base, a, fuel)
}

/// The classification the dead-flow marking gives an address: a still-
/// unknown cell becomes `NotCode` exactly when every control path from it
/// dies.
pub open spec fn spec_flow_dead_kind(input: Input, base: Seq<AnalysisKind>, a: int) -> AnalysisKind {
    if base[a] == AnalysisKind::Unknown && spec_dead(input, base, a) {
        AnalysisKind::NotCode
    } else {
        base[a]
    }
}

/// Deadness within a small budget is deadness within any larger budget.
proof fn lemma_dead_within_mono(input: Input, base: Seq<AnalysisKind>, a: int, f1: nat, f2: nat)
    requires
        f1 <= f2,
        spec_dead_within(input, base, a, f1),
    ensures
        spec_dead_within(input, base, a, f2),
    decreases f2,
{
    if base[a] == AnalysisKind::NotCode {
    } else {
        let ss = spec_succ_addrs(input, a).unwrap();
        assert forall|k: int| 0 <= k < ss.len() implies ((#[trigger] ss[k])
            matches SuccAddr::Addr(d) && spec_dead_within(
            input,
            base,
            d.get() as int,
            (f2 - 1) as nat,
        )) by {
            match ss[k] {
                SuccAddr::Addr(d) => {
                    lemma_dead_within_mono(
                        input,
                        base,
                        d.get() as int,
                        (f1 - 1) as nat,
                        (f2 - 1) as nat,
                    );
                },
                SuccAddr::Somewhere => {},
            }
        }
    }
}

/// A cell whose successors are all `NotCode` in an array that only extends
/// `base` by justified dead marks is itself dead in `base`.
#[verifier::rlimit(100)]
proof fn lemma_mark_dead(input: Input, base: Seq<AnalysisKind>, cur: Seq<AnalysisKind>, a: int)
    requires
        base.len() == 0x10000,
        cur.len() == 0x10000,
        0 <= a < 0x10000,
        base[a] == AnalysisKind::Unknown,
        spec_succ_addrs(input, a) matches Some(ss) && spec_all_notcode(cur, ss) && 1 <= ss.len()
            <= 2,
        forall|p: int|
            0 <= p < 0x10000 && #[trigger] cur[p] == AnalysisKind::NotCode ==> base[p]
                == AnalysisKind::NotCode || (base[p] == AnalysisKind::Unknown && spec_dead(
                input,
                base,
                p,
            )),
    ensures
        spec_dead(input, base, a),
{
    let ss = spec_succ_addrs(input, a).unwrap();
    // A fuel that suffices for one successor.
    let fuel_for = |k: int| -> nat {
        let d = ss[k].spec_dst().get() as int;
        if base[d] == AnalysisKind::NotCode {
            0nat
        } else {
            choose|f: nat| spec_dead_within(input, base, d, f)
        }
    };
    assert forall|k: int| 0 <= k < ss.len() implies spec_dead_within(
        input,
        base,
        (#[trigger] ss[k]).spec_dst().get() as int,
        fuel_for(k),
    ) by {
        let d = ss[k].spec_dst().get() as int;
        if base[d] != AnalysisKind::NotCode {
            assert(cur[d] == AnalysisKind::NotCode);
            assert(spec_dead(input, base, d));
        }
    }
    // The successor list has one or two entries; take a common bound.
    let f0 = fuel_for(0);
    let f1 = if ss.len() == 2 {
        fuel_for(1)
    } else {
        0nat
    };
    let fm = if f0 >= f1 {
        f0
    } else {
        f1
    };
    assert forall|k: int| 0 <= k < ss.len() implies ((#[trigger] ss[k]) matches SuccAddr::Addr(d)
        && spec_dead_within(input, base, d.get() as int, fm)) by {
        if k == 0 {
            lemma_dead_within_mono(input, base, ss[0].spec_dst().get() as int, f0, fm);
        } else {
            lemma_dead_within_mono(input, base, ss[1].spec_dst().get() as int, f1, fm);
        }
    }
    assert(spec_dead_within(input, base, a, fm + 1));
}

/// Every cell dead in `base` is `NotCode` in any stable extension of
/// `base`: completeness of the fixed-point iteration.
proof fn lemma_dead_marked(
    input: Input,
    base: Seq<AnalysisKind>,
    fin: Seq<AnalysisKind>,
    a: int,
    fuel: nat,
)
    requires
        base.len() == 0x10000,
        fin.len() == 0x10000,
        0 <= a < 0x10000,
        spec_dead_within(input, base, a, fuel),
        forall|p: int|
            0 <= p < 0x10000 ==> #[trigger] fin[p] == base[p] || (base[p] == AnalysisKind::Unknown
                && fin[p] == AnalysisKind::NotCode),
        forall|p: int| 0 <= p < 0x10000 ==> !spec_markable(input, fin, p),
    ensures
        fin[a] == AnalysisKind::NotCode,
    decreases fuel,
{
    if base[a] == AnalysisKind::NotCode {
        assert(fin[a] == AnalysisKind::NotCode);
    } else {
        let ss = spec_succ_addrs(input, a).unwrap();
        if fin[a] == AnalysisKind::Unknown {
            assert forall|k: int| 0 <= k < ss.len() implies ((#[trigger] ss[k])
                matches SuccAddr::Addr(d) && fin[d.get() as int] == AnalysisKind::NotCode) by {
                match ss[k] {
                    SuccAddr::Addr(d) => {
                        lemma_dead_marked(input, base, fin, d.get() as int, (fuel - 1) as nat);
                    },
                    SuccAddr::Somewhere => {},
                }
            }
            assert(spec_markable(input, fin, a));
            assert(false);
        }
    }
}

/// The number of `Unknown` cells of a classification array.
spec fn count_unknown(s: Seq<AnalysisKind>) -> int
    decreases s.len(),
{
    if s.len() == 0 {
        0
    } else {
        count_unknown(s.drop_last()) + if s.last() == AnalysisKind::Unknown {
            1int
        } else {
            0int
        }
    }
}

proof fn lemma_count_unknown_nonneg(s: Seq<AnalysisKind>)
    ensures
        count_unknown(s) >= 0,
    decreases s.len(),
{
    if s.len() > 0 {
        lemma_count_unknown_nonneg(s.drop_last());
    }
}

/// Overwriting an `Unknown` cell with a decided kind lowers the count of
/// `Unknown` cells by one.
proof fn lemma_count_unknown_update(s: Seq<AnalysisKind>, i: int, v: AnalysisKind)
    requires
        0 <= i < s.len(),
        s[i] == AnalysisKind::Unknown,
        v != AnalysisKind::Unknown,
    ensures
        count_unknown(s.update(i, v)) == count_unknown(s) - 1,
    decreases s.len(),
{
    let t = s.update(i, v);
    if i == s.len() - 1 {
        assert(t.drop_last() =~= s.drop_last());
    } else {
        assert(t.drop_last() =~= s.drop_last().update(i, v));
        lemma_count_unknown_update(s.drop_last(), i, v);
    }
}

/// The number of `false` cells of a visited map.
spec fn count_unvisited(s: Seq<bool>) -> int
    decreases s.len(),
{
    if s.len() == 0 {
        0
    } else {
        count_unvisited(s.drop_last()) + if s.last() {
            0int
        } else {
            1int
        }
    }
}

proof fn lemma_count_unvisited_nonneg(s: Seq<bool>)
    ensures
        count_unvisited(s) >= 0,
    decreases s.len(),
{
    if s.len() > 0 {
        lemma_count_unvisited_nonneg(s.drop_last());
    }
}

/// Visiting an unvisited cell lowers the count of unvisited cells by one.
proof fn lemma_count_unvisited_update(s: Seq<bool>, i: int)
    requires
        0 <= i < s.len(),
        !s[i],
    ensures
        count_unvisited(s.update(i, true)) == count_unvisited(s) - 1,
    decreases s.len(),
{
    let t = s.update(i, true);
    if i == s.len() - 1 {
        assert(t.drop_last() =~= s.drop_last());
    } else {
        assert(t.drop_last() =~= s.drop_last().update(i, true));
        lemma_count_unvisited_update(s.drop_last(), i);
    }
}

proof fn lemma_count_unvisited_le_len(s: Seq<bool>)
    ensures
        count_unvisited(s) <= s.len(),
    decreases s.len(),
{
    if s.len() > 0 {
        lemma_count_unvisited_le_len(s.drop_last());
    }
}

/// Classifies one successor address by the concreteness rule.
fn determine_succ(memory: &Memory, bank_id: usize, dst: Address) -> (r: SuccAddr)
    requires
        memory.wf(),
    ensures
        r == spec_determine(*memory, bank_id, dst),
{
    let ok = match memory.find_bank_id(dst) {
        Some(dst_bank_id) => dst_bank_id == bank_id || !memory.banks()[dst_bank_id].is_fixed(),
        None => true,
    };
    if ok {
        SuccAddr::Addr(dst)
    } else {
        SuccAddr::Somewhere
    }
}

/// All successors (at most two, without duplicates) of the instruction at
/// `addr`, or `None` when no instruction can be fetched there.
#[verifier::rlimit(100)]
fn get_succ_addrs(input: &Input, addr: Address) -> (r: Option<Vec<SuccAddr>>)
    requires
        input.wf(),
    ensures
        r is Some <==> spec_succ_addrs(*input, addr.get() as int) is Some,
        r matches Some(v) ==> spec_succ_addrs(*input, addr.get() as int) == Some(v@) && 1
            <= v@.len() <= 2,
{
    proof {
        reveal(spec_succ_addrs);
    }
    let memory = input.memory();
    let (op, bank_id) = match memory.fetch_op(addr) {
        Ok(p) => p,
        Err(_) => {
            return None;
        },
    };

    let mut res: Vec<SuccAddr> = Vec::new();
    match memory.resolve_op_succ(addr, op.succ()) {
        OpSuccResolved::Normal(dst) => res.push(determine_succ(memory, bank_id, dst)),
        OpSuccResolved::Brk(dst_opt) => {
            match dst_opt {
                Some(dst) => res.push(determine_succ(memory, bank_id, dst)),
                None => res.push(SuccAddr::Somewhere),
            }
        },
        OpSuccResolved::Kil => res.push(SuccAddr::Somewhere),
        OpSuccResolved::Branch { taken, not_taken } => {
            // The taken and not-taken destinations coincide for a branch
            // onto itself.
            let t = determine_succ(memory, bank_id, taken);
            let n = determine_succ(memory, bank_id, not_taken);
            res.push(t);
            if t != n {
                res.push(n);
            }
        },
        OpSuccResolved::Jsr(dst) => res.push(determine_succ(memory, bank_id, dst)),
        OpSuccResolved::Rti => res.push(SuccAddr::Somewhere),
        OpSuccResolved::Rts => res.push(SuccAddr::Somewhere),
        OpSuccResolved::JmpAbs(dst) => res.push(determine_succ(memory, bank_id, dst)),
        OpSuccResolved::JmpInd(dst_opt) => {
            match dst_opt {
                Some(dst) => res.push(determine_succ(memory, bank_id, dst)),
                None => res.push(SuccAddr::Somewhere),
            }
        },
    }
    proof {
        reveal(spec_succ_addrs);
        assert(res@ =~= spec_succ_addrs(*input, addr.get() as int).unwrap());
    }
    Some(res)
}

/// Whether every successor in `succs` is a concrete address already marked
/// `NotCode`.
fn all_succs_notcode(analysis: &Analysis, succs: &Vec<SuccAddr>) -> (r: bool)
    requires
        analysis.wf(),
    ensures
        r == spec_all_notcode(analysis@, succs@),
{
    let mut i: usize = 0;
    while i < succs.len()
        invariant
            i <= succs@.len(),
            analysis.wf(),
            forall|k: int|
                0 <= k < i ==> ((#[trigger] succs@[k]) matches SuccAddr::Addr(d) && analysis@[
                    d.get() as int
                ] == AnalysisKind::NotCode),
        decreases succs@.len() - i,
    {
        match succs[i] {
            SuccAddr::Somewhere => {
                return false;
            },
            SuccAddr::Addr(dst) => {
                if *analysis.get(dst) != AnalysisKind::NotCode {
                    return false;
                }
            },
        }
        i = i + 1;
    }
    true
}

/// Marks a still-unknown address as `NotCode` exactly when every control
/// path from it dies: the least fixed point of the dead-flow marking,
/// reached by iterating until nothing changes.
#[verifier::loop_isolation(false)]
#[verifier::rlimit(100)]
pub fn analyze_notcode(analysis: &mut Analysis, input: &Input)
    requires
        old(analysis).wf(),
        input.wf(),
    ensures
        final(analysis).wf(),
        forall|p: int|
            0 <= p < 0x10000 ==> final(analysis)@[p] == spec_flow_dead_kind(
                *input,
                old(analysis)@,
                p,
            ),
{
    loop
        invariant
            analysis.wf(),
            forall|p: int|
                0 <= p < 0x10000 ==> analysis@[p] == old(analysis)@[p] || (old(analysis)@[p]
                    == AnalysisKind::Unknown && analysis@[p] == AnalysisKind::NotCode),
            forall|p: int|
                0 <= p < 0x10000 && #[trigger] analysis@[p] == AnalysisKind::NotCode ==> old(
                    analysis,
                )@[p] == AnalysisKind::NotCode || (old(analysis)@[p] == AnalysisKind::Unknown
                    && spec_dead(*input, old(analysis)@, p)),
        decreases count_unknown(analysis@) + 1,
    {
        proof {
            lemma_count_unknown_nonneg(analysis@);
        }
        let ghost pass_start = analysis@;
        let mut changed = false;
        let mut a: usize = 0;
        while a < 0x10000
            invariant
                a <= 0x10000,
                analysis.wf(),
                forall|p: int|
                    0 <= p < 0x10000 ==> analysis@[p] == old(analysis)@[p] || (old(analysis)@[p]
                        == AnalysisKind::Unknown && analysis@[p] == AnalysisKind::NotCode),
                forall|p: int|
                    0 <= p < 0x10000 && #[trigger] analysis@[p] == AnalysisKind::NotCode ==> old(
                        analysis,
                    )@[p] == AnalysisKind::NotCode || (old(analysis)@[p] == AnalysisKind::Unknown
                        && spec_dead(*input, old(analysis)@, p)),
                count_unknown(analysis@) <= count_unknown(pass_start),
                changed ==> count_unknown(analysis@) < count_unknown(pass_start),
                !changed ==> analysis@ == pass_start,
                !changed ==> forall|p: int| 0 <= p < a ==> !spec_markable(*input, pass_start, p),
            decreases 0x10000 - a,
        {
            let addr = Address::new(a as u16);
            if *analysis.get(addr) == AnalysisKind::Unknown {
                match get_succ_addrs(input, addr) {
                    Some(succs) => {
                        if all_succs_notcode(analysis, &succs) {
                            proof {
                                lemma_mark_dead(*input, old(analysis)@, analysis@, a as int);
                                lemma_count_unknown_update(
                                    analysis@,
                                    addr.get() as int,
                                    AnalysisKind::NotCode,
                                );
                            }
                            analysis.set(addr, AnalysisKind::NotCode);
                            changed = true;
                        }
                    },
                    None => {},
                }
            }
            a = a + 1;
        }
        if !changed {
            proof {
                // The final sweep found nothing markable, so the array is a
                // fixed point; every dead cell was therefore marked.
                assert forall|p: int| 0 <= p < 0x10000 implies analysis@[p] == spec_flow_dead_kind(
                    *input,
                    old(analysis)@,
                    p,
                ) by {
                    if old(analysis)@[p] == AnalysisKind::Unknown && spec_dead(
                        *input,
                        old(analysis)@,
                        p,
                    ) {
                        let fuel = choose|f: nat|
                            spec_dead_within(*input, old(analysis)@, p, f);
                        lemma_dead_marked(*input, old(analysis)@, analysis@, p, fuel);
                    }
                }
            }
            break ;
        }
        proof {
            lemma_count_unknown_nonneg(analysis@);
            assert(count_unknown(analysis@) < count_unknown(pass_start));
        }
    }
}

/// One step of the code walk over the array `s`: the unique concrete
/// successor of the instruction at `a` that is not `NotCode`, when every
/// successor is concrete and exactly one of them is not `NotCode`.
pub open spec fn spec_unique_succ(input: Input, s: Seq<AnalysisKind>, a: int) -> Option<Address> {
    match spec_succ_addrs(input, a) {
        None => None,
        Some(ss) => {
            if ss.len() == 1 {
                match ss[0] {
                    SuccAddr::Somewhere => None,
                    SuccAddr::Addr(d) => {
                        if s[d.get() as int] != AnalysisKind::NotCode {
                            Some(d)
                        } else {
                            None
                        }
                    },
                }
            } else {
                match (ss[0], ss[1]) {
                    (SuccAddr::Addr(d0), SuccAddr::Addr(d1)) => {
                        let l0 = s[d0.get() as int] != AnalysisKind::NotCode;
                        let l1 = s[d1.get() as int] != AnalysisKind::NotCode;
                        if l0 && !l1 {
                            Some(d0)
                        } else if !l0 && l1 {
                            Some(d1)
                        } else {
                            None
                        }
                    },
                    _ => None,
                }
            }
        },
    }
}

/// The walk step reads only the successor lists and which cells are
/// `NotCode`; two arrays agreeing on their `NotCode` cells take the same
/// steps.
#[verifier::rlimit(100)]
proof fn lemma_unique_succ_same_notcode(
    input: Input,
    s1: Seq<AnalysisKind>,
    s2: Seq<AnalysisKind>,
    a: int,
)
    requires
        s1.len() == 0x10000,
        s2.len() == 0x10000,
        forall|q: int|
            0 <= q < s1.len() ==> ((#[trigger] s1[q] == AnalysisKind::NotCode) <==> s2[q]
                == AnalysisKind::NotCode),
    ensures
        spec_unique_succ(input, s1, a) == spec_unique_succ(input, s2, a),
{
    match spec_succ_addrs(input, a) {
        None => {},
        Some(ss) => {
            if ss.len() == 1 {
                match ss[0] {
                    SuccAddr::Somewhere => {},
                    SuccAddr::Addr(d) => {
                        assert(s1[d.get() as int] == AnalysisKind::NotCode <==> s2[d.get() as int]
                            == AnalysisKind::NotCode);
                    },
                }
            } else {
                match (ss[0], ss[1]) {
                    (SuccAddr::Addr(d0), SuccAddr::Addr(d1)) => {
                        assert(s1[d0.get() as int] == AnalysisKind::NotCode <==> s2[d0.get()
                            as int] == AnalysisKind::NotCode);
                        assert(s1[d1.get() as int] == AnalysisKind::NotCode <==> s2[d1.get()
                            as int] == AnalysisKind::NotCode);
                    },
                    _ => {},
                }
            }
        },
    }
}

/// Whether the walk over `base` leads from `src` to `p` in at most `fuel`
/// unique-successor steps.
pub open spec fn spec_reach_within(
    input: Input,
    base: Seq<AnalysisKind>,
    src: int,
    p: int,
    fuel: nat,
) -> bool
    decreases fuel,
{
    ||| src == p
    ||| (fuel > 0 && (spec_unique_succ(input, base, src) matches Some(d) && spec_reach_within(
        input,
        base,
        d.get() as int,
        p,
        (fuel - 1) as nat,
    )))
}

/// Whether `p` is reachable from some `Code` cell of `base` by
/// unique-successor steps.
pub open spec fn spec_code_reach(input: Input, base: Seq<AnalysisKind>, p: int) -> bool {
    exists|src: int, fuel: nat|
        0 <= src < 0x10000 && base[src] == AnalysisKind::Code && spec_reach_within(
            input,
            base,
            src,
            p,
            fuel,
        )
}

/// Extending a walk by one step keeps it a walk.
proof fn lemma_reach_step(
    input: Input,
    base: Seq<AnalysisKind>,
    src: int,
    mid: int,
    dst: int,
    fuel: nat,
)
    requires
        spec_reach_within(input, base, src, mid, fuel),
        spec_unique_succ(input, base, mid) matches Some(d) && d.get() == dst,
    ensures
        spec_reach_within(input, base, src, dst, fuel + 1),
    decreases fuel,
{
    if src == mid {
        assert(spec_reach_within(input, base, dst, dst, fuel));
    } else {
        let d0 = spec_unique_succ(input, base, src).unwrap();
        lemma_reach_step(input, base, d0.get() as int, mid, dst, (fuel - 1) as nat);
    }
}

/// The unique concrete successor of the `Code` instruction at `addr` that
/// is not `NotCode`, when there is exactly one.
#[verifier::rlimit(100)]
fn get_unique_succ_addr(analysis: &Analysis, input: &Input, addr: Address) -> (r: Option<Address>)
    requires
        analysis.wf(),
        input.wf(),
    ensures
        r == spec_unique_succ(*input, analysis@, addr.get() as int),
{
    let succs = match get_succ_addrs(input, addr) {
        Some(v) => v,
        None => {
            return None;
        },
    };

    // Every successor must be concrete, and of the destinations not yet
    // known to be data exactly one must remain.
    if succs.len() == 1 {
        match succs[0] {
            SuccAddr::Somewhere => None,
            SuccAddr::Addr(d) => {
                if *analysis.get(d) != AnalysisKind::NotCode {
                    Some(d)
                } else {
                    None
                }
            },
        }
    } else {
        match (succs[0], succs[1]) {
            (SuccAddr::Addr(d0), SuccAddr::Addr(d1)) => {
                let l0 = *analysis.get(d0) != AnalysisKind::NotCode;
                let l1 = *analysis.get(d1) != AnalysisKind::NotCode;
                if l0 && !l1 {
                    Some(d0)
                } else if !l0 && l1 {
                    Some(d1)
                } else {
                    None
                }
            },
            _ => None,
        }
    }
}

/// One walk of the code pass, simulated: from `src`, while the unique live
/// successor over `orig` exists and is unvisited, it is marked visited and
/// `Code` and the walk advances. The walk steps are taken over `orig`
/// because the pass never adds a `NotCode` cell, and the step reads only
/// the `NotCode` set. The fuel only bounds the recursion; every step visits
/// a fresh cell, so a budget of the address-space size is never exhausted.
pub open spec fn spec_walk(
    input: Input,
    orig: Seq<AnalysisKind>,
    s: Seq<AnalysisKind>,
    v: Seq<bool>,
    src: int,
    fuel: nat,
) -> (Seq<AnalysisKind>, Seq<bool>)
    decreases fuel,
{
    if fuel == 0 {
        (s, v)
    } else {
        match spec_unique_succ(input, orig, src) {
            None => (s, v),
            Some(d) => {
                if v[d.get() as int] {
                    (s, v)
                } else {
                    spec_walk(
                        input,
                        orig,
                        s.update(d.get() as int, AnalysisKind::Code),
                        v.update(d.get() as int, true),
                        d.get() as int,
                        (fuel - 1) as nat,
                    )
                }
            },
        }
    }
}

/// The classification and visited map after the code pass has scanned the
/// addresses below `k` in ascending order: an unvisited `Code` address is
/// visited and walked; any other unvisited address is merely visited.
pub open spec fn spec_code_walk_upto(input: Input, orig: Seq<AnalysisKind>, k: int) -> (
    Seq<AnalysisKind>,
    Seq<bool>,
)
    decreases k,
{
    if k <= 0 {
        (orig, Seq::new(0x10000, |p: int| false))
    } else {
        let sv = spec_code_walk_upto(input, orig, k - 1);
        if sv.1[k - 1] {
            sv
        } else {
            let v1 = sv.1.update(k - 1, true);
            if sv.0[k - 1] == AnalysisKind::Code {
                spec_walk(input, orig, sv.0, v1, k - 1, 0x10000)
            } else {
                (sv.0, v1)
            }
        }
    }
}

/// The classification the whole code pass leaves behind.
pub open spec fn spec_code_walk_kinds(input: Input, orig: Seq<AnalysisKind>) -> Seq<AnalysisKind> {
    spec_code_walk_upto(input, orig, 0x10000).0
}

/// Marks addresses reached by a chain of unique concrete successors from a
/// `Code` address as `Code`. Each address is visited at most once across
/// all walks, which protects the walks against cycles; a walk therefore
/// stops early at any address an earlier scan already visited.
#[verifier::loop_isolation(false)]
#[verifier::rlimit(100)]
pub fn analyze_code(analysis: &mut Analysis, input: &Input)
    requires
        old(analysis).wf(),
        input.wf(),
    ensures
        final(analysis).wf(),
        forall|p: int|
            0 <= p < 0x10000 ==> final(analysis)@[p] == old(analysis)@[p] || (old(analysis)@[p]
                == AnalysisKind::Unknown && final(analysis)@[p] == AnalysisKind::Code),
        // every address marked here is reachable from a previously-Code
        // address by unique-successor steps
        forall|p: int|
            0 <= p < 0x10000 && final(analysis)@[p] == AnalysisKind::Code && old(analysis)@[p]
                != AnalysisKind::Code ==> spec_code_reach(*input, old(analysis)@, p),
        // exactly the result of the ascending scan with its walks
        final(analysis)@ == spec_code_walk_kinds(*input, old(analysis)@),
{
    let mut visited: ArrayByAddress<bool> = ArrayByAddress::new(false);
    proof {
        assert(visited@ =~= Seq::new(0x10000, |p: int| false));
    }
    let mut a: usize = 0;
    while a < 0x10000
        invariant
            a <= 0x10000,
            analysis.wf(),
            visited.wf(),
            analysis@ == spec_code_walk_upto(*input, old(analysis)@, a as int).0,
            visited@ == spec_code_walk_upto(*input, old(analysis)@, a as int).1,
            forall|p: int|
                0 <= p < 0x10000 ==> analysis@[p] == old(analysis)@[p] || (old(analysis)@[p]
                    == AnalysisKind::Unknown && analysis@[p] == AnalysisKind::Code),
            forall|p: int|
                0 <= p < 0x10000 && #[trigger] analysis@[p] == AnalysisKind::Code && old(
                    analysis,
                )@[p] != AnalysisKind::Code ==> spec_code_reach(*input, old(analysis)@, p),
        decreases 0x10000 - a,
    {
        let addr = Address::new(a as u16);
        if !*visited.get(addr) {
            visited.set(addr, true);
            if *analysis.get(addr) == AnalysisKind::Code {
                let ghost walk_s = analysis@;
                let ghost walk_v = visited@;
                let ghost mut fuel_left: nat = 0x10000nat;
                let mut src = addr;
                loop
                    invariant
                        analysis.wf(),
                        visited.wf(),
                        analysis@[src.get() as int] == AnalysisKind::Code,
                        old(analysis)@[src.get() as int] == AnalysisKind::Code || spec_code_reach(
                            *input,
                            old(analysis)@,
                            src.get() as int,
                        ),
                        spec_walk(*input, old(analysis)@, walk_s, walk_v, a as int, 0x10000)
                            == spec_walk(
                            *input,
                            old(analysis)@,
                            analysis@,
                            visited@,
                            src.get() as int,
                            fuel_left,
                        ),
                        fuel_left + count_unvisited(walk_v) - count_unvisited(visited@)
                            == 0x10000,
                        count_unvisited(visited@) <= count_unvisited(walk_v),
                        forall|p: int|
                            0 <= p < 0x10000 ==> analysis@[p] == old(analysis)@[p] || (old(
                                analysis,
                            )@[p] == AnalysisKind::Unknown && analysis@[p] == AnalysisKind::Code),
                        forall|p: int|
                            0 <= p < 0x10000 && #[trigger] analysis@[p] == AnalysisKind::Code
                                && old(analysis)@[p] != AnalysisKind::Code ==> spec_code_reach(
                                *input,
                                old(analysis)@,
                                p,
                            ),
                    decreases count_unvisited(visited@) + 1,
                {
                    proof {
                        lemma_count_unvisited_nonneg(visited@);
                        lemma_count_unvisited_le_len(walk_v);
                    }
                    let dst = match get_unique_succ_addr(analysis, input, src) {
                        Some(d) => d,
                        None => {
                            proof {
                                // The step over the original array also
                                // stops here, with any remaining fuel.
                                lemma_unique_succ_same_notcode(
                                    *input,
                                    analysis@,
                                    old(analysis)@,
                                    src.get() as int,
                                );
                            }
                            break ;
                        },
                    };
                    proof {
                        // The walk step is the same over the original
                        // array: this pass never adds a NotCode cell.
                        lemma_unique_succ_same_notcode(
                            *input,
                            analysis@,
                            old(analysis)@,
                            src.get() as int,
                        );
                        // The newly reached address is code-reachable.
                        if old(analysis)@[src.get() as int] == AnalysisKind::Code {
                            assert(spec_reach_within(
                                *input,
                                old(analysis)@,
                                dst.get() as int,
                                dst.get() as int,
                                0nat,
                            ));
                            assert(spec_reach_within(
                                *input,
                                old(analysis)@,
                                src.get() as int,
                                dst.get() as int,
                                1nat,
                            ));
                            assert(spec_code_reach(*input, old(analysis)@, dst.get() as int));
                        } else {
                            let (s0, f0) = choose|s0: int, f0: nat|
                                0 <= s0 < 0x10000 && old(analysis)@[s0] == AnalysisKind::Code
                                    && spec_reach_within(
                                    *input,
                                    old(analysis)@,
                                    s0,
                                    src.get() as int,
                                    f0,
                                );
                            lemma_reach_step(
                                *input,
                                old(analysis)@,
                                s0,
                                src.get() as int,
                                dst.get() as int,
                                f0,
                            );
                            assert(spec_code_reach(*input, old(analysis)@, dst.get() as int));
                        }
                    }
                    if *visited.get(dst) {
                        break ;
                    }
                    proof {
                        // A fresh cell is visited, so the fuel budget has
                        // not run out.
                        lemma_count_unvisited_update(visited@, dst.get() as int);
                        lemma_count_unvisited_nonneg(visited@.update(dst.get() as int, true));
                        assert(count_unvisited(visited@) >= 1);
                        assert(fuel_left >= 1);
                        fuel_left = (fuel_left - 1) as nat;
                    }
                    visited.set(dst, true);
                    analysis.set(dst, AnalysisKind::Code);
                    src = dst;
                }
                proof {
                    // At the walk's end the simulation has stopped in the
                    // same configuration, with or without fuel left.
                    assert(spec_walk(
                        *input,
                        old(analysis)@,
                        walk_s,
                        walk_v,
                        a as int,
                        0x10000,
                    ) == (analysis@, visited@));
                }
            }
        }
        a = a + 1;
    }
}

/// Runs the dead-flow marking to its fixed point and then the
/// unique-successor code walk.
pub fn analyze(analysis: &mut Analysis, input: &Input)
    requires
        old(analysis).wf(),
        input.wf(),
    ensures
        final(analysis).wf(),
        ({
            let mid = Seq::new(
                0x10000,
                |p: int| spec_flow_dead_kind(*input, old(analysis)@, p),
            );
            &&& forall|p: int|
                0 <= p < 0x10000 ==> final(analysis)@[p] == mid[p] || (mid[p]
                    == AnalysisKind::Unknown && final(analysis)@[p] == AnalysisKind::Code)
            &&& forall|p: int|
                0 <= p < 0x10000 && final(analysis)@[p] == AnalysisKind::Code && mid[p]
                    != AnalysisKind::Code ==> spec_code_reach(*input, mid, p)
            &&& final(analysis)@ == spec_code_walk_kinds(*input, mid)
        }),
        super::spec_preserves_decided(old(analysis)@, final(analysis)@),
{
    analyze_notcode(analysis, input);
    proof {
        let mid = Seq::new(0x10000, |p: int| spec_flow_dead_kind(*input, old(analysis)@, p));
        assert(analysis@ =~= mid);
    }
    analyze_code(analysis, input);
}

} // verus!
