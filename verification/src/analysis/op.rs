//! The per-instruction validity pass. A still-unknown address whose content
//! cannot be a plausible instruction is marked `NotCode`, and the operand
//! bytes of every `Code` instruction are marked `NotCode` unless they are
//! themselves `Code`.

use vstd::prelude::*;
use vstd::arithmetic::div_mod::{
    lemma_fundamental_div_mod,
    lemma_mod_multiples_vanish,
    lemma_small_mod,
};

use crate::address::Address;
use crate::config::AnalysisConfig;
use crate::input::Input;
use crate::memory::{FetchOpError, Memory};
use crate::op::{Op, Opcode, Operand, OpSucc};
use crate::permission::Permissions;

use super::{Analysis, AnalysisKind};

verus! {

/// Whether an instruction is forbidden outright: every unofficial opcode,
/// and brk, clv and sed unless the configuration allows them.
pub open spec fn spec_op_is_forbidden(config: AnalysisConfig, op: Op) -> bool {
    ||| !Opcode::spec_is_official(op.spec_opcode())
    ||| op == Op::Brk && !config.allow_brk()
    ||| op == Op::Clv && !config.allow_clv()
    ||| op == Op::Sed && !config.allow_sed()
}

/// Whether the operand is an indirect pointer that would wrap a page
/// boundary when dereferenced.
pub open spec fn spec_operand_is_wrapping_ptr(op: Op) -> bool {
    match op.spec_operand() {
        Operand::Ind(abs) => abs.get() % 0x100 == 0xFF,
        Operand::IndX(zp) => zp.get() == 0xFF,
        Operand::IndY(zp) => zp.get() == 0xFF,
        _ => false,
    }
}

/// Whether an instruction at `a` in the bank `bank_id` has a valid
/// successor. The address after a non-control-flow instruction, and the
/// taken target of a branch, must not overflow the address space and must
/// lie in the same bank; the control-flow instructions may legitimately
/// leave the bank.
pub open spec fn spec_op_has_valid_succ(m: Memory, a: int, op: Op, bank_id: usize) -> bool {
    match op.spec_succ() {
        OpSucc::Normal(offset) => a + offset <= 0xFFFF && m.spec_bank_id_at(a + offset) == Some(
            bank_id,
        ),
        OpSucc::Branch(rel) => 0 <= a + 2 + rel <= 0xFFFF && m.spec_bank_id_at(a + 2 + rel)
            == Some(bank_id),
        _ => true,
    }
}

/// Whether no zero-page address is readable.
pub open spec fn spec_zp_all_unreadable(perms: Permissions) -> bool {
    forall|z: int| 0 <= z < 0x100 ==> !(#[trigger] perms@[z]).is_readable()
}

/// Whether no zero-page address is writable.
pub open spec fn spec_zp_all_unwritable(perms: Permissions) -> bool {
    forall|z: int| 0 <= z < 0x100 ==> !(#[trigger] perms@[z]).is_writable()
}

/// Whether none of the 256 addresses `base + i` (wrapping around the
/// address space) is readable.
pub open spec fn spec_page_unreadable(perms: Permissions, base: int) -> bool {
    forall|x: int|
        0 <= x < 0x10000 && (x - base) % 0x10000 < 0x100 ==> !(#[trigger] perms@[x]).is_readable()
}

/// Whether none of the 256 addresses `base + i` (wrapping around the
/// address space) is writable.
pub open spec fn spec_page_unwritable(perms: Permissions, base: int) -> bool {
    forall|x: int|
        0 <= x < 0x10000 && (x - base) % 0x10000 < 0x100 ==> !(#[trigger] perms@[x]).is_writable()
}

/// Whether the instruction reads memory and every candidate read address is
/// unreadable. Reading covers the indirect-pointer bytes but not the
/// instruction fetch itself; an indexed operand may touch any address of
/// its page or of the zero page.
pub open spec fn spec_op_reads_unreadable(perms: Permissions, op: Op) -> bool {
    let is_read = Opcode::spec_is_read(op.spec_opcode());
    match op.spec_operand() {
        Operand::Ind(ptr) => !perms@[ptr.get() as int].is_readable() && !perms@[(ptr.get() + 1)
            % 0x10000].is_readable(),
        Operand::IndX(_) => spec_zp_all_unreadable(perms),
        Operand::IndY(zp) => !perms@[zp.get() as int].is_readable() && !perms@[(zp.get() + 1)
            % 0x100].is_readable(),
        Operand::Imp | Operand::Acc | Operand::Imm(_) | Operand::Rel(_) => false,
        Operand::Zp(z) => is_read && !perms@[z.get() as int].is_readable(),
        Operand::ZpX(_) | Operand::ZpY(_) => is_read && spec_zp_all_unreadable(perms),
        Operand::Abs(abs) => is_read && !perms@[abs.get() as int].is_readable(),
        Operand::AbsX(abs) | Operand::AbsY(abs) => is_read && spec_page_unreadable(
            perms,
            abs.get() as int,
        ),
    }
}

/// Whether the instruction writes memory and every candidate write address
/// is unwritable. Indirect modes pin no write address down and never fire
/// this rule.
pub open spec fn spec_op_writes_unwritable(perms: Permissions, op: Op) -> bool {
    Opcode::spec_is_write(op.spec_opcode()) && match op.spec_operand() {
        Operand::Ind(_) | Operand::IndX(_) | Operand::IndY(_) => false,
        Operand::Imp | Operand::Acc | Operand::Imm(_) | Operand::Rel(_) => false,
        Operand::Zp(z) => !perms@[z.get() as int].is_writable(),
        Operand::ZpX(_) | Operand::ZpY(_) => spec_zp_all_unwritable(perms),
        Operand::Abs(abs) => !perms@[abs.get() as int].is_writable(),
        Operand::AbsX(abs) | Operand::AbsY(abs) => spec_page_unwritable(perms, abs.get() as int),
    }
}

/// Whether a still-unknown address holding this instruction is judged not
/// to be code.
pub open spec fn spec_is_invalid_op(
    input: Input,
    config: AnalysisConfig,
    a: int,
    op: Op,
    bank_id: usize,
) -> bool {
    ||| spec_op_is_forbidden(config, op)
    ||| spec_operand_is_wrapping_ptr(op)
    ||| !spec_op_has_valid_succ(input.spec_memory(), a, op, bank_id)
    ||| spec_op_reads_unreadable(input.spec_permissions(), op)
    ||| spec_op_writes_unwritable(input.spec_permissions(), op)
}

/// The classification the validity sweep gives an address: only a
/// still-unknown address changes, to `NotCode`, when its instruction is
/// truncated at the end of its bank or decodes to an invalid instruction.
pub open spec fn spec_invalid_kind(
    input: Input,
    config: AnalysisConfig,
    a: int,
    prev: AnalysisKind,
) -> AnalysisKind {
    if prev != AnalysisKind::Unknown {
        prev
    } else if input.spec_memory().spec_op_truncated(a) {
        AnalysisKind::NotCode
    } else {
        match input.spec_memory().spec_op_at(a) {
            Some(oi) => {
                if spec_is_invalid_op(input, config, a, oi.0, oi.1) {
                    AnalysisKind::NotCode
                } else {
                    prev
                }
            },
            None => prev,
        }
    }
}

/// How many bytes after `a` belong to the instruction starting at `a`: its
/// full length when the bank holds it whole, the available prefix when it
/// is truncated, and one (no extra bytes) when no bank covers `a`.
pub open spec fn spec_operand_span(m: Memory, a: int) -> int {
    match m.spec_op_at(a) {
        Some(oi) => oi.0.spec_len(),
        None => {
            match m.spec_bank_id_at(a) {
                Some(i) => m.spec_avail_at(a, i as int),
                None => 1,
            }
        },
    }
}

/// Whether `p` lies strictly inside the span of a `Code` instruction
/// starting at some address below `bound`.
pub open spec fn spec_operand_pos_upto(
    m: Memory,
    base: Seq<AnalysisKind>,
    p: int,
    bound: int,
) -> bool {
    exists|a: int|
        0 <= a < bound && base[a] == AnalysisKind::Code && a < p < a + #[trigger] spec_operand_span(
            m,
            a,
        )
}

/// The classification the operand-exclusion sweep gives an address: a
/// still-unknown byte inside the span of a `Code` instruction becomes
/// `NotCode`; every other cell is unchanged.
pub open spec fn spec_operand_kind(m: Memory, base: Seq<AnalysisKind>, p: int) -> AnalysisKind {
    if base[p] != AnalysisKind::Unknown {
        base[p]
    } else if spec_operand_pos_upto(m, base, p, 0x10000) {
        AnalysisKind::NotCode
    } else {
        AnalysisKind::Unknown
    }
}

/// Raising the bound of the operand-position search by one adds exactly the
/// span of the instruction at the old bound.
proof fn lemma_pos_upto_step(m: Memory, base: Seq<AnalysisKind>, p: int, bound: int)
    requires
        bound >= 0,
    ensures
        spec_operand_pos_upto(m, base, p, bound + 1) <==> (spec_operand_pos_upto(
            m,
            base,
            p,
            bound,
        ) || (base[bound] == AnalysisKind::Code && bound < p < bound + spec_operand_span(
            m,
            bound,
        ))),
{
    if spec_operand_pos_upto(m, base, p, bound + 1) {
        let a = choose|a: int|
            0 <= a < bound + 1 && base[a] == AnalysisKind::Code && a < p < a
                + #[trigger] spec_operand_span(m, a);
        if a < bound {
            assert(0 <= a < bound && base[a] == AnalysisKind::Code && a < p < a
                + spec_operand_span(m, a));
            assert(spec_operand_pos_upto(m, base, p, bound));
        }
    }
    if spec_operand_pos_upto(m, base, p, bound) {
        let a = choose|a: int|
            0 <= a < bound && base[a] == AnalysisKind::Code && a < p < a
                + #[trigger] spec_operand_span(m, a);
        assert(spec_operand_pos_upto(m, base, p, bound + 1));
    }
    if base[bound] == AnalysisKind::Code && bound < p < bound + spec_operand_span(m, bound) {
        assert(spec_operand_pos_upto(m, base, p, bound + 1));
    }
}

/// Wrapping `i` addresses past `base` lands on an address whose wrapped
/// distance from `base` is `i`.
proof fn lemma_wrapped_page_dist(base: int, i: int)
    requires
        0 <= base < 0x10000,
        0 <= i < 0x100,
    ensures
        ((base + i) % 0x10000 - base) % 0x10000 == i,
{
    let m = 0x10000;
    let s = (base + i) % m;
    lemma_fundamental_div_mod(base + i, m);
    let q = (base + i) / m;
    assert(s - base == i - m * q);
    lemma_mod_multiples_vanish(-q, i, m);
    lemma_small_mod(i as nat, m as nat);
}

/// No other address has wrapped distance `i` from `base`.
proof fn lemma_wrapped_page_unique(base: int, i: int, y: int)
    requires
        0 <= base < 0x10000,
        0 <= i < 0x100,
        0 <= y < 0x10000,
        (y - base) % 0x10000 == i,
    ensures
        y == (base + i) % 0x10000,
{
    let m = 0x10000;
    let s = (base + i) % m;
    lemma_fundamental_div_mod(base + i, m);
    let q = (base + i) / m;
    lemma_fundamental_div_mod(y - base, m);
    let p = (y - base) / m;
    assert(y == m * p + i + base);
    assert(y == m * (p + q) + s);
    lemma_mod_multiples_vanish(p + q, s, m);
    lemma_small_mod(y as nat, m as nat);
    lemma_small_mod(s as nat, m as nat);
}

/// Whether no zero-page address is readable.
fn zp_all_unreadable(perms: &Permissions) -> (r: bool)
    requires
        perms.wf(),
    ensures
        r == spec_zp_all_unreadable(*perms),
{
    let mut z: usize = 0;
    while z < 0x100
        invariant
            z <= 0x100,
            perms.wf(),
            forall|y: int| 0 <= y < z ==> !(#[trigger] perms@[y]).is_readable(),
        decreases 0x100 - z,
    {
        if perms.get(Address::new(z as u16)).is_readable() {
            return false;
        }
        z = z + 1;
    }
    true
}

/// Whether no zero-page address is writable.
fn zp_all_unwritable(perms: &Permissions) -> (r: bool)
    requires
        perms.wf(),
    ensures
        r == spec_zp_all_unwritable(*perms),
{
    let mut z: usize = 0;
    while z < 0x100
        invariant
            z <= 0x100,
            perms.wf(),
            forall|y: int| 0 <= y < z ==> !(#[trigger] perms@[y]).is_writable(),
        decreases 0x100 - z,
    {
        if perms.get(Address::new(z as u16)).is_writable() {
            return false;
        }
        z = z + 1;
    }
    true
}

/// Whether none of the 256 addresses of the wrapped page at `base` is
/// readable.
fn page_unreadable(perms: &Permissions, base: Address) -> (r: bool)
    requires
        perms.wf(),
    ensures
        r == spec_page_unreadable(*perms, base.get() as int),
{
    let mut i: usize = 0;
    while i < 0x100
        invariant
            i <= 0x100,
            perms.wf(),
            forall|y: int|
                0 <= y < 0x10000 && (y - base.get()) % 0x10000 < i ==> !(
                #[trigger] perms@[y]).is_readable(),
        decreases 0x100 - i,
    {
        let x = base.wrapping_add_unsigned(i);
        proof {
            lemma_wrapped_page_dist(base.get() as int, i as int);
        }
        if perms.get(x).is_readable() {
            return false;
        }
        proof {
            assert forall|y: int|
                0 <= y < 0x10000 && (y - base.get()) % 0x10000 < i + 1 implies !(
            #[trigger] perms@[y]).is_readable() by {
                if (y - base.get()) % 0x10000 == i {
                    lemma_wrapped_page_unique(base.get() as int, i as int, y);
                }
            }
        }
        i = i + 1;
    }
    proof {
        assert forall|y: int|
            0 <= y < 0x10000 && (y - base.get()) % 0x10000 < 0x100 implies !(
        #[trigger] perms@[y]).is_readable() by {
            vstd::arithmetic::div_mod::lemma_mod_bound(y - base.get(), 0x10000);
        }
    }
    true
}

/// Whether none of the 256 addresses of the wrapped page at `base` is
/// writable.
fn page_unwritable(perms: &Permissions, base: Address) -> (r: bool)
    requires
        perms.wf(),
    ensures
        r == spec_page_unwritable(*perms, base.get() as int),
{
    let mut i: usize = 0;
    while i < 0x100
        invariant
            i <= 0x100,
            perms.wf(),
            forall|y: int|
                0 <= y < 0x10000 && (y - base.get()) % 0x10000 < i ==> !(
                #[trigger] perms@[y]).is_writable(),
        decreases 0x100 - i,
    {
        let x = base.wrapping_add_unsigned(i);
        proof {
            lemma_wrapped_page_dist(base.get() as int, i as int);
        }
        if perms.get(x).is_writable() {
            return false;
        }
        proof {
            assert forall|y: int|
                0 <= y < 0x10000 && (y - base.get()) % 0x10000 < i + 1 implies !(
            #[trigger] perms@[y]).is_writable() by {
                if (y - base.get()) % 0x10000 == i {
                    lemma_wrapped_page_unique(base.get() as int, i as int, y);
                }
            }
        }
        i = i + 1;
    }
    proof {
        assert forall|y: int|
            0 <= y < 0x10000 && (y - base.get()) % 0x10000 < 0x100 implies !(
        #[trigger] perms@[y]).is_writable() by {
            vstd::arithmetic::div_mod::lemma_mod_bound(y - base.get(), 0x10000);
        }
    }
    true
}

/// Whether the instruction is forbidden outright.
fn op_is_forbidden(config: &AnalysisConfig, op: Op) -> (r: bool)
    ensures
        r == spec_op_is_forbidden(*config, op),
{
    if !op.is_official() {
        return true;
    }
    if matches!(op, Op::Brk) && !config.allow_brk() {
        return true;
    }
    if matches!(op, Op::Clv) && !config.allow_clv() {
        return true;
    }
    if matches!(op, Op::Sed) && !config.allow_sed() {
        return true;
    }
    false
}

/// Whether the operand is an indirect pointer that would wrap a page.
fn operand_is_wrapping_ptr(op: Op) -> (r: bool)
    ensures
        r == spec_operand_is_wrapping_ptr(op),
{
    match op.operand() {
        Operand::Ind(abs) => abs.get() % 0x100 == 0xFF,
        Operand::IndX(zp) => zp.get() == 0xFF,
        Operand::IndY(zp) => zp.get() == 0xFF,
        _ => false,
    }
}

/// Whether the instruction at `addr` in bank `bank_id` has a valid
/// successor address.
fn op_has_valid_succ(memory: &Memory, addr: Address, op: Op, bank_id: usize) -> (r: bool)
    requires
        memory.wf(),
    ensures
        r == spec_op_has_valid_succ(*memory, addr.get() as int, op, bank_id),
{
    match op.succ() {
        OpSucc::Normal(offset) => {
            match addr.checked_add_unsigned(offset) {
                Some(succ) => {
                    match memory.find_bank_id(succ) {
                        Some(id) => id == bank_id,
                        None => false,
                    }
                },
                None => false,
            }
        },
        OpSucc::Branch(rel) => {
            match addr.checked_add_signed(rel as isize + 2) {
                Some(succ) => {
                    match memory.find_bank_id(succ) {
                        Some(id) => id == bank_id,
                        None => false,
                    }
                },
                None => false,
            }
        },
        _ => true,
    }
}

/// Whether the instruction reads memory and every candidate read address is
/// unreadable.
fn op_reads_unreadable_addr(perms: &Permissions, op: Op) -> (r: bool)
    requires
        perms.wf(),
        !spec_operand_is_wrapping_ptr(op),
    ensures
        r == spec_op_reads_unreadable(*perms, op),
{
    match op.operand() {
        Operand::Ind(ptr) => {
            !perms.get(ptr).is_readable() && !perms.get(
                Address::new(ptr.get() + 1),
            ).is_readable()
        },
        Operand::IndX(_) => zp_all_unreadable(perms),
        Operand::IndY(zp) => {
            !perms.get(zp.to_addr()).is_readable() && !perms.get(
                Address::new(zp.get() as u16 + 1),
            ).is_readable()
        },
        Operand::Imp | Operand::Acc | Operand::Imm(_) | Operand::Rel(_) => false,
        Operand::Zp(z) => op.is_read() && !perms.get(z.to_addr()).is_readable(),
        Operand::ZpX(_) | Operand::ZpY(_) => op.is_read() && zp_all_unreadable(perms),
        Operand::Abs(abs) => op.is_read() && !perms.get(abs).is_readable(),
        Operand::AbsX(abs) | Operand::AbsY(abs) => op.is_read() && page_unreadable(perms, abs),
    }
}

/// Whether the instruction writes memory and every candidate write address
/// is unwritable.
fn op_writes_unwritable_addr(perms: &Permissions, op: Op) -> (r: bool)
    requires
        perms.wf(),
    ensures
        r == spec_op_writes_unwritable(*perms, op),
{
    if !op.is_write() {
        return false;
    }
    match op.operand() {
        Operand::Ind(_) | Operand::IndX(_) | Operand::IndY(_) => false,
        Operand::Imp | Operand::Acc | Operand::Imm(_) | Operand::Rel(_) => false,
        Operand::Zp(z) => !perms.get(z.to_addr()).is_writable(),
        Operand::ZpX(_) | Operand::ZpY(_) => zp_all_unwritable(perms),
        Operand::Abs(abs) => !perms.get(abs).is_writable(),
        Operand::AbsX(abs) | Operand::AbsY(abs) => page_unwritable(perms, abs),
    }
}

/// Whether a still-unknown address holding this instruction is judged not
/// to be code.
fn is_invalid_op(input: &Input, config: &AnalysisConfig, addr: Address, op: Op, bank_id: usize) -> (r:
    bool)
    requires
        input.wf(),
    ensures
        r == spec_is_invalid_op(*input, *config, addr.get() as int, op, bank_id),
{
    if op_is_forbidden(config, op) {
        return true;
    }
    if operand_is_wrapping_ptr(op) {
        return true;
    }
    if !op_has_valid_succ(input.memory(), addr, op, bank_id) {
        return true;
    }
    if op_reads_unreadable_addr(input.permissions(), op) {
        return true;
    }
    if op_writes_unwritable_addr(input.permissions(), op) {
        return true;
    }
    false
}

/// Marks every still-unknown address holding a truncated or invalid
/// instruction as `NotCode`.
#[verifier::loop_isolation(false)]
#[verifier::rlimit(100)]
pub fn analyze_invalid_op(analysis: &mut Analysis, input: &Input, config: &AnalysisConfig)
    requires
        old(analysis).wf(),
        input.wf(),
    ensures
        final(analysis).wf(),
        forall|p: int|
            0 <= p < 0x10000 ==> final(analysis)@[p] == spec_invalid_kind(
                *input,
                *config,
                p,
                old(analysis)@[p],
            ),
{
    let mut a: usize = 0;
    while a < 0x10000
        invariant
            a <= 0x10000,
            analysis.wf(),
            forall|p: int|
                0 <= p < a ==> analysis@[p] == spec_invalid_kind(
                    *input,
                    *config,
                    p,
                    old(analysis)@[p],
                ),
            forall|p: int| a <= p < 0x10000 ==> analysis@[p] == old(analysis)@[p],
        decreases 0x10000 - a,
    {
        let addr = Address::new(a as u16);
        if *analysis.get(addr) == AnalysisKind::Unknown {
            match input.memory().fetch_op(addr) {
                Ok((op, bank_id)) => {
                    if is_invalid_op(input, config, addr, op, bank_id) {
                        analysis.set(addr, AnalysisKind::NotCode);
                    }
                },
                Err(FetchOpError::Nothing) => {},
                Err(FetchOpError::Incomplete(_)) => {
                    analysis.set(addr, AnalysisKind::NotCode);
                },
            }
        }
        a = a + 1;
    }
}

/// Marks the non-first bytes of every `Code` instruction as `NotCode`
/// unless they are themselves `Code`.
#[verifier::loop_isolation(false)]
#[verifier::rlimit(100)]
#[verifier::spinoff_prover]
pub fn analyze_operand(analysis: &mut Analysis, memory: &Memory)
    requires
        old(analysis).wf(),
        memory.wf(),
    ensures
        final(analysis).wf(),
        // which addresses are code never changes here
        forall|p: int|
            0 <= p < 0x10000 ==> ((final(analysis)@[p] == AnalysisKind::Code) <==> (old(
                analysis,
            )@[p] == AnalysisKind::Code)),
        // the only changes are from Unknown to NotCode
        forall|p: int|
            0 <= p < 0x10000 ==> final(analysis)@[p] == old(analysis)@[p] || (old(analysis)@[p]
                == AnalysisKind::Unknown && final(analysis)@[p] == AnalysisKind::NotCode),
        super::spec_preserves_decided(old(analysis)@, final(analysis)@),
        // operand exclusion: no byte inside a code instruction stays Unknown
        forall|p: int, q: int|
            #![trigger final(analysis)@[q], spec_operand_span(*memory, p)]
            0 <= p < 0x10000 && old(analysis)@[p] == AnalysisKind::Code && p < q < p
                + spec_operand_span(*memory, p) && q < 0x10000 ==> final(analysis)@[q]
                != AnalysisKind::Unknown,
        // exactly the bytes inside code instructions change
        forall|p: int|
            0 <= p < 0x10000 ==> final(analysis)@[p] == spec_operand_kind(
                *memory,
                old(analysis)@,
                p,
            ),
{
    let mut a: usize = 0;
    while a < 0x10000
        invariant
            a <= 0x10000,
            analysis.wf(),
            forall|p: int|
                0 <= p < 0x10000 ==> ((analysis@[p] == AnalysisKind::Code) <==> (old(analysis)@[p]
                    == AnalysisKind::Code)),
            forall|p: int|
                0 <= p < 0x10000 ==> analysis@[p] == old(analysis)@[p] || (old(analysis)@[p]
                    == AnalysisKind::Unknown && analysis@[p] == AnalysisKind::NotCode),
            forall|p: int, q: int|
                #![trigger analysis@[q], spec_operand_span(*memory, p)]
                0 <= p < a && old(analysis)@[p] == AnalysisKind::Code && p < q < p
                    + spec_operand_span(*memory, p) && q < 0x10000 ==> analysis@[q]
                    != AnalysisKind::Unknown,
            forall|p: int|
                0 <= p < 0x10000 ==> analysis@[p] == (if old(analysis)@[p]
                    != AnalysisKind::Unknown {
                    old(analysis)@[p]
                } else if spec_operand_pos_upto(*memory, old(analysis)@, p, a as int) {
                    AnalysisKind::NotCode
                } else {
                    AnalysisKind::Unknown
                }),
        decreases 0x10000 - a,
    {
        let addr = Address::new(a as u16);
        if *analysis.get(addr) == AnalysisKind::Code {
            match memory.fetch_op(addr) {
                Ok((op, _)) => {
                    let l = op.len();
                    proof {
                        assert(spec_operand_span(*memory, a as int) == l);
                    }
                    mark_operand_bytes(analysis, addr, l);
                },
                Err(FetchOpError::Nothing) => {
                    proof {
                        assert(spec_operand_span(*memory, a as int) == 1);
                    }
                },
                Err(FetchOpError::Incomplete(buf)) => {
                    proof {
                        assert(spec_operand_span(*memory, a as int) == buf@.len());
                    }
                    mark_operand_bytes(analysis, addr, buf.len());
                },
            }
        }
        proof {
            assert forall|p: int| 0 <= p < 0x10000 implies analysis@[p] == (if old(analysis)@[p]
                != AnalysisKind::Unknown {
                old(analysis)@[p]
            } else if spec_operand_pos_upto(*memory, old(analysis)@, p, a + 1) {
                AnalysisKind::NotCode
            } else {
                AnalysisKind::Unknown
            }) by {
                lemma_pos_upto_step(*memory, old(analysis)@, p, a as int);
            }
        }
        a = a + 1;
    }
}

/// Marks the bytes `addr + 1` to `addr + span - 1` as `NotCode` unless they
/// are `Code`.
#[verifier::loop_isolation(false)]
fn mark_operand_bytes(analysis: &mut Analysis, addr: Address, span: usize)
    requires
        old(analysis).wf(),
        1 <= span <= 3,
        addr.get() + span <= 0x10000,
    ensures
        final(analysis).wf(),
        forall|p: int|
            0 <= p < 0x10000 ==> ((final(analysis)@[p] == AnalysisKind::Code) <==> (old(
                analysis,
            )@[p] == AnalysisKind::Code)),
        forall|p: int|
            0 <= p < 0x10000 ==> final(analysis)@[p] == old(analysis)@[p] || (old(analysis)@[p]
                == AnalysisKind::Unknown && final(analysis)@[p] == AnalysisKind::NotCode),
        forall|p: int|
            addr.get() < p < addr.get() + span ==> final(analysis)@[p] != AnalysisKind::Unknown,
        forall|p: int|
            0 <= p < 0x10000 && !(addr.get() < p < addr.get() + span) ==> final(analysis)@[p]
                == old(analysis)@[p],
{
    let mut k: usize = 1;
    while k < span
        invariant
            1 <= k <= span,
            analysis.wf(),
            forall|p: int|
                0 <= p < 0x10000 ==> ((analysis@[p] == AnalysisKind::Code) <==> (old(analysis)@[p]
                    == AnalysisKind::Code)),
            forall|p: int|
                0 <= p < 0x10000 ==> analysis@[p] == old(analysis)@[p] || (old(analysis)@[p]
                    == AnalysisKind::Unknown && analysis@[p] == AnalysisKind::NotCode),
            forall|p: int| addr.get() < p < addr.get() + k ==> analysis@[p] != AnalysisKind::Unknown,
            forall|p: int|
                0 <= p < 0x10000 && !(addr.get() < p < addr.get() + span) ==> analysis@[p] == old(
                    analysis,
                )@[p],
        decreases span - k,
    {
        let target = Address::new(addr.get() + k as u16);
        if *analysis.get(target) != AnalysisKind::Code {
            analysis.set(target, AnalysisKind::NotCode);
        }
        k = k + 1;
    }
}

/// An address that the validity sweep leaves `Unknown` never holds an
/// instruction whose indirect pointer would wrap a page boundary; only
/// stronger earlier evidence (an annotated opcode or an interrupt handler)
/// can classify such an instruction as code.
pub proof fn lemma_unknown_keeps_no_wrapping_ptr(
    input: Input,
    config: AnalysisConfig,
    a: int,
    prev: AnalysisKind,
)
    requires
        spec_invalid_kind(input, config, a, prev) == AnalysisKind::Unknown,
        input.spec_memory().spec_op_at(a) is Some,
    ensures
        !spec_operand_is_wrapping_ptr(input.spec_memory().spec_op_at(a).unwrap().0),
{
}

/// Runs the validity sweep and then the operand-exclusion sweep.
#[verifier::rlimit(100)]
pub fn analyze(analysis: &mut Analysis, input: &Input, config: &AnalysisConfig)
    requires
        old(analysis).wf(),
        input.wf(),
    ensures
        final(analysis).wf(),
        ({
            let mid = Seq::new(
                0x10000,
                |p: int| spec_invalid_kind(*input, *config, p, old(analysis)@[p]),
            );
            &&& forall|p: int|
                0 <= p < 0x10000 ==> ((final(analysis)@[p] == AnalysisKind::Code) <==> (mid[p]
                    == AnalysisKind::Code))
            &&& forall|p: int|
                0 <= p < 0x10000 ==> final(analysis)@[p] == mid[p] || (mid[p]
                    == AnalysisKind::Unknown && final(analysis)@[p] == AnalysisKind::NotCode)
            &&& forall|p: int, q: int|
                #![trigger final(analysis)@[q], spec_operand_span(input.spec_memory(), p)]
                0 <= p < 0x10000 && mid[p] == AnalysisKind::Code && p < q < p + spec_operand_span(
                    input.spec_memory(),
                    p,
                ) && q < 0x10000 ==> final(analysis)@[q] != AnalysisKind::Unknown
            &&& forall|p: int|
                0 <= p < 0x10000 ==> final(analysis)@[p] == spec_operand_kind(
                    input.spec_memory(),
                    mid,
                    p,
                )
        }),
        super::spec_preserves_decided(old(analysis)@, final(analysis)@),
{
    analyze_invalid_op(analysis, input, config);
    proof {
        let mid = Seq::new(
            0x10000,
            |p: int| spec_invalid_kind(*input, *config, p, old(analysis)@[p]),
        );
        assert(analysis@ =~= mid);
    }
    analyze_operand(analysis, input.memory());
}

} // verus!
