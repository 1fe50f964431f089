//! The cross-reference label pass. Every `Code` instruction in the scanning
//! window contributes labels: jsr and resolvable indirect jmp destinations
//! become entry points; every other operand's effective address becomes a
//! plain label. A reference from the target bank labels any loaded address;
//! a reference from another (necessarily fixed) bank labels only addresses
//! of the target bank.

use vstd::prelude::*;

use crate::address::Address;
use crate::assembly::{Label, Labels};
use crate::input::Input;
use crate::op::{Op, Operand};

use super::{Analysis, AnalysisKind};

verus! {

/// The gating rule: a reference from the target bank labels any loaded
/// address; a reference from another bank labels only target-bank
/// addresses.
pub open spec fn spec_label_gate(input: Input, from_target: bool, dst: Address) -> bool {
    if from_target {
        input.spec_memory().spec_bank_id_at(dst.get() as int) is Some
    } else {
        input.spec_memory().spec_bank_id_at(dst.get() as int) == Some(
            input.spec_target_bank_id(),
        )
    }
}

/// The label table after one gated label placement at `dst`. A label
/// already present merges: entrypoint-ness is sticky.
pub open spec fn spec_set_label(
    input: Input,
    pre: Seq<Option<Label>>,
    from_target: bool,
    dst: Address,
    entrypoint: bool,
) -> Seq<Option<Label>> {
    if spec_label_gate(input, from_target, dst) {
        pre.update(
            dst.get() as int,
            Some(
                Label {
                    entrypoint: entrypoint || Labels::spec_slot_entrypoint(
                        pre[dst.get() as int],
                    ),
                },
            ),
        )
    } else {
        pre
    }
}

/// The label table after placing every label the instruction at `a` calls
/// for.
pub open spec fn spec_needed_labels(
    input: Input,
    pre: Seq<Option<Label>>,
    a: int,
    op: Op,
    from_target: bool,
) -> Seq<Option<Label>> {
    match op {
        Op::Jsr(dst) => spec_set_label(input, pre, from_target, dst, true),
        Op::JmpInd(ptr) => {
            match input.spec_memory().spec_addr_value_at(ptr.get() as int) {
                Some(dv) => spec_set_label(input, pre, from_target, dv.0, true),
                None => pre,
            }
        },
        _ => {
            match op.spec_operand() {
                Operand::Zp(zp) | Operand::ZpX(zp) | Operand::ZpY(zp) => spec_set_label(
                    input,
                    pre,
                    from_target,
                    Address(zp.get() as u16),
                    false,
                ),
                Operand::Abs(abs) | Operand::AbsX(abs) | Operand::AbsY(abs) => spec_set_label(
                    input,
                    pre,
                    from_target,
                    abs,
                    false,
                ),
                Operand::IndX(zp) => spec_set_label(
                    input,
                    pre,
                    from_target,
                    Address(zp.get() as u16),
                    false,
                ),
                Operand::IndY(zp) => {
                    let ptr = Address(zp.get() as u16);
                    let mid = spec_set_label(input, pre, from_target, ptr, false);
                    match input.spec_memory().spec_addr_value_at(ptr.get() as int) {
                        Some(dv) => spec_set_label(input, mid, from_target, dv.0, false),
                        None => mid,
                    }
                },
                Operand::Rel(rel) => spec_set_label(
                    input,
                    pre,
                    from_target,
                    Address((((a + 2) % 0x10000 + rel) % 0x10000) as u16),
                    false,
                ),
                _ => pre,
            }
        },
    }
}

/// The label table after the pass has handled the single address `a`:
/// unchanged unless `a` is `Code` and holds a whole instruction.
pub open spec fn spec_label_step(
    input: Input,
    s: Seq<AnalysisKind>,
    pre: Seq<Option<Label>>,
    a: int,
) -> Seq<Option<Label>> {
    if s[a] == AnalysisKind::Code {
        match input.spec_memory().spec_op_at(a) {
            Some(oi) => spec_needed_labels(
                input,
                pre,
                a,
                oi.0,
                oi.1 == input.spec_target_bank_id(),
            ),
            None => pre,
        }
    } else {
        pre
    }
}

/// The label table after the pass has handled the addresses `lo..k` in
/// ascending order.
pub open spec fn spec_label_pass_upto(
    input: Input,
    s: Seq<AnalysisKind>,
    pre: Seq<Option<Label>>,
    lo: int,
    k: int,
) -> Seq<Option<Label>>
    decreases k - lo,
{
    if k <= lo {
        pre
    } else {
        spec_label_step(input, s, spec_label_pass_upto(input, s, pre, lo, k - 1), k - 1)
    }
}

/// Labels `dst` when the gating rule admits it.
fn set_label(labels: &mut Labels, input: &Input, from_target: bool, dst: Address, entrypoint: bool)
    requires
        old(labels).wf(),
        input.wf(),
    ensures
        final(labels).wf(),
        final(labels)@ == spec_set_label(*input, old(labels)@, from_target, dst, entrypoint),
        super::spec_labels_grow(old(labels)@, final(labels)@),
{
    let dst_bank_id = input.memory().find_bank_id(dst);
    let cond = if from_target {
        dst_bank_id.is_some()
    } else {
        match dst_bank_id {
            Some(id) => id == input.target_bank_id(),
            None => false,
        }
    };
    if cond {
        labels.set(dst, Label::new(entrypoint));
    }
}

/// Labels whatever the instruction at `addr` refers to.
fn set_needed_labels(labels: &mut Labels, input: &Input, addr: Address, op: Op, from_target: bool)
    requires
        old(labels).wf(),
        input.wf(),
    ensures
        final(labels).wf(),
        final(labels)@ == spec_needed_labels(
            *input,
            old(labels)@,
            addr.get() as int,
            op,
            from_target,
        ),
        super::spec_labels_grow(old(labels)@, final(labels)@),
{
    match op {
        // The destinations of jsr and of a resolvable indirect jmp are
        // routine entry points.
        Op::Jsr(dst) => set_label(labels, input, from_target, dst, true),
        Op::JmpInd(ptr) => {
            match input.memory().fetch_addr(ptr) {
                Some((dst, _)) => set_label(labels, input, from_target, dst, true),
                None => {},
            }
        },
        _ => {
            match op.operand() {
                Operand::Zp(zp) | Operand::ZpX(zp) | Operand::ZpY(zp) => {
                    set_label(labels, input, from_target, zp.to_addr(), false);
                },
                Operand::Abs(abs) | Operand::AbsX(abs) | Operand::AbsY(abs) => {
                    set_label(labels, input, from_target, abs, false);
                },
                Operand::IndX(zp) => set_label(labels, input, from_target, zp.to_addr(), false),
                Operand::IndY(zp) => {
                    let ptr = zp.to_addr();
                    set_label(labels, input, from_target, ptr, false);
                    match input.memory().fetch_addr(ptr) {
                        Some((dst, _)) => set_label(labels, input, from_target, dst, false),
                        None => {},
                    }
                },
                Operand::Rel(rel) => {
                    let dst = addr.wrapping_add_unsigned(2).wrapping_add_signed(rel as isize);
                    set_label(labels, input, from_target, dst, false);
                },
                _ => {},
            }
        },
    }
}

/// Labels the references of every `Code` instruction of the scanning
/// window: the whole address space when the target bank is fixed, otherwise
/// only the target bank's range.
#[verifier::loop_isolation(false)]
pub fn analyze(analysis: &Analysis, labels: &mut Labels, input: &Input)
    requires
        analysis.wf(),
        old(labels).wf(),
        input.wf(),
    ensures
        final(labels).wf(),
        ({
            let lo: int = if input.spec_target_bank().spec_is_fixed() {
                0
            } else {
                input.spec_target_bank().spec_addr().get() as int
            };
            let hi: int = if input.spec_target_bank().spec_is_fixed() {
                0x10000
            } else {
                input.spec_target_bank().spec_addr().get()
                    + input.spec_target_bank().spec_body().len()
            };
            final(labels)@ == spec_label_pass_upto(*input, analysis@, old(labels)@, lo, hi)
        }),
        super::spec_labels_grow(old(labels)@, final(labels)@),
{
    let (lo, hi): (usize, usize) = if input.target_bank().is_fixed() {
        (0, 0x10000)
    } else {
        let start = input.target_bank().addr().get() as usize;
        (start, start + input.target_bank().len())
    };

    let mut a: usize = lo;
    while a < hi
        invariant
            lo <= a <= hi,
            hi <= 0x10000,
            labels.wf(),
            labels@ == spec_label_pass_upto(*input, analysis@, old(labels)@, lo as int, a as int),
            super::spec_labels_grow(old(labels)@, labels@),
        decreases hi - a,
    {
        let addr = Address::new(a as u16);
        if *analysis.get(addr) == AnalysisKind::Code {
            match input.memory().fetch_op(addr) {
                Ok((op, bank_id)) => {
                    let from_target = bank_id == input.target_bank_id();
                    set_needed_labels(labels, input, addr, op, from_target);
                },
                Err(_) => {},
            }
        }
        a = a + 1;
    }
}

} // verus!
