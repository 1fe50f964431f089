//! The interrupt-vector pass. For each vector enabled in the configuration:
//! the two vector bytes become `NotCode` unless one of them is already
//! `Code`; the vector cell gets a plain label when it lies in the target
//! bank; and the handler the vector points at becomes `Code` (with an
//! entrypoint label when it lies in the target bank) unless it was already
//! decided to be `NotCode`.

use vstd::prelude::*;

use crate::address::Address;
use crate::assembly::{Label, Labels};
use crate::config::AnalysisConfig;
use crate::input::Input;

use super::{Analysis, AnalysisKind};

verus! {

/// The classification array after forcing the two vector bytes at `p` to
/// `NotCode`, unless one of them is already `Code`.
pub open spec fn spec_vector_cells(pre: Seq<AnalysisKind>, p: int) -> Seq<AnalysisKind> {
    if pre[p] != AnalysisKind::Code && pre[p + 1] != AnalysisKind::Code {
        pre.update(p, AnalysisKind::NotCode).update(p + 1, AnalysisKind::NotCode)
    } else {
        pre
    }
}

/// The classification array after processing the interrupt vector at `p`.
pub open spec fn spec_handler_kinds(input: Input, pre: Seq<AnalysisKind>, p: int) -> Seq<
    AnalysisKind,
> {
    let cells = spec_vector_cells(pre, p);
    match input.spec_memory().spec_addr_value_at(p) {
        Some(dv) => {
            let dst = dv.0.get() as int;
            if cells[dst] == AnalysisKind::NotCode {
                cells
            } else {
                cells.update(dst, AnalysisKind::Code)
            }
        },
        None => cells,
    }
}

/// The label table after processing the interrupt vector at `p`.
pub open spec fn spec_handler_labels(
    input: Input,
    pre_a: Seq<AnalysisKind>,
    pre_l: Seq<Option<Label>>,
    p: int,
) -> Seq<Option<Label>> {
    let vec_label = if input.spec_target_bank().spec_contains(p) {
        pre_l.update(p, Some(Label { entrypoint: Labels::spec_slot_entrypoint(pre_l[p]) }))
    } else {
        pre_l
    };
    let cells = spec_vector_cells(pre_a, p);
    match input.spec_memory().spec_addr_value_at(p) {
        Some(dv) => {
            let dst = dv.0.get() as int;
            if cells[dst] != AnalysisKind::NotCode && input.spec_memory().spec_bank_id_at(dst)
                == Some(input.spec_target_bank_id()) {
                vec_label.update(dst, Some(Label { entrypoint: true }))
            } else {
                vec_label
            }
        },
        None => vec_label,
    }
}

/// Processes one interrupt vector at `ptr`.
pub fn set_handler(analysis: &mut Analysis, labels: &mut Labels, input: &Input, ptr: Address)
    requires
        old(analysis).wf(),
        old(labels).wf(),
        input.wf(),
        ptr.get() + 1 <= 0xFFFF,
    ensures
        final(analysis).wf(),
        final(labels).wf(),
        final(analysis)@ == spec_handler_kinds(*input, old(analysis)@, ptr.get() as int),
        final(labels)@ == spec_handler_labels(
            *input,
            old(analysis)@,
            old(labels)@,
            ptr.get() as int,
        ),
{
    let ptr2 = Address::new(ptr.get() + 1);

    // The vector bytes themselves are data unless earlier evidence says
    // one of them is code.
    if *analysis.get(ptr) != AnalysisKind::Code && *analysis.get(ptr2) != AnalysisKind::Code {
        analysis.set(ptr, AnalysisKind::NotCode);
        analysis.set(ptr2, AnalysisKind::NotCode);
    }

    // Label the vector cell when it lies in the target bank.
    if input.target_bank().contains_addr(ptr) {
        labels.set(ptr, Label::new(false));
    }

    // Follow the vector to the handler, if it can be read at all.
    let (dst, _) = match input.memory().fetch_addr(ptr) {
        Some(p) => p,
        None => {
            return ;
        },
    };

    // A handler address already decided to be data is left alone; the
    // contradiction surfaces in the listing.
    if *analysis.get(dst) == AnalysisKind::NotCode {
        return ;
    }

    analysis.set(dst, AnalysisKind::Code);
    let dst_in_target = match input.memory().find_bank_id(dst) {
        Some(id) => id == input.target_bank_id(),
        None => false,
    };
    if dst_in_target {
        labels.set(dst, Label::new(true));
    }
}

/// Processes the NMI, RESET and IRQ vectors that the configuration enables,
/// in that order.
pub fn analyze(analysis: &mut Analysis, labels: &mut Labels, input: &Input, config: &AnalysisConfig)
    requires
        old(analysis).wf(),
        old(labels).wf(),
        input.wf(),
    ensures
        final(analysis).wf(),
        final(labels).wf(),
        ({
            let a0 = old(analysis)@;
            let l0 = old(labels)@;
            let a1 = if config.use_nmi() {
                spec_handler_kinds(*input, a0, 0xFFFA)
            } else {
                a0
            };
            let l1 = if config.use_nmi() {
                spec_handler_labels(*input, a0, l0, 0xFFFA)
            } else {
                l0
            };
            let a2 = if config.use_reset() {
                spec_handler_kinds(*input, a1, 0xFFFC)
            } else {
                a1
            };
            let l2 = if config.use_reset() {
                spec_handler_labels(*input, a1, l1, 0xFFFC)
            } else {
                l1
            };
            let a3 = if config.use_irq() {
                spec_handler_kinds(*input, a2, 0xFFFE)
            } else {
                a2
            };
            let l3 = if config.use_irq() {
                spec_handler_labels(*input, a2, l2, 0xFFFE)
            } else {
                l2
            };
            final(analysis)@ == a3 && final(labels)@ == l3
        }),
{
    if config.use_nmi() {
        set_handler(analysis, labels, input, Address::new(0xFFFA));
    }
    if config.use_reset() {
        set_handler(analysis, labels, input, Address::new(0xFFFC));
    }
    if config.use_irq() {
        set_handler(analysis, labels, input, Address::new(0xFFFE));
    }
}

/// Processing an interrupt vector never overwrites a decided address: a
/// `Code` cell stays `Code` and a `NotCode` cell stays `NotCode`.
pub proof fn lemma_handler_preserves_decided(input: Input, pre: Seq<AnalysisKind>, p: int)
    requires
        pre.len() == 0x10000,
        0 <= p,
        p + 1 < 0x10000,
    ensures
        super::spec_preserves_decided(pre, spec_handler_kinds(input, pre, p)),
{
    let post = spec_handler_kinds(input, pre, p);
    assert forall|a: int|
        0 <= a < pre.len() && pre[a] != AnalysisKind::Unknown implies #[trigger] post[a]
        == pre[a] by {
        let cells = spec_vector_cells(pre, p);
        assert(cells[a] == pre[a]);
    }
}

} // verus!
