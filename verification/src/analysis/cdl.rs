//! The logger-annotation pass. It runs first and its verdicts take priority
//! over every later pass.

use vstd::prelude::*;

use crate::address::Address;
use crate::assembly::{Label, Labels};
use crate::cdl::Cdl;
use crate::input::Input;

use super::{Analysis, AnalysisKind};

verus! {

/// The classification this pass gives an address: an annotated opcode byte
/// becomes `Code`, an annotated data byte that is not an opcode becomes
/// `NotCode`, and any other address keeps its previous classification.
pub open spec fn spec_cdl_kind(cdl: Cdl, a: int, prev: AnalysisKind) -> AnalysisKind {
    if cdl.spec_is_opcode(a) {
        AnalysisKind::Code
    } else if cdl.spec_is_data(a) {
        AnalysisKind::NotCode
    } else {
        prev
    }
}

/// Whether this pass places a label at `a`: the address must lie in the
/// target bank and be annotated as a jump target, an entry point, or the
/// start of an indirect-data or PCM-data run.
pub open spec fn spec_wants_label(input: Input, a: int) -> bool {
    input.spec_target_bank().spec_contains(a) && (input.spec_cdl().spec_is_jump_target(a)
        || input.spec_cdl().spec_is_entrypoint(a) || input.spec_cdl().spec_is_indirect_data_start(
        a,
    ) || input.spec_cdl().spec_is_pcm_data_start(a))
}

/// The label entry this pass leaves at `a`: where it places a label, the
/// label is an entry point exactly when the annotation says so or an
/// entrypoint label was already present.
pub open spec fn spec_cdl_label(input: Input, a: int, prev: Option<Label>) -> Option<Label> {
    if spec_wants_label(input, a) {
        Some(
            Label {
                entrypoint: input.spec_cdl().spec_is_entrypoint(a) || Labels::spec_slot_entrypoint(
                    prev,
                ),
            },
        )
    } else {
        prev
    }
}

/// Classifies every address from the logger annotations and labels the
/// annotated positions of the target bank.
#[verifier::loop_isolation(false)]
pub fn analyze(analysis: &mut Analysis, labels: &mut Labels, input: &Input)
    requires
        old(analysis).wf(),
        old(labels).wf(),
        input.wf(),
    ensures
        final(analysis).wf(),
        final(labels).wf(),
        forall|p: int|
            0 <= p < 0x10000 ==> final(analysis)@[p] == spec_cdl_kind(
                input.spec_cdl(),
                p,
                old(analysis)@[p],
            ),
        forall|p: int|
            0 <= p < 0x10000 ==> final(labels)@[p] == spec_cdl_label(*input, p, old(labels)@[p]),
{
    let cdl = input.cdl();
    let mut a: usize = 0;
    while a < 0x10000
        invariant
            a <= 0x10000,
            analysis.wf(),
            labels.wf(),
            forall|p: int|
                0 <= p < a ==> analysis@[p] == spec_cdl_kind(
                    input.spec_cdl(),
                    p,
                    old(analysis)@[p],
                ),
            forall|p: int| a <= p < 0x10000 ==> analysis@[p] == old(analysis)@[p],
            forall|p: int|
                0 <= p < a ==> labels@[p] == spec_cdl_label(*input, p, old(labels)@[p]),
            forall|p: int| a <= p < 0x10000 ==> labels@[p] == old(labels)@[p],
        decreases 0x10000 - a,
    {
        let addr = Address::new(a as u16);

        if cdl.is_opcode(addr) {
            analysis.set(addr, AnalysisKind::Code);
        }
        if !cdl.is_opcode(addr) && cdl.is_data(addr) {
            analysis.set(addr, AnalysisKind::NotCode);
        }

        if input.target_bank().contains_addr(addr) {
            let need_label = cdl.is_jump_target(addr) || cdl.is_entrypoint(addr)
                || cdl.is_indirect_data_start(addr) || cdl.is_pcm_data_start(addr);
            if need_label {
                labels.set(addr, Label::new(cdl.is_entrypoint(addr)));
            }
        }

        a = a + 1;
    }
}

} // verus!
