//! The permission pass: an address that is not executable cannot be code.
//! An address the first pass already decided to be `Code` keeps that
//! stronger verdict; the contradiction is left visible in the listing.

use vstd::prelude::*;

use crate::address::Address;
use crate::input::Input;
use crate::permission::Permissions;

use super::{Analysis, AnalysisKind};

verus! {

/// The classification this pass gives an address: a non-executable address
/// becomes `NotCode` unless it was already `Code`.
pub open spec fn spec_permission_kind(
    perms: Permissions,
    a: int,
    prev: AnalysisKind,
) -> AnalysisKind {
    if !perms@[a].is_executable() && prev != AnalysisKind::Code {
        AnalysisKind::NotCode
    } else {
        prev
    }
}

/// Marks every non-executable address as `NotCode` unless it is already
/// `Code`.
#[verifier::loop_isolation(false)]
pub fn analyze(analysis: &mut Analysis, input: &Input)
    requires
        old(analysis).wf(),
        input.wf(),
    ensures
        final(analysis).wf(),
        forall|p: int|
            0 <= p < 0x10000 ==> final(analysis)@[p] == spec_permission_kind(
                input.spec_permissions(),
                p,
                old(analysis)@[p],
            ),
        super::spec_preserves_decided(old(analysis)@, final(analysis)@),
{
    let mut a: usize = 0;
    while a < 0x10000
        invariant
            a <= 0x10000,
            analysis.wf(),
            forall|p: int|
                0 <= p < a ==> analysis@[p] == spec_permission_kind(
                    input.spec_permissions(),
                    p,
                    old(analysis)@[p],
                ),
            forall|p: int| a <= p < 0x10000 ==> analysis@[p] == old(analysis)@[p],
        decreases 0x10000 - a,
    {
        let addr = Address::new(a as u16);
        if !input.permission_at(addr).is_executable() {
            if *analysis.get(addr) != AnalysisKind::Code {
                analysis.set(addr, AnalysisKind::NotCode);
            }
        }
        a = a + 1;
    }
}

} // verus!
