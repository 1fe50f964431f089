//! Per-address annotations produced by an external code/data logger.

use vstd::prelude::*;

use crate::address::{Address, ArrayByAddress};

verus! {

/// The logger annotations of the whole logical address space.
#[derive(Clone, Debug, PartialEq, Eq)]
pub struct Cdl {
    elems: ArrayByAddress<CdlElement>,
}

impl View for Cdl {
    type V = Seq<CdlElement>;

    closed spec fn view(&self) -> Seq<CdlElement> {
        self.elems@
    }
}

impl Default for Cdl {
    /// An annotation map with every bit clear.
    fn default() -> (r: Self)
        ensures
            r.wf(),
            forall|i: int| 0 <= i < 0x10000 ==> (#[trigger] r@[i]) == CdlElement::new_spec(0),
    {
        Cdl { elems: ArrayByAddress::new(CdlElement(0)) }
    }
}

impl Cdl {
    pub open spec fn wf(self) -> bool {
        self@.len() == 0x10000
    }

    /// Replaces the annotation at one address.
    pub fn set(&mut self, addr: Address, elem: CdlElement)
        requires
            old(self).wf(),
        ensures
            final(self).wf(),
            final(self)@ == old(self)@.update(addr.get() as int, elem),
    {
        self.elems.set(addr, elem);
    }

    /// The annotation at one address.
    pub fn get(&self, addr: Address) -> (r: CdlElement)
        requires
            self.wf(),
        ensures
            r == self@[addr.get() as int],
    {
        *self.elems.get(addr)
    }

    pub open spec fn spec_is_opcode(self, a: int) -> bool {
        self@[a].is_opcode()
    }

    /// Whether the byte at `addr` was logged as an opcode fetch.
    pub fn is_opcode(&self, addr: Address) -> (r: bool)
        requires
            self.wf(),
        ensures
            r == self.spec_is_opcode(addr.get() as int),
    {
        self.get(addr).is_opcode()
    }

    pub open spec fn spec_is_data(self, a: int) -> bool {
        self@[a].is_data()
    }

    /// Whether the byte at `addr` was logged as data.
    pub fn is_data(&self, addr: Address) -> (r: bool)
        requires
            self.wf(),
        ensures
            r == self.spec_is_data(addr.get() as int),
    {
        self.get(addr).is_data()
    }

    pub open spec fn spec_is_operand(self, a: int) -> bool {
        self@[a].is_operand()
    }

    /// Whether the byte at `addr` was logged as an operand fetch.
    pub fn is_operand(&self, addr: Address) -> (r: bool)
        requires
            self.wf(),
        ensures
            r == self.spec_is_operand(addr.get() as int),
    {
        self.get(addr).is_operand()
    }

    pub open spec fn spec_is_jump_target(self, a: int) -> bool {
        self@[a].is_jump_target()
    }

    /// Whether the byte at `addr` was logged as a jump target.
    pub fn is_jump_target(&self, addr: Address) -> (r: bool)
        requires
            self.wf(),
        ensures
            r == self.spec_is_jump_target(addr.get() as int),
    {
        self.get(addr).is_jump_target()
    }

    pub open spec fn spec_is_indirect_data(self, a: int) -> bool {
        self@[a].is_indirect_data()
    }

    /// Whether the byte at `addr` was logged as indirectly accessed data.
    pub fn is_indirect_data(&self, addr: Address) -> (r: bool)
        requires
            self.wf(),
        ensures
            r == self.spec_is_indirect_data(addr.get() as int),
    {
        self.get(addr).is_indirect_data()
    }

    pub open spec fn spec_is_pcm_data(self, a: int) -> bool {
        self@[a].is_pcm_data()
    }

    /// Whether the byte at `addr` was logged as PCM audio data.
    pub fn is_pcm_data(&self, addr: Address) -> (r: bool)
        requires
            self.wf(),
        ensures
            r == self.spec_is_pcm_data(addr.get() as int),
    {
        self.get(addr).is_pcm_data()
    }

    pub open spec fn spec_is_entrypoint(self, a: int) -> bool {
        self@[a].is_entrypoint()
    }

    /// Whether the byte at `addr` was logged as a routine entry point.
    pub fn is_entrypoint(&self, addr: Address) -> (r: bool)
        requires
            self.wf(),
        ensures
            r == self.spec_is_entrypoint(addr.get() as int),
    {
        self.get(addr).is_entrypoint()
    }

    /// The indirect-data bit is set here but clear at the preceding address
    /// (or there is no preceding address).
    pub open spec fn spec_is_indirect_data_start(self, a: int) -> bool {
        self.spec_is_indirect_data(a) && (a == 0 || !self.spec_is_indirect_data(a - 1))
    }

    /// Whether `addr` starts a run of indirectly accessed data.
    pub fn is_indirect_data_start(&self, addr: Address) -> (r: bool)
        requires
            self.wf(),
        ensures
            r == self.spec_is_indirect_data_start(addr.get() as int),
    {
        self.is_indirect_data(addr) && match addr.checked_add_signed(-1) {
            Some(prev) => !self.is_indirect_data(prev),
            None => true,
        }
    }

    /// The PCM-data bit is set here but clear at the preceding address (or
    /// there is no preceding address).
    pub open spec fn spec_is_pcm_data_start(self, a: int) -> bool {
        self.spec_is_pcm_data(a) && (a == 0 || !self.spec_is_pcm_data(a - 1))
    }

    /// Whether `addr` starts a run of PCM audio data.
    pub fn is_pcm_data_start(&self, addr: Address) -> (r: bool)
        requires
            self.wf(),
        ensures
            r == self.spec_is_pcm_data_start(addr.get() as int),
    {
        self.is_pcm_data(addr) && match addr.checked_add_signed(-1) {
            Some(prev) => !self.is_pcm_data(prev),
            None => true,
        }
    }
}

/// The annotation byte of one logical address.
#[derive(Clone, Copy, Debug, Default, PartialEq, Eq, Structural)]
pub struct CdlElement(pub u8);

impl CdlElement {
    /// The annotation value built in a specification from its raw byte.
    pub open spec fn new_spec(inner: u8) -> CdlElement {
        CdlElement(inner)
    }

    pub fn new(inner: u8) -> (r: Self)
        ensures
            r == CdlElement::new_spec(inner),
    {
        CdlElement(inner)
    }

    pub open spec fn spec_is_opcode(self) -> bool {
        self.0 & 0x01 != 0
    }

    #[verifier::when_used_as_spec(spec_is_opcode)]
    pub fn is_opcode(self) -> (r: bool)
        ensures
            r == self.is_opcode(),
    {
        self.0 & 0x01 != 0
    }

    pub open spec fn spec_is_data(self) -> bool {
        self.0 & 0x02 != 0
    }

    #[verifier::when_used_as_spec(spec_is_data)]
    pub fn is_data(self) -> (r: bool)
        ensures
            r == self.is_data(),
    {
        self.0 & 0x02 != 0
    }

    pub open spec fn spec_is_operand(self) -> bool {
        self.0 & 0x04 != 0
    }

    #[verifier::when_used_as_spec(spec_is_operand)]
    pub fn is_operand(self) -> (r: bool)
        ensures
            r == self.is_operand(),
    {
        self.0 & 0x04 != 0
    }

    pub open spec fn spec_is_jump_target(self) -> bool {
        self.0 & 0x10 != 0
    }

    #[verifier::when_used_as_spec(spec_is_jump_target)]
    pub fn is_jump_target(self) -> (r: bool)
        ensures
            r == self.is_jump_target(),
    {
        self.0 & 0x10 != 0
    }

    pub open spec fn spec_is_indirect_data(self) -> bool {
        self.0 & 0x20 != 0
    }

    #[verifier::when_used_as_spec(spec_is_indirect_data)]
    pub fn is_indirect_data(self) -> (r: bool)
        ensures
            r == self.is_indirect_data(),
    {
        self.0 & 0x20 != 0
    }

    pub open spec fn spec_is_pcm_data(self) -> bool {
        self.0 & 0x40 != 0
    }

    #[verifier::when_used_as_spec(spec_is_pcm_data)]
    pub fn is_pcm_data(self) -> (r: bool)
        ensures
            r == self.is_pcm_data(),
    {
        self.0 & 0x40 != 0
    }

    pub open spec fn spec_is_entrypoint(self) -> bool {
        self.0 & 0x80 != 0
    }

    #[verifier::when_used_as_spec(spec_is_entrypoint)]
    pub fn is_entrypoint(self) -> (r: bool)
        ensures
            r == self.is_entrypoint(),
    {
        self.0 & 0x80 != 0
    }
}

} // verus!
