//! The logical address space: a set of loaded banks with pairwise-disjoint
//! address ranges and a reverse index from every address to the bank that
//! covers it.

use vstd::prelude::*;

use crate::address::{Address, AddressRange, ArrayByAddress};
use crate::bank::Bank;
use crate::op::{Op, Opcode, OpSucc};

verus! {

/// The logical address space with its loaded banks.
#[derive(Clone, Debug, PartialEq, Eq)]
pub struct Memory {
    banks: Vec<Bank>,
    bank_ids: ArrayByAddress<Option<usize>>,
}

impl Memory {
    pub closed spec fn spec_banks(self) -> Seq<Bank> {
        self.banks@
    }

    /// The reverse index entry of the numeric address `a`.
    pub closed spec fn spec_bank_id_at(self, a: int) -> Option<usize> {
        self.bank_ids@[a]
    }

    /// The reverse index covers the whole address space.
    pub closed spec fn spec_index_wf(self) -> bool {
        self.bank_ids.wf()
    }

    /// Whether the address ranges of two banks share an address.
    pub open spec fn spec_overlap(x: Bank, y: Bank) -> bool {
        x.spec_addr().get() + x.spec_body().len() > y.spec_addr().get() && y.spec_addr().get()
            + y.spec_body().len() > x.spec_addr().get()
    }

    /// The banks of the sequence are well formed and pairwise disjoint.
    pub open spec fn spec_banks_wf(banks: Seq<Bank>) -> bool {
        &&& forall|i: int| 0 <= i < banks.len() ==> (#[trigger] banks[i]).wf()
        &&& forall|i: int, j: int|
            0 <= i < banks.len() && 0 <= j < banks.len() && i != j ==> !Memory::spec_overlap(
                #[trigger] banks[i],
                #[trigger] banks[j],
            )
    }

    /// The banks are well formed and pairwise disjoint, and the reverse
    /// index maps an address to a bank id exactly when that bank covers the
    /// address.
    pub open spec fn wf(self) -> bool {
        &&& self.spec_index_wf()
        &&& Memory::spec_banks_wf(self.spec_banks())
        &&& forall|a: int|
            0 <= a < 0x10000 ==> ((#[trigger] self.spec_bank_id_at(a)) matches Some(i) ==> 0 <= i
                < self.spec_banks().len())
        &&& forall|a: int, i: int|
            #![trigger self.spec_bank_id_at(a), self.spec_banks()[i]]
            0 <= a < 0x10000 && 0 <= i < self.spec_banks().len() ==> ((self.spec_bank_id_at(a)
                == Some(i as usize)) <==> self.spec_banks()[i].spec_contains(a))
    }

    /// Loads the given banks into the address space and builds the reverse
    /// index once.
    pub fn new(banks: Vec<Bank>) -> (r: Self)
        requires
            Memory::spec_banks_wf(banks@),
        ensures
            r.wf(),
            r.spec_banks() == banks@,
    {
        let mut bank_ids: ArrayByAddress<Option<usize>> = ArrayByAddress::new(None);
        let mut id: usize = 0;
        while id < banks.len()
            invariant
                id <= banks@.len(),
                bank_ids.wf(),
                Memory::spec_banks_wf(banks@),
                forall|a: int|
                    0 <= a < 0x10000 ==> ((#[trigger] bank_ids@[a]) matches Some(i) ==> 0 <= i
                        < id),
                forall|a: int, i: int|
                    #![trigger bank_ids@[a], banks@[i]]
                    0 <= a < 0x10000 && 0 <= i < id ==> ((bank_ids@[a] == Some(i as usize)) <==> banks@[i].spec_contains(a)),
            decreases banks@.len() - id,
        {
            let range = banks[id].addr_range();
            bank_ids.fill_range(range, Some(id));
            id = id + 1;
        }
        Memory { banks, bank_ids }
    }

    /// The list of loaded banks.
    pub fn banks(&self) -> (r: &Vec<Bank>)
        ensures
            r@ == self.spec_banks(),
    {
        &self.banks
    }

    /// The id of the bank covering the given address, if any.
    pub fn find_bank_id(&self, addr: Address) -> (r: Option<usize>)
        requires
            self.wf(),
        ensures
            r == self.spec_bank_id_at(addr.get() as int),
    {
        *self.bank_ids.get(addr)
    }

    /// The byte at the given address together with its bank id.
    pub open spec fn spec_byte_at(self, a: int) -> Option<(u8, usize)> {
        match self.spec_bank_id_at(a) {
            Some(i) => Some((self.spec_banks()[i as int].spec_byte_at(a), i)),
            None => None,
        }
    }

    /// The byte at the given address and the id of its bank, or `None` when
    /// no bank covers the address.
    pub fn get_byte(&self, addr: Address) -> (r: Option<(u8, usize)>)
        requires
            self.wf(),
        ensures
            r == self.spec_byte_at(addr.get() as int),
    {
        match self.find_bank_id(addr) {
            Some(id) => {
                match self.banks[id].get_byte(addr) {
                    Some(b) => Some((b, id)),
                    None => None,  // unreachable: the index always points into the bank
                }
            },
            None => None,
        }
    }

    /// The bytes of the given range and the id of the single bank that
    /// wholly contains it, or `None` when there is no such bank.
    pub fn get_bytes(&self, range: AddressRange) -> (r: Option<(Vec<u8>, usize)>)
        requires
            self.wf(),
            range.wf(),
        ensures
            ({
                let a = range.min().get() as int;
                match self.spec_bank_id_at(a) {
                    Some(i) => {
                        let bank = self.spec_banks()[i as int];
                        if bank.spec_contains(range.max().get() as int) {
                            r matches Some(p) && p.0@ == bank.spec_body().subrange(
                                a - bank.spec_addr().get(),
                                range.max().get() + 1 - bank.spec_addr().get(),
                            ) && p.1 == i
                        } else {
                            r is None
                        }
                    },
                    None => r is None,
                }
            }),
    {
        match self.find_bank_id(range.min()) {
            Some(id) => {
                match self.banks[id].get_bytes(range) {
                    Some(v) => Some((v, id)),
                    None => None,
                }
            },
            None => None,
        }
    }

    /// The (nonempty) bytes from the given address to the end of its bank
    /// and that bank's id, or `None` when no bank covers the address.
    pub fn get_bytes_from(&self, addr: Address) -> (r: Option<(Vec<u8>, usize)>)
        requires
            self.wf(),
        ensures
            ({
                let a = addr.get() as int;
                match self.spec_bank_id_at(a) {
                    Some(i) => {
                        let bank = self.spec_banks()[i as int];
                        r matches Some(p) && p.0@ == bank.spec_body().subrange(
                            a - bank.spec_addr().get(),
                            bank.spec_body().len() as int,
                        ) && p.0@.len() >= 1 && p.1 == i
                    },
                    None => r is None,
                }
            }),
    {
        match self.find_bank_id(addr) {
            Some(id) => {
                match self.banks[id].get_bytes_from(addr) {
                    Some(v) => Some((v, id)),
                    None => None,  // unreachable: the index always points into the bank
                }
            },
            None => None,
        }
    }

    /// How many bytes of the instruction starting at `a` its bank still
    /// holds.
    pub open spec fn spec_avail_at(self, a: int, i: int) -> int {
        self.spec_banks()[i].spec_addr().get() + self.spec_banks()[i].spec_body().len() - a
    }

    /// The instruction at `a` and its bank id, when the bank covering `a`
    /// holds the whole instruction. Opaque: callers reason over the value,
    /// which `fetch_op`'s contract pins; only its own proof and the
    /// round-trip length lemma look inside.
    #[verifier::opaque]
    pub open spec fn spec_op_at(self, a: int) -> Option<(Op, usize)> {
        match self.spec_bank_id_at(a) {
            Some(i) => {
                let bank = self.spec_banks()[i as int];
                let start = bank.spec_addr().get() as int;
                let l = Opcode::spec_op_len(bank.spec_byte_at(a));
                if self.spec_avail_at(a, i as int) >= l {
                    Some((Op::spec_fetch(bank.spec_body().subrange(a - start, a - start + l)), i))
                } else {
                    None
                }
            },
            None => None,
        }
    }

    /// Whether a bank covers `a` but holds fewer bytes from `a` on than the
    /// instruction starting there needs.
    pub open spec fn spec_op_truncated(self, a: int) -> bool {
        match self.spec_bank_id_at(a) {
            Some(i) => {
                let bank = self.spec_banks()[i as int];
                self.spec_avail_at(a, i as int) < Opcode::spec_op_len(bank.spec_byte_at(a))
            },
            None => false,
        }
    }

    /// Reads the instruction at the given address. Yields the instruction
    /// and its bank id when the whole instruction lies within the bank
    /// covering the address; the available prefix (one or two bytes) when
    /// the instruction is truncated at the end of the bank; and `Nothing`
    /// when no bank covers the address.
    pub fn fetch_op(&self, addr: Address) -> (r: Result<(Op, usize), FetchOpError>)
        requires
            self.wf(),
        ensures
            ({
                let a = addr.get() as int;
                match self.spec_bank_id_at(a) {
                    None => r matches Err(e) && e == FetchOpError::Nothing,
                    Some(i) => {
                        let bank = self.spec_banks()[i as int];
                        let start = bank.spec_addr().get() as int;
                        let avail = self.spec_avail_at(a, i as int);
                        let l = Opcode::spec_op_len(bank.spec_byte_at(a));
                        if avail >= l {
                            r matches Ok(p) && p.0 == Op::spec_fetch(
                                bank.spec_body().subrange(a - start, a - start + l),
                            ) && p.1 == i
                        } else {
                            r matches Err(e) && e matches FetchOpError::Incomplete(buf) && buf@
                                == bank.spec_body().subrange(a - start, a - start + avail)
                                && 1 <= buf@.len() <= 2
                        }
                    },
                }
            }),
            r matches Ok(p) ==> self.spec_op_at(addr.get() as int) == Some((p.0, p.1)),
            r is Ok <==> self.spec_op_at(addr.get() as int) is Some,
            (r matches Err(e) && e matches FetchOpError::Incomplete(_)) <==> self.spec_op_truncated(
                addr.get() as int,
            ),
    {
        proof {
            reveal(Memory::spec_op_at);
        }
        let (buf, bank_id) = match self.get_bytes_from(addr) {
            Some(p) => p,
            None => {
                return Err(FetchOpError::Nothing);
            },
        };
        let opcode = Opcode::new(buf[0]);
        let l = opcode.op_len();
        if buf.len() >= l {
            let mut head: Vec<u8> = Vec::new();
            let mut i: usize = 0;
            while i < l
                invariant
                    i <= l,
                    l <= buf@.len(),
                    head@ == buf@.subrange(0, i as int),
                decreases l - i,
            {
                head.push(buf[i]);
                proof {
                    assert(head@ =~= buf@.subrange(0, i + 1));
                }
                i = i + 1;
            }
            let op = Op::fetch(head.as_slice());
            proof {
                let a = addr.get() as int;
                let bank = self.spec_banks()[bank_id as int];
                let start = bank.spec_addr().get() as int;
                assert(buf@.subrange(0, l as int) =~= bank.spec_body().subrange(
                    a - start,
                    a - start + l,
                ));
            }
            Ok((op, bank_id))
        } else {
            proof {
                let a = addr.get() as int;
                let bank = self.spec_banks()[bank_id as int];
                let start = bank.spec_addr().get() as int;
                assert(buf@ =~= bank.spec_body().subrange(
                    a - start,
                    a - start + self.spec_avail_at(a, bank_id as int),
                ));
            }
            Err(FetchOpError::Incomplete(buf))
        }
    }

    /// The little-endian address value read at the numeric address `a`, when
    /// both bytes lie within one bank.
    pub open spec fn spec_addr_value_at(self, a: int) -> Option<(Address, usize)> {
        match self.spec_bank_id_at(a) {
            Some(i) => {
                let bank = self.spec_banks()[i as int];
                if bank.spec_contains(a + 1) {
                    Some(
                        (
                            Address(
                                (bank.spec_byte_at(a) + 0x100 * bank.spec_byte_at(a + 1)) as u16,
                            ),
                            i as usize,
                        ),
                    )
                } else {
                    None
                }
            },
            None => None,
        }
    }

    /// Reads a little-endian address value at the given address, together
    /// with the id of the bank holding it; `None` when the two bytes are not
    /// available within one bank.
    pub fn fetch_addr(&self, addr: Address) -> (r: Option<(Address, usize)>)
        requires
            self.wf(),
        ensures
            r == self.spec_addr_value_at(addr.get() as int),
    {
        let (b0, bank_id) = match self.get_byte(addr) {
            Some(p) => p,
            None => {
                return None;
            },
        };
        let next = match addr.checked_add_unsigned(1) {
            Some(a) => a,
            None => {
                return None;
            },
        };
        match self.banks[bank_id].get_byte(next) {
            Some(b1) => Some((Address::from_le_bytes([b0, b1]), bank_id)),
            None => None,
        }
    }

    /// The concrete program-counter candidates after executing an
    /// instruction at the numeric address `a` whose abstract behaviour is
    /// `succ`.
    pub open spec fn spec_resolve_op_succ(self, a: int, succ: OpSucc) -> OpSuccResolved {
        match succ {
            OpSucc::Normal(offset) => OpSuccResolved::Normal(Address(((a + offset) % 0x10000) as u16)),
            OpSucc::Brk => OpSuccResolved::Brk(
                match self.spec_addr_value_at(0xFFFE) {
                    Some(p) => Some(p.0),
                    None => None,
                },
            ),
            OpSucc::Kil => OpSuccResolved::Kil,
            OpSucc::Branch(rel) => (OpSuccResolved::Branch {
                taken: Address((((a + 2) % 0x10000 + rel) % 0x10000) as u16),
                not_taken: Address(((a + 2) % 0x10000) as u16),
            }),
            OpSucc::Jsr(dst) => OpSuccResolved::Jsr(dst),
            OpSucc::Rti => OpSuccResolved::Rti,
            OpSucc::Rts => OpSuccResolved::Rts,
            OpSucc::JmpAbs(dst) => OpSuccResolved::JmpAbs(dst),
            OpSucc::JmpInd(ptr) => OpSuccResolved::JmpInd(
                if ptr.get() % 0x100 == 0xFF {
                    // The 6502 wraps the pointer high byte read around the
                    // page boundary; treat such a pointer as unresolvable.
                    None
                } else {
                    match self.spec_addr_value_at(ptr.get() as int) {
                        Some(p) => Some(p.0),
                        None => None,
                    }
                },
            ),
        }
    }

    /// Resolves the abstract successor of the instruction at `addr` to the
    /// concrete program-counter candidates. The brk vector is read at
    /// 0xFFFE; an indirect jmp whose pointer would wrap a page is refused.
    pub fn resolve_op_succ(&self, addr: Address, succ: OpSucc) -> (r: OpSuccResolved)
        requires
            self.wf(),
        ensures
            r == self.spec_resolve_op_succ(addr.get() as int, succ),
    {
        match succ {
            OpSucc::Normal(offset) => OpSuccResolved::Normal(addr.wrapping_add_unsigned(offset)),
            OpSucc::Brk => OpSuccResolved::Brk(
                match self.fetch_addr(Address::new(0xFFFE)) {
                    Some(p) => Some(p.0),
                    None => None,
                },
            ),
            OpSucc::Kil => OpSuccResolved::Kil,
            OpSucc::Branch(rel) => {
                let not_taken = addr.wrapping_add_unsigned(2);
                let taken = not_taken.wrapping_add_signed(rel as isize);
                OpSuccResolved::Branch { taken, not_taken }
            },
            OpSucc::Jsr(dst) => OpSuccResolved::Jsr(dst),
            OpSucc::Rti => OpSuccResolved::Rti,
            OpSucc::Rts => OpSuccResolved::Rts,
            OpSucc::JmpAbs(dst) => OpSuccResolved::JmpAbs(dst),
            OpSucc::JmpInd(ptr) => {
                if ptr.get() % 0x100 == 0xFF {
                    OpSuccResolved::JmpInd(None)
                } else {
                    OpSuccResolved::JmpInd(
                        match self.fetch_addr(ptr) {
                            Some(p) => Some(p.0),
                            None => None,
                        },
                    )
                }
            },
        }
    }
}

/// The failure modes of `Memory::fetch_op`.
#[derive(Clone, Debug, PartialEq, Eq)]
pub enum FetchOpError {
    /// No bank covers the address, so not even the opcode can be read.
    Nothing,
    /// The opcode can be read but the instruction is truncated at the end of
    /// its bank; holds the available prefix (one or two bytes).
    Incomplete(Vec<u8>),
}

/// The concrete program-counter candidates after executing an instruction.
/// They may wrap around the address space or leave the bank.
#[derive(Clone, Copy, Debug, PartialEq, Eq, Structural)]
pub enum OpSuccResolved {
    /// A non-control-flow instruction; the address just after it.
    Normal(Address),
    /// The brk instruction; the IRQ handler address when it can be read.
    Brk(Option<Address>),
    /// Any kil instruction: the CPU halts.
    Kil,
    /// Any branch instruction; the taken and not-taken addresses, which may
    /// coincide.
    Branch { taken: Address, not_taken: Address },
    /// The jsr instruction.
    Jsr(Address),
    /// The rti instruction.
    Rti,
    /// The rts instruction.
    Rts,
    /// The absolute jmp instruction.
    JmpAbs(Address),
    /// The indirect jmp instruction; the pointed-to address when the pointer
    /// can be followed.
    JmpInd(Option<Address>),
}

} // verus!
