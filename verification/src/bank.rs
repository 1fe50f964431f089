//! A bank: a contiguous byte image loaded at a start address in the logical
//! address space, with a flag marking banks that are not subject to bank
//! switching.

use vstd::prelude::*;

use crate::address::{Address, AddressRange};

verus! {

/// A contiguous, nonempty byte image placed at a start address. A *fixed*
/// bank is visible regardless of which bank is being disassembled.
#[derive(Clone, Debug, PartialEq, Eq)]
pub struct Bank {
    addr: Address,
    body: Vec<u8>,
    fixed: bool,
}

impl Bank {
    pub closed spec fn spec_addr(self) -> Address {
        self.addr
    }

    pub closed spec fn spec_body(self) -> Seq<u8> {
        self.body@
    }

    pub closed spec fn spec_is_fixed(self) -> bool {
        self.fixed
    }

    /// The bank is nonempty and fits in the 16-bit address space.
    pub open spec fn wf(self) -> bool {
        &&& self.spec_body().len() >= 1
        &&& self.spec_addr().get() + self.spec_body().len() <= 0x10000
    }

    /// Whether the bank covers the numeric address `a`.
    pub open spec fn spec_contains(self, a: int) -> bool {
        self.spec_addr().get() <= a < self.spec_addr().get() + self.spec_body().len()
    }

    /// The byte the bank holds at the numeric address `a`.
    pub open spec fn spec_byte_at(self, a: int) -> u8 {
        self.spec_body()[a - self.spec_addr().get()]
    }

    /// Builds a bank from its start address, contents and fixed flag.
    pub fn new(addr: Address, body: Vec<u8>, fixed: bool) -> (r: Self)
        requires
            body@.len() >= 1,
            addr.get() + body@.len() <= 0x10000,
        ensures
            r.wf(),
            r.spec_addr() == addr,
            r.spec_body() == body@,
            r.spec_is_fixed() == fixed,
    {
        Bank { addr, body, fixed }
    }

    /// The start address.
    pub fn addr(&self) -> (r: Address)
        ensures
            r == self.spec_addr(),
    {
        self.addr
    }

    /// The whole contents.
    pub fn body(&self) -> (r: &Vec<u8>)
        ensures
            r@ == self.spec_body(),
    {
        &self.body
    }

    pub fn is_fixed(&self) -> (r: bool)
        ensures
            r == self.spec_is_fixed(),
    {
        self.fixed
    }

    /// The number of bytes in the bank.
    pub fn len(&self) -> (r: usize)
        ensures
            r == self.spec_body().len(),
    {
        self.body.len()
    }

    /// The address range the bank covers.
    pub fn addr_range(&self) -> (r: AddressRange)
        requires
            self.wf(),
        ensures
            r.wf(),
            r.min() == self.spec_addr(),
            r.max().get() == self.spec_addr().get() + self.spec_body().len() - 1,
    {
        AddressRange::from_start_len(self.addr, self.body.len())
    }

    /// Whether the bank covers the given address.
    pub fn contains_addr(&self, addr: Address) -> (r: bool)
        requires
            self.wf(),
        ensures
            r == self.spec_contains(addr.get() as int),
    {
        self.addr_range().contains_addr(addr)
    }

    /// Whether the bank covers the whole given range.
    pub fn contains_range(&self, range: AddressRange) -> (r: bool)
        requires
            self.wf(),
            range.wf(),
        ensures
            r == (self.spec_contains(range.min().get() as int) && self.spec_contains(
                range.max().get() as int,
            )),
    {
        self.addr_range().contains_range(range)
    }

    /// The byte at the given address, or `None` outside the bank.
    pub fn get_byte(&self, addr: Address) -> (r: Option<u8>)
        requires
            self.wf(),
        ensures
            self.spec_contains(addr.get() as int) ==> r == Some(
                self.spec_byte_at(addr.get() as int),
            ),
            !self.spec_contains(addr.get() as int) ==> r is None,
    {
        if self.contains_addr(addr) {
            Some(self.body[(addr.get() - self.addr.get()) as usize])
        } else {
            None
        }
    }

    /// The bytes of the given range, or `None` when the range is not wholly
    /// inside the bank.
    pub fn get_bytes(&self, range: AddressRange) -> (r: Option<Vec<u8>>)
        requires
            self.wf(),
            range.wf(),
        ensures
            self.spec_contains(range.min().get() as int) && self.spec_contains(
                range.max().get() as int,
            ) ==> (r matches Some(v) && v@ == self.spec_body().subrange(
                range.min().get() - self.spec_addr().get(),
                range.max().get() + 1 - self.spec_addr().get(),
            )),
            !(self.spec_contains(range.min().get() as int) && self.spec_contains(
                range.max().get() as int,
            )) ==> r is None,
    {
        if self.contains_range(range) {
            let lo = (range.min().get() - self.addr.get()) as usize;
            let hi = (range.max().get() - self.addr.get()) as usize + 1;
            let mut v: Vec<u8> = Vec::new();
            let mut i: usize = lo;
            while i < hi
                invariant
                    lo <= i <= hi,
                    hi <= self.spec_body().len(),
                    v@ == self.spec_body().subrange(lo as int, i as int),
                decreases hi - i,
            {
                v.push(self.body[i]);
                proof {
                    assert(v@ =~= self.spec_body().subrange(lo as int, i + 1));
                }
                i = i + 1;
            }
            Some(v)
        } else {
            None
        }
    }

    /// The (nonempty) bytes from the given address to the end of the bank,
    /// or `None` outside the bank.
    pub fn get_bytes_from(&self, addr: Address) -> (r: Option<Vec<u8>>)
        requires
            self.wf(),
        ensures
            self.spec_contains(addr.get() as int) ==> (r matches Some(v) && v@
                == self.spec_body().subrange(
                addr.get() - self.spec_addr().get(),
                self.spec_body().len() as int,
            ) && v@.len() >= 1),
            !self.spec_contains(addr.get() as int) ==> r is None,
    {
        if self.contains_addr(addr) {
            let lo = (addr.get() - self.addr.get()) as usize;
            let hi = self.body.len();
            let mut v: Vec<u8> = Vec::new();
            let mut i: usize = lo;
            while i < hi
                invariant
                    lo <= i <= hi,
                    hi == self.spec_body().len(),
                    v@ == self.spec_body().subrange(lo as int, i as int),
                decreases hi - i,
            {
                v.push(self.body[i]);
                proof {
                    assert(v@ =~= self.spec_body().subrange(lo as int, i + 1));
                }
                i = i + 1;
            }
            Some(v)
        } else {
            None
        }
    }
}

} // verus!
