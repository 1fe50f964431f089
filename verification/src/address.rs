//! Address primitives: 16-bit logical addresses, zero-page addresses,
//! nonempty address ranges, and address-indexed arrays.

use vstd::prelude::*;
use vstd::arithmetic::div_mod::{lemma_mod_multiples_vanish, lemma_small_mod};

verus! {

/// A logical address in the 16-bit address space.
#[derive(Clone, Copy, Debug, PartialEq, Eq, Structural)]
pub struct Address(pub u16);

impl Address {
    /// The numeric value of the address, for use in specifications.
    pub open spec fn spec_get(self) -> u16 {
        self.0
    }

    pub fn new(inner: u16) -> (r: Self)
        ensures
            r.get() == inner,
    {
        Address(inner)
    }

    #[verifier::when_used_as_spec(spec_get)]
    pub fn get(self) -> (r: u16)
        ensures
            r == self.get(),
    {
        self.0
    }

    pub open spec fn spec_is_zeropage(self) -> bool {
        self.get() <= 0xFF
    }

    /// Whether the address lies in the zero page.
    #[verifier::when_used_as_spec(spec_is_zeropage)]
    pub fn is_zeropage(self) -> (r: bool)
        ensures
            r == self.is_zeropage(),
    {
        self.0 <= 0xFF
    }

    /// Adds an unsigned offset; `None` on overflow of the address space.
    pub fn checked_add_unsigned(self, offset: usize) -> (r: Option<Self>)
        ensures
            self.get() + offset <= 0xFFFF ==> (r matches Some(a) && a.get() == self.get() + offset),
            self.get() + offset > 0xFFFF ==> r is None,
    {
        if offset > 0xFFFF {
            None
        } else {
            match self.0.checked_add(offset as u16) {
                Some(v) => Some(Address(v)),
                None => None,
            }
        }
    }

    /// Adds a signed offset; `None` when the result leaves the address space.
    pub fn checked_add_signed(self, rel: isize) -> (r: Option<Self>)
        ensures
            0 <= self.get() + rel <= 0xFFFF ==> (r matches Some(a) && a.get() == self.get() + rel),
            !(0 <= self.get() + rel <= 0xFFFF) ==> r is None,
    {
        if rel >= 0 {
            if rel > 0xFFFF {
                None
            } else {
                self.checked_add_unsigned(rel as usize)
            }
        } else {
            if rel < -0xFFFF {
                None
            } else {
                let mag = (-rel) as u16;
                if mag > self.0 {
                    None
                } else {
                    Some(Address(self.0 - mag))
                }
            }
        }
    }

    /// Adds an unsigned offset, wrapping around the 16-bit address space.
    pub fn wrapping_add_unsigned(self, offset: usize) -> (r: Self)
        ensures
            r.get() == (self.get() + offset) % 0x10000,
    {
        let om = offset % 0x10000;
        let sum = self.0 as usize + om;
        let v = if sum >= 0x10000 {
            sum - 0x10000
        } else {
            sum
        };
        proof {
            lemma_mod_multiples_vanish(offset as int / 0x10000, self.get() + om, 0x10000);
            assert(offset == 0x10000 * (offset as int / 0x10000) + om) by {
                vstd::arithmetic::div_mod::lemma_fundamental_div_mod(offset as int, 0x10000);
            };
            if sum >= 0x10000 {
                lemma_mod_multiples_vanish(1, v as int, 0x10000);
            }
            lemma_small_mod(v as nat, 0x10000);
        }
        Address(v as u16)
    }

    /// Adds a signed offset, wrapping around the 16-bit address space.
    pub fn wrapping_add_signed(self, rel: isize) -> (r: Self)
        ensures
            r.get() == (self.get() + rel) % 0x10000,
    {
        if rel >= 0 {
            self.wrapping_add_unsigned(rel as usize)
        } else {
            // Magnitude of `rel`, computed without overflowing on the most
            // negative value.
            let mag1 = (-(rel + 1)) as usize;
            let m = mag1 % 0x10000 + 1;
            proof {
                let mag = mag1 + 1;
                assert(self.get() + rel == self.get() - mag);
                // mag % 0x10000 == m % 0x10000
                lemma_mod_multiples_vanish(mag1 as int / 0x10000, m as int, 0x10000);
                assert(mag1 == 0x10000 * (mag1 as int / 0x10000) + mag1 % 0x10000) by {
                    vstd::arithmetic::div_mod::lemma_fundamental_div_mod(mag1 as int, 0x10000);
                };
                // (self - mag) % 0x10000 == (self + (0x10000 - m)) % 0x10000
                lemma_mod_multiples_vanish(
                    1 + mag1 as int / 0x10000,
                    self.get() - mag,
                    0x10000,
                );
            }
            if m == 0x10000 {
                proof {
                    lemma_small_mod(self.get() as nat, 0x10000);
                }
                self
            } else {
                self.wrapping_add_unsigned(0x10000 - m)
            }
        }
    }

    /// Converts a little-endian byte pair to an address.
    pub fn from_le_bytes(buf: [u8; 2]) -> (r: Self)
        ensures
            r.get() == buf[0] + 0x100 * buf[1],
    {
        Address(buf[0] as u16 + 0x100 * buf[1] as u16)
    }

    /// Converts the address to its little-endian byte pair.
    pub fn to_le_bytes(self) -> (r: [u8; 2])
        ensures
            r[0] == self.get() % 0x100,
            r[1] == self.get() / 0x100,
    {
        [(self.0 % 0x100) as u8, (self.0 / 0x100) as u8]
    }

    /// Enumerates all addresses in ascending order.
    pub fn all() -> (r: AddressIterator)
        ensures
            r.wf(),
            r.cur() == 0,
            r.end() == 0x10000,
    {
        AddressIterator { cur: 0, end: 0x10000 }
    }
}

/// A zero-page address.
#[derive(Clone, Copy, Debug, PartialEq, Eq, Structural)]
pub struct ZpAddress(pub u8);

impl ZpAddress {
    /// The numeric value of the address, for use in specifications.
    pub open spec fn spec_get(self) -> u8 {
        self.0
    }

    pub fn new(inner: u8) -> (r: Self)
        ensures
            r.get() == inner,
    {
        ZpAddress(inner)
    }

    #[verifier::when_used_as_spec(spec_get)]
    pub fn get(self) -> (r: u8)
        ensures
            r == self.get(),
    {
        self.0
    }

    /// The same location as a 16-bit address.
    pub fn to_addr(self) -> (r: Address)
        ensures
            r.get() == self.get(),
            r.is_zeropage(),
    {
        Address::new(self.0 as u16)
    }

    /// Adds an unsigned offset; `None` on overflow of the zero page.
    pub fn checked_add_unsigned(self, offset: usize) -> (r: Option<Self>)
        ensures
            self.get() + offset <= 0xFF ==> (r matches Some(a) && a.get() == self.get() + offset),
            self.get() + offset > 0xFF ==> r is None,
    {
        if offset > 0xFF {
            None
        } else {
            match self.0.checked_add(offset as u8) {
                Some(v) => Some(ZpAddress(v)),
                None => None,
            }
        }
    }

    /// Adds a signed offset; `None` when the result leaves the zero page.
    pub fn checked_add_signed(self, rel: isize) -> (r: Option<Self>)
        ensures
            0 <= self.get() + rel <= 0xFF ==> (r matches Some(a) && a.get() == self.get() + rel),
            !(0 <= self.get() + rel <= 0xFF) ==> r is None,
    {
        if rel >= 0 {
            if rel > 0xFF {
                None
            } else {
                self.checked_add_unsigned(rel as usize)
            }
        } else {
            if rel < -0xFF {
                None
            } else {
                let mag = (-rel) as u8;
                if mag > self.0 {
                    None
                } else {
                    Some(ZpAddress(self.0 - mag))
                }
            }
        }
    }

    /// Adds an unsigned offset, wrapping around the zero page.
    pub fn wrapping_add_unsigned(self, offset: usize) -> (r: Self)
        ensures
            r.get() == (self.get() + offset) % 0x100,
    {
        let om = offset % 0x100;
        let sum = self.0 as usize + om;
        let v = if sum >= 0x100 {
            sum - 0x100
        } else {
            sum
        };
        proof {
            lemma_mod_multiples_vanish(offset as int / 0x100, self.get() + om, 0x100);
            assert(offset == 0x100 * (offset as int / 0x100) + om) by {
                vstd::arithmetic::div_mod::lemma_fundamental_div_mod(offset as int, 0x100);
            };
            if sum >= 0x100 {
                lemma_mod_multiples_vanish(1, v as int, 0x100);
            }
            lemma_small_mod(v as nat, 0x100);
        }
        ZpAddress(v as u8)
    }

    /// Adds a signed offset, wrapping around the zero page.
    pub fn wrapping_add_signed(self, rel: isize) -> (r: Self)
        ensures
            r.get() == (self.get() + rel) % 0x100,
    {
        if rel >= 0 {
            self.wrapping_add_unsigned(rel as usize)
        } else {
            let mag1 = (-(rel + 1)) as usize;
            let m = mag1 % 0x100 + 1;
            proof {
                let mag = mag1 + 1;
                assert(self.get() + rel == self.get() - mag);
                lemma_mod_multiples_vanish(mag1 as int / 0x100, m as int, 0x100);
                assert(mag1 == 0x100 * (mag1 as int / 0x100) + mag1 % 0x100) by {
                    vstd::arithmetic::div_mod::lemma_fundamental_div_mod(mag1 as int, 0x100);
                };
                lemma_mod_multiples_vanish(1 + mag1 as int / 0x100, self.get() - mag, 0x100);
            }
            if m == 0x100 {
                proof {
                    lemma_small_mod(self.get() as nat, 0x100);
                }
                self
            } else {
                self.wrapping_add_unsigned(0x100 - m)
            }
        }
    }

    /// Converts a little-endian byte to a zero-page address.
    pub fn from_le_bytes(buf: [u8; 1]) -> (r: Self)
        ensures
            r.get() == buf[0],
    {
        ZpAddress(buf[0])
    }

    /// Converts the zero-page address to its single byte.
    pub fn to_le_bytes(self) -> (r: [u8; 1])
        ensures
            r[0] == self.get(),
    {
        [self.0]
    }

    /// Enumerates all zero-page addresses in ascending order.
    pub fn all() -> (r: Vec<ZpAddress>)
        ensures
            r@.len() == 0x100,
            forall|i: int| 0 <= i < 0x100 ==> (#[trigger] r@[i]).get() == i,
    {
        let mut v: Vec<ZpAddress> = Vec::new();
        let mut i: usize = 0;
        while i < 0x100
            invariant
                i <= 0x100,
                v@.len() == i,
                forall|j: int| 0 <= j < i ==> (#[trigger] v@[j]).get() == j,
            decreases 0x100 - i,
        {
            v.push(ZpAddress(i as u8));
            i = i + 1;
        }
        v
    }
}

/// A nonempty closed interval of logical addresses with `min <= max`.
#[derive(Clone, Copy, Debug, PartialEq, Eq, Structural)]
pub struct AddressRange {
    min: Address,
    max: Address,
}

impl AddressRange {
    /// The bounds are ordered; constructors establish this and the methods
    /// that compute with the bounds rely on it.
    pub open spec fn wf(self) -> bool {
        self.min().get() <= self.max().get()
    }

    pub closed spec fn spec_min(self) -> Address {
        self.min
    }

    pub closed spec fn spec_max(self) -> Address {
        self.max
    }

    /// Builds the range `[min, max]`.
    pub fn from_min_max(min: Address, max: Address) -> (r: Self)
        requires
            min.get() <= max.get(),
        ensures
            r.wf(),
            r.min() == min,
            r.max() == max,
    {
        AddressRange { min, max }
    }

    /// Builds the range of `len` addresses starting at `min`.
    pub fn from_start_len(min: Address, len: usize) -> (r: Self)
        requires
            len >= 1,
            min.get() + len <= 0x10000,
        ensures
            r.wf(),
            r.min() == min,
            r.max().get() == min.get() + len - 1,
    {
        let max = match min.checked_add_unsigned(len - 1) {
            Some(a) => a,
            None => min,  // unreachable under the precondition
        };
        AddressRange { min, max }
    }

    #[verifier::when_used_as_spec(spec_min)]
    pub fn min(self) -> (r: Address)
        ensures
            r == self.min(),
    {
        self.min
    }

    #[verifier::when_used_as_spec(spec_max)]
    pub fn max(self) -> (r: Address)
        ensures
            r == self.max(),
    {
        self.max
    }

    pub open spec fn spec_len(self) -> int {
        self.max().get() - self.min().get() + 1
    }

    /// The number of addresses in the range.
    pub fn len(self) -> (r: usize)
        requires
            self.wf(),
        ensures
            r == self.spec_len(),
            1 <= r <= 0x10000,
    {
        (self.max.0 - self.min.0) as usize + 1
    }

    pub open spec fn spec_intersects(self, other: Self) -> bool {
        !(self.max().get() < other.min().get() || other.max().get() < self.min().get())
    }

    /// Whether the two ranges share at least one address.
    #[verifier::when_used_as_spec(spec_intersects)]
    pub fn intersects(self, other: Self) -> (r: bool)
        ensures
            r == self.intersects(other),
    {
        !(self.max.0 < other.min.0 || other.max.0 < self.min.0)
    }

    pub open spec fn spec_contains_addr(self, addr: Address) -> bool {
        self.min().get() <= addr.get() <= self.max().get()
    }

    /// Whether the range contains the given address.
    #[verifier::when_used_as_spec(spec_contains_addr)]
    pub fn contains_addr(self, addr: Address) -> (r: bool)
        ensures
            r == self.contains_addr(addr),
    {
        self.min.0 <= addr.0 && addr.0 <= self.max.0
    }

    pub open spec fn spec_contains_range(self, other: Self) -> bool {
        self.min().get() <= other.min().get() && other.max().get() <= self.max().get()
    }

    /// Whether `other` is a subset of this range.
    #[verifier::when_used_as_spec(spec_contains_range)]
    pub fn contains_range(self, other: Self) -> (r: bool)
        ensures
            r == self.contains_range(other),
    {
        self.min.0 <= other.min.0 && other.max.0 <= self.max.0
    }

    /// Enumerates the addresses of the range in ascending order.
    pub fn iter(self) -> (r: AddressIterator)
        requires
            self.wf(),
        ensures
            r.wf(),
            r.cur() == self.min().get(),
            r.end() == self.max().get() + 1,
    {
        AddressIterator { cur: self.min.0 as usize, end: self.max.0 as usize + 1 }
    }
}

/// Enumerates a half-open interval of logical addresses in ascending order.
#[derive(Clone, Debug, PartialEq, Eq, Structural)]
pub struct AddressIterator {
    cur: usize,
    end: usize,
}

impl AddressIterator {
    pub closed spec fn cur(self) -> int {
        self.cur as int
    }

    pub closed spec fn end(self) -> int {
        self.end as int
    }

    pub open spec fn wf(self) -> bool {
        0 <= self.cur() <= self.end() <= 0x10000
    }

    /// Yields the next address, ascending, until the interval is exhausted.
    pub fn next(&mut self) -> (r: Option<Address>)
        requires
            old(self).wf(),
        ensures
            final(self).wf(),
            final(self).end() == old(self).end(),
            old(self).cur() < old(self).end() ==> (r matches Some(a) && a.get() == old(self).cur()
                && final(self).cur() == old(self).cur() + 1),
            old(self).cur() >= old(self).end() ==> r is None && final(self).cur() == old(
                self,
            ).cur(),
    {
        if self.cur < self.end {
            let a = Address(self.cur as u16);
            self.cur = self.cur + 1;
            Some(a)
        } else {
            None
        }
    }
}

/// A 65536-element array indexed by logical addresses.
#[derive(Clone, Debug, PartialEq, Eq)]
pub struct ArrayByAddress<T> {
    cells: Vec<T>,
}

impl<T> View for ArrayByAddress<T> {
    type V = Seq<T>;

    closed spec fn view(&self) -> Seq<T> {
        self.cells@
    }
}

impl<T> ArrayByAddress<T> {
    /// The array always covers the whole address space.
    pub open spec fn wf(self) -> bool {
        self@.len() == 0x10000
    }

    pub fn get(&self, addr: Address) -> (r: &T)
        requires
            self.wf(),
        ensures
            *r == self@[addr.get() as int],
    {
        &self.cells[addr.get() as usize]
    }

    pub fn set(&mut self, addr: Address, value: T)
        requires
            old(self).wf(),
        ensures
            final(self).wf(),
            final(self)@ == old(self)@.update(addr.get() as int, value),
    {
        self.cells.set(addr.get() as usize, value);
    }
}

impl<T: Copy> ArrayByAddress<T> {
    /// Builds an array with every cell holding `value`.
    pub fn new(value: T) -> (r: Self)
        ensures
            r.wf(),
            forall|i: int| 0 <= i < 0x10000 ==> r@[i] == value,
    {
        let mut cells: Vec<T> = Vec::new();
        let mut i: usize = 0;
        while i < 0x10000
            invariant
                i <= 0x10000,
                cells@.len() == i,
                forall|j: int| 0 <= j < i ==> cells@[j] == value,
            decreases 0x10000 - i,
        {
            cells.push(value);
            i = i + 1;
        }
        ArrayByAddress { cells }
    }

    /// Sets every cell of `range` to `value`.
    pub fn fill_range(&mut self, range: AddressRange, value: T)
        requires
            old(self).wf(),
            range.wf(),
        ensures
            final(self).wf(),
            forall|i: int|
                range.min().get() <= i <= range.max().get() ==> final(self)@[i] == value,
            forall|i: int|
                0 <= i < 0x10000 && !(range.min().get() <= i <= range.max().get())
                    ==> final(self)@[i] == old(self)@[i],
    {
        let mut i: usize = range.min().get() as usize;
        let end: usize = range.max().get() as usize;
        while i <= end
            invariant
                range.min().get() <= i <= end + 1,
                end == range.max().get(),
                end < 0x10000,
                self.wf(),
                forall|j: int| range.min().get() <= j < i ==> self@[j] == value,
                forall|j: int|
                    0 <= j < 0x10000 && !(range.min().get() <= j < i) ==> self@[j] == old(
                        self,
                    )@[j],
            decreases end + 1 - i,
        {
            self.cells.set(i, value);
            i = i + 1;
        }
    }
}

} // verus!
