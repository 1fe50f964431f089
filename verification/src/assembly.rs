//! The assembly model: statements, labels and the finished assembly of one
//! bank.

use vstd::prelude::*;

use crate::address::{Address, AddressRange, ArrayByAddress};
use crate::op::Op;

verus! {

/// One statement of the assembly listing.
#[derive(Clone, Debug, PartialEq, Eq)]
pub enum Statement {
    /// A decoded instruction.
    Op(Op),
    /// The one or two leading bytes of an instruction truncated at the end
    /// of a bank.
    IncompleteOp(Vec<u8>),
    /// One raw data byte.
    Byte(u8),
}

impl Statement {
    /// A truncated instruction holds one or two bytes.
    pub open spec fn wf(self) -> bool {
        self matches Statement::IncompleteOp(buf) ==> 1 <= buf@.len() <= 2
    }

    pub open spec fn spec_len(self) -> int {
        match self {
            Statement::Op(op) => op.spec_len(),
            Statement::IncompleteOp(buf) => buf@.len() as int,
            Statement::Byte(_) => 1,
        }
    }

    /// The number of bytes the statement covers.
    pub fn len(&self) -> (r: usize)
        requires
            self.wf(),
        ensures
            r == self.spec_len(),
            1 <= r <= 3,
    {
        match self {
            Statement::Op(op) => op.len(),
            Statement::IncompleteOp(buf) => buf.len(),
            Statement::Byte(_) => 1,
        }
    }

    /// The total byte length of a sequence of statements.
    pub open spec fn spec_len_sum(stmts: Seq<Statement>) -> int
        decreases stmts.len(),
    {
        if stmts.len() == 0 {
            0
        } else {
            Statement::spec_len_sum(stmts.drop_last()) + stmts.last().spec_len()
        }
    }

    /// The machine-code bytes the statement stands for.
    pub open spec fn spec_bytes(self) -> Seq<u8> {
        match self {
            Statement::Op(op) => op.spec_encode(),
            Statement::IncompleteOp(buf) => buf@,
            Statement::Byte(b) => seq![b],
        }
    }

    /// The machine-code bytes of a whole statement sequence.
    pub open spec fn spec_bytes_concat(stmts: Seq<Statement>) -> Seq<u8>
        decreases stmts.len(),
    {
        if stmts.len() == 0 {
            Seq::empty()
        } else {
            Statement::spec_bytes_concat(stmts.drop_last()) + stmts.last().spec_bytes()
        }
    }
}

/// A label: a named position in the listing. An *entrypoint* label marks the
/// start of a routine.
#[derive(Clone, Copy, Debug, PartialEq, Eq, Structural)]
pub struct Label {
    pub entrypoint: bool,
}

impl Label {
    pub fn new(entrypoint: bool) -> (r: Self)
        ensures
            r.entrypoint == entrypoint,
    {
        Label { entrypoint }
    }

    pub open spec fn spec_is_entrypoint(&self) -> bool {
        self.entrypoint
    }

    /// Whether the label marks the entry point of a routine.
    #[verifier::when_used_as_spec(spec_is_entrypoint)]
    pub fn is_entrypoint(&self) -> (r: bool)
        ensures
            r == self.is_entrypoint(),
    {
        self.entrypoint
    }
}

/// The labels of the whole logical address space: an optional label per
/// address.
#[derive(Clone, Debug, PartialEq, Eq)]
pub struct Labels {
    slots: ArrayByAddress<Option<Label>>,
}

impl View for Labels {
    type V = Seq<Option<Label>>;

    closed spec fn view(&self) -> Seq<Option<Label>> {
        self.slots@
    }
}

impl Default for Labels {
    /// A label table with no label anywhere.
    fn default() -> (r: Self)
        ensures
            r.wf(),
            forall|i: int| 0 <= i < 0x10000 ==> (#[trigger] r@[i]) is None,
    {
        Labels { slots: ArrayByAddress::new(None) }
    }
}

impl Labels {
    pub open spec fn wf(self) -> bool {
        self@.len() == 0x10000
    }

    /// The label at the given address, if any.
    pub fn get(&self, addr: Address) -> (r: Option<Label>)
        requires
            self.wf(),
        ensures
            r == self@[addr.get() as int],
    {
        *self.slots.get(addr)
    }

    /// Whether the entry `slot` holds an entrypoint label.
    pub open spec fn spec_slot_entrypoint(slot: Option<Label>) -> bool {
        slot matches Some(l) && l.entrypoint
    }

    /// Places a label at the given address. A label already present merges
    /// with the new one: once either is an entrypoint, the stored label is
    /// an entrypoint.
    pub fn set(&mut self, addr: Address, label: Label)
        requires
            old(self).wf(),
        ensures
            final(self).wf(),
            final(self)@ == old(self)@.update(
                addr.get() as int,
                Some(
                    Label {
                        entrypoint: label.entrypoint || Labels::spec_slot_entrypoint(
                            old(self)@[addr.get() as int],
                        ),
                    },
                ),
            ),
            Labels::spec_slot_entrypoint(old(self)@[addr.get() as int])
                ==> Labels::spec_slot_entrypoint(final(self)@[addr.get() as int]),
    {
        let merged = match *self.slots.get(addr) {
            Some(orig) => Label::new(orig.is_entrypoint() || label.is_entrypoint()),
            None => label,
        };
        self.slots.set(addr, Some(merged));
    }
}

/// The finished assembly of one bank: its address range, its name, the
/// ordered statements covering exactly the bank's bytes, and the label
/// table.
#[derive(Debug)]
pub struct Assembly {
    bank_addr_range: AddressRange,
    bank_name: String,
    statements: Vec<Statement>,
    labels: Labels,
}

impl Assembly {
    pub closed spec fn spec_bank_addr_range(self) -> AddressRange {
        self.bank_addr_range
    }

    pub closed spec fn spec_bank_name(self) -> Seq<char> {
        self.bank_name@
    }

    pub closed spec fn spec_statements(self) -> Seq<Statement> {
        self.statements@
    }

    pub closed spec fn spec_labels(self) -> Labels {
        self.labels
    }

    /// The statements are nonempty and well formed and their total byte
    /// length equals the length of the bank's address range.
    pub open spec fn wf(self) -> bool {
        &&& self.spec_bank_addr_range().wf()
        &&& self.spec_statements().len() >= 1
        &&& forall|i: int|
            0 <= i < self.spec_statements().len() ==> (#[trigger] self.spec_statements()[i]).wf()
        &&& Statement::spec_len_sum(self.spec_statements())
            == self.spec_bank_addr_range().spec_len()
        &&& self.spec_labels().wf()
    }

    /// The address range of the disassembled bank.
    pub fn bank_addr_range(&self) -> (r: AddressRange)
        ensures
            r == self.spec_bank_addr_range(),
    {
        self.bank_addr_range
    }

    /// The start address of the disassembled bank.
    pub fn bank_addr(&self) -> (r: Address)
        ensures
            r == self.spec_bank_addr_range().spec_min(),
    {
        self.bank_addr_range.min()
    }

    /// The name of the disassembled bank.
    pub fn bank_name(&self) -> (r: &str)
        ensures
            r@ == self.spec_bank_name(),
    {
        self.bank_name.as_str()
    }

    /// The statements of the listing.
    pub fn statements(&self) -> (r: &Vec<Statement>)
        ensures
            r@ == self.spec_statements(),
    {
        &self.statements
    }

    /// The label table.
    pub fn labels(&self) -> (r: &Labels)
        ensures
            *r == self.spec_labels(),
    {
        &self.labels
    }
}

/// The reasons `AssemblyBuilder::build` refuses its inputs.
#[derive(Clone, Copy, Debug, PartialEq, Eq, Structural)]
pub enum AssemblyBuildError {
    /// The bank address range was never supplied.
    MissingBankAddrRange,
    /// The bank name was never supplied.
    MissingBankName,
    /// The statements were never supplied.
    MissingStatements,
    /// The label table was never supplied.
    MissingLabels,
    /// The statement list is empty.
    EmptyStatements,
    /// The total statement length differs from the bank length.
    LengthMismatch,
}

/// Builds an `Assembly`, requiring every field and enforcing that the
/// statements exactly cover the bank.
#[derive(Debug)]
pub struct AssemblyBuilder {
    bank_addr_range: Option<AddressRange>,
    bank_name: Option<String>,
    statements: Option<Vec<Statement>>,
    labels: Option<Labels>,
}

impl AssemblyBuilder {
    pub closed spec fn spec_bank_addr_range(self) -> Option<AddressRange> {
        self.bank_addr_range
    }

    pub closed spec fn spec_bank_name(self) -> Option<Seq<char>> {
        match self.bank_name {
            Some(n) => Some(n@),
            None => None,
        }
    }

    pub closed spec fn spec_statements(self) -> Option<Seq<Statement>> {
        match self.statements {
            Some(s) => Some(s@),
            None => None,
        }
    }

    pub closed spec fn spec_labels(self) -> Option<Labels> {
        self.labels
    }

    pub fn new() -> (r: Self)
        ensures
            r.spec_bank_addr_range() is None,
            r.spec_bank_name() is None,
            r.spec_statements() is None,
            r.spec_labels() is None,
    {
        AssemblyBuilder { bank_addr_range: None, bank_name: None, statements: None, labels: None }
    }

    pub fn bank_addr_range(self, bank_addr_range: AddressRange) -> (r: Self)
        ensures
            r.spec_bank_addr_range() == Some(bank_addr_range),
            r.spec_bank_name() == self.spec_bank_name(),
            r.spec_statements() == self.spec_statements(),
            r.spec_labels() == self.spec_labels(),
    {
        AssemblyBuilder { bank_addr_range: Some(bank_addr_range), ..self }
    }

    pub fn bank_name(self, bank_name: String) -> (r: Self)
        ensures
            r.spec_bank_addr_range() == self.spec_bank_addr_range(),
            r.spec_bank_name() == Some(bank_name@),
            r.spec_statements() == self.spec_statements(),
            r.spec_labels() == self.spec_labels(),
    {
        AssemblyBuilder { bank_name: Some(bank_name), ..self }
    }

    pub fn statements(self, statements: Vec<Statement>) -> (r: Self)
        ensures
            r.spec_bank_addr_range() == self.spec_bank_addr_range(),
            r.spec_bank_name() == self.spec_bank_name(),
            r.spec_statements() == Some(statements@),
            r.spec_labels() == self.spec_labels(),
    {
        AssemblyBuilder { statements: Some(statements), ..self }
    }

    pub fn labels(self, labels: Labels) -> (r: Self)
        ensures
            r.spec_bank_addr_range() == self.spec_bank_addr_range(),
            r.spec_bank_name() == self.spec_bank_name(),
            r.spec_statements() == self.spec_statements(),
            r.spec_labels() == Some(labels),
    {
        AssemblyBuilder { labels: Some(labels), ..self }
    }

    /// Builds the assembly. Fails exactly when a field is missing, the
    /// statement list is empty, or the total statement length differs from
    /// the bank length.
    #[verifier::loop_isolation(false)]
    pub fn build(self) -> (r: Result<Assembly, AssemblyBuildError>)
        requires
            self.spec_statements() matches Some(stmts) ==> forall|i: int|
                0 <= i < stmts.len() ==> (#[trigger] stmts[i]).wf(),
            self.spec_bank_addr_range() matches Some(range) ==> range.wf(),
            self.spec_labels() matches Some(labels) ==> labels.wf(),
        ensures
            self.spec_bank_addr_range() is None ==> r == Err::<Assembly, _>(
                AssemblyBuildError::MissingBankAddrRange,
            ),
            self.spec_bank_addr_range() is Some && self.spec_bank_name() is None ==> r == Err::<
                Assembly,
                _,
            >(AssemblyBuildError::MissingBankName),
            self.spec_bank_addr_range() is Some && self.spec_bank_name() is Some
                && self.spec_statements() is None ==> r == Err::<Assembly, _>(
                AssemblyBuildError::MissingStatements,
            ),
            self.spec_bank_addr_range() is Some && self.spec_bank_name() is Some
                && self.spec_statements() is Some && self.spec_labels() is None ==> r == Err::<
                Assembly,
                _,
            >(AssemblyBuildError::MissingLabels),
            self.spec_bank_addr_range() is Some && self.spec_bank_name() is Some
                && self.spec_statements() is Some && self.spec_labels() is Some ==> ({
                let range = self.spec_bank_addr_range().unwrap();
                let stmts = self.spec_statements().unwrap();
                if stmts.len() == 0 {
                    r == Err::<Assembly, _>(AssemblyBuildError::EmptyStatements)
                } else if Statement::spec_len_sum(stmts) != range.spec_len() {
                    r == Err::<Assembly, _>(AssemblyBuildError::LengthMismatch)
                } else {
                    r matches Ok(built) && built.wf() && built.spec_bank_addr_range() == range
                        && built.spec_bank_name() == self.spec_bank_name().unwrap()
                        && built.spec_statements() == stmts && built.spec_labels()
                        == self.spec_labels().unwrap()
                }
            }),
    {
        let AssemblyBuilder { bank_addr_range, bank_name, statements, labels } = self;
        let range = match bank_addr_range {
            Some(range) => range,
            None => {
                return Err(AssemblyBuildError::MissingBankAddrRange);
            },
        };
        let name = match bank_name {
            Some(name) => name,
            None => {
                return Err(AssemblyBuildError::MissingBankName);
            },
        };
        let stmts = match statements {
            Some(stmts) => stmts,
            None => {
                return Err(AssemblyBuildError::MissingStatements);
            },
        };
        let labels = match labels {
            Some(labels) => labels,
            None => {
                return Err(AssemblyBuildError::MissingLabels);
            },
        };
        proof {
            // Connect the preconditions, stated over the builder's fields,
            // to the locals the fields were moved into.
            assert(self.spec_statements().unwrap() == stmts@);
            assert(forall|j: int| 0 <= j < stmts@.len() ==> (#[trigger] stmts@[j]).wf());
        }
        if stmts.len() == 0 {
            return Err(AssemblyBuildError::EmptyStatements);
        }
        // Sum the statement lengths, giving up as soon as the sum can no
        // longer match a range length (which is at most 0x10000).
        let mut sum: usize = 0;
        let mut i: usize = 0;
        while i < stmts.len()
            invariant
                i <= stmts@.len(),
                forall|j: int| 0 <= j < stmts@.len() ==> (#[trigger] stmts@[j]).wf(),
                sum == Statement::spec_len_sum(stmts@.subrange(0, i as int)),
                sum <= 0x10000,
            decreases stmts@.len() - i,
        {
            proof {
                assert(stmts@.subrange(0, i + 1).drop_last() =~= stmts@.subrange(0, i as int));
                assert(stmts@.subrange(0, i + 1).last() == stmts@[i as int]);
            }
            let l = stmts[i].len();
            if sum + l > 0x10000 {
                proof {
                    lemma_len_sum_grows(stmts@, i + 1);
                    assert(Statement::spec_len_sum(stmts@.subrange(0, i + 1)) == sum + l);
                }
                return Err(AssemblyBuildError::LengthMismatch);
            }
            sum = sum + l;
            i = i + 1;
        }
        proof {
            assert(stmts@.subrange(0, stmts@.len() as int) =~= stmts@);
        }
        let range_len = range.len();
        if sum != range_len {
            return Err(AssemblyBuildError::LengthMismatch);
        }
        Ok(Assembly { bank_addr_range: range, bank_name: name, statements: stmts, labels })
    }
}

/// The total length of a statement sequence is at least the total length of
/// any prefix.
proof fn lemma_len_sum_grows(stmts: Seq<Statement>, k: int)
    requires
        0 <= k <= stmts.len(),
        forall|i: int| 0 <= i < stmts.len() ==> (#[trigger] stmts[i]).wf(),
    ensures
        Statement::spec_len_sum(stmts) >= Statement::spec_len_sum(stmts.subrange(0, k)),
    decreases stmts.len() - k,
{
    if k == stmts.len() {
        assert(stmts.subrange(0, k) =~= stmts);
    } else {
        lemma_len_sum_grows(stmts, k + 1);
        assert(stmts.subrange(0, k + 1).drop_last() =~= stmts.subrange(0, k));
        assert(stmts.subrange(0, k + 1).last() == stmts[k]);
        assert(stmts[k].spec_len() >= 0);
    }
}

} // verus!
