//! The read-only input of the analysis pipeline: the loaded memory, the
//! permission map, the logger annotations, and the designated target bank.

use vstd::prelude::*;

use crate::address::Address;
use crate::bank::Bank;
use crate::cdl::Cdl;
use crate::memory::Memory;
use crate::permission::{Permission, Permissions};

verus! {

/// The input of the disassembler.
#[derive(Debug)]
pub struct Input {
    memory: Memory,
    permissions: Permissions,
    cdl: Cdl,
    target_bank_id: usize,
    target_bank_name: String,
}

impl Input {
    pub closed spec fn spec_memory(self) -> Memory {
        self.memory
    }

    pub closed spec fn spec_permissions(self) -> Permissions {
        self.permissions
    }

    pub closed spec fn spec_cdl(self) -> Cdl {
        self.cdl
    }

    pub closed spec fn spec_target_bank_id(self) -> usize {
        self.target_bank_id
    }

    pub closed spec fn spec_target_bank_name(self) -> Seq<char> {
        self.target_bank_name@
    }

    /// The designated target bank.
    pub open spec fn spec_target_bank(self) -> Bank {
        self.spec_memory().spec_banks()[self.spec_target_bank_id() as int]
    }

    /// The parts are well formed and the target bank id is valid.
    pub open spec fn wf(self) -> bool {
        &&& self.spec_memory().wf()
        &&& self.spec_permissions().wf()
        &&& self.spec_cdl().wf()
        &&& self.spec_target_bank_id() < self.spec_memory().spec_banks().len()
    }

    pub fn memory(&self) -> (r: &Memory)
        ensures
            *r == self.spec_memory(),
    {
        &self.memory
    }

    pub fn permissions(&self) -> (r: &Permissions)
        ensures
            *r == self.spec_permissions(),
    {
        &self.permissions
    }

    pub fn cdl(&self) -> (r: &Cdl)
        ensures
            *r == self.spec_cdl(),
    {
        &self.cdl
    }

    pub fn target_bank_id(&self) -> (r: usize)
        ensures
            r == self.spec_target_bank_id(),
    {
        self.target_bank_id
    }

    pub fn target_bank_name(&self) -> (r: &str)
        ensures
            r@ == self.spec_target_bank_name(),
    {
        self.target_bank_name.as_str()
    }

    /// The designated target bank.
    pub fn target_bank(&self) -> (r: &Bank)
        requires
            self.wf(),
        ensures
            *r == self.spec_target_bank(),
    {
        &self.memory.banks()[self.target_bank_id]
    }

    /// The permission flags of one address.
    pub fn permission_at(&self, addr: Address) -> (r: Permission)
        requires
            self.wf(),
        ensures
            r == self.spec_permissions()@[addr.get() as int],
    {
        *self.permissions.get(addr)
    }
}

/// The reasons `InputBuilder::build` refuses its inputs.
#[derive(Clone, Copy, Debug, PartialEq, Eq, Structural)]
pub enum InputBuildError {
    /// The memory was never supplied.
    MissingMemory,
    /// The permission map was never supplied.
    MissingPermissions,
    /// The annotation map was never supplied.
    MissingCdl,
    /// The target bank address was never supplied.
    MissingTargetBankAddr,
    /// The target bank name was never supplied.
    MissingTargetBankName,
    /// No loaded bank covers the target bank address.
    TargetBankNotFound,
}

/// Builds an `Input`, requiring every field and resolving the target bank
/// address to a bank id.
#[derive(Debug)]
pub struct InputBuilder {
    memory: Option<Memory>,
    permissions: Option<Permissions>,
    cdl: Option<Cdl>,
    target_bank_addr: Option<Address>,
    target_bank_name: Option<String>,
}

impl InputBuilder {
    pub closed spec fn spec_memory(self) -> Option<Memory> {
        self.memory
    }

    pub closed spec fn spec_permissions(self) -> Option<Permissions> {
        self.permissions
    }

    pub closed spec fn spec_cdl(self) -> Option<Cdl> {
        self.cdl
    }

    pub closed spec fn spec_target_bank_addr(self) -> Option<Address> {
        self.target_bank_addr
    }

    pub closed spec fn spec_target_bank_name(self) -> Option<Seq<char>> {
        match self.target_bank_name {
            Some(n) => Some(n@),
            None => None,
        }
    }

    /// Every supplied part is well formed.
    pub open spec fn wf(self) -> bool {
        &&& (self.spec_memory() matches Some(m) ==> m.wf())
        &&& (self.spec_permissions() matches Some(p) ==> p.wf())
        &&& (self.spec_cdl() matches Some(c) ==> c.wf())
    }

    pub fn new() -> (r: Self)
        ensures
            r.wf(),
            r.spec_memory() is None,
            r.spec_permissions() is None,
            r.spec_cdl() is None,
            r.spec_target_bank_addr() is None,
            r.spec_target_bank_name() is None,
    {
        InputBuilder {
            memory: None,
            permissions: None,
            cdl: None,
            target_bank_addr: None,
            target_bank_name: None,
        }
    }

    pub fn memory(self, memory: Memory) -> (r: Self)
        requires
            self.wf(),
            memory.wf(),
        ensures
            r.wf(),
            r.spec_memory() == Some(memory),
            r.spec_permissions() == self.spec_permissions(),
            r.spec_cdl() == self.spec_cdl(),
            r.spec_target_bank_addr() == self.spec_target_bank_addr(),
            r.spec_target_bank_name() == self.spec_target_bank_name(),
    {
        InputBuilder { memory: Some(memory), ..self }
    }

    pub fn permissions(self, permissions: Permissions) -> (r: Self)
        requires
            self.wf(),
            permissions.wf(),
        ensures
            r.wf(),
            r.spec_memory() == self.spec_memory(),
            r.spec_permissions() == Some(permissions),
            r.spec_cdl() == self.spec_cdl(),
            r.spec_target_bank_addr() == self.spec_target_bank_addr(),
            r.spec_target_bank_name() == self.spec_target_bank_name(),
    {
        InputBuilder { permissions: Some(permissions), ..self }
    }

    pub fn cdl(self, cdl: Cdl) -> (r: Self)
        requires
            self.wf(),
            cdl.wf(),
        ensures
            r.wf(),
            r.spec_memory() == self.spec_memory(),
            r.spec_permissions() == self.spec_permissions(),
            r.spec_cdl() == Some(cdl),
            r.spec_target_bank_addr() == self.spec_target_bank_addr(),
            r.spec_target_bank_name() == self.spec_target_bank_name(),
    {
        InputBuilder { cdl: Some(cdl), ..self }
    }

    pub fn target_bank_addr(self, target_bank_addr: Address) -> (r: Self)
        requires
            self.wf(),
        ensures
            r.wf(),
            r.spec_memory() == self.spec_memory(),
            r.spec_permissions() == self.spec_permissions(),
            r.spec_cdl() == self.spec_cdl(),
            r.spec_target_bank_addr() == Some(target_bank_addr),
            r.spec_target_bank_name() == self.spec_target_bank_name(),
    {
        InputBuilder { target_bank_addr: Some(target_bank_addr), ..self }
    }

    pub fn target_bank_name(self, target_bank_name: String) -> (r: Self)
        requires
            self.wf(),
        ensures
            r.wf(),
            r.spec_memory() == self.spec_memory(),
            r.spec_permissions() == self.spec_permissions(),
            r.spec_cdl() == self.spec_cdl(),
            r.spec_target_bank_addr() == self.spec_target_bank_addr(),
            r.spec_target_bank_name() == Some(target_bank_name@),
    {
        InputBuilder { target_bank_name: Some(target_bank_name), ..self }
    }

    /// Builds the input. Fails exactly when a field is missing or no loaded
    /// bank covers the target bank address.
    pub fn build(self) -> (r: Result<Input, InputBuildError>)
        requires
            self.wf(),
        ensures
            self.spec_memory() is None ==> r == Err::<Input, _>(InputBuildError::MissingMemory),
            self.spec_memory() is Some && self.spec_permissions() is None ==> r == Err::<Input, _>(
                InputBuildError::MissingPermissions,
            ),
            self.spec_memory() is Some && self.spec_permissions() is Some && self.spec_cdl()
                is None ==> r == Err::<Input, _>(InputBuildError::MissingCdl),
            self.spec_memory() is Some && self.spec_permissions() is Some && self.spec_cdl()
                is Some && self.spec_target_bank_addr() is None ==> r == Err::<Input, _>(
                InputBuildError::MissingTargetBankAddr,
            ),
            self.spec_memory() is Some && self.spec_permissions() is Some && self.spec_cdl()
                is Some && self.spec_target_bank_addr() is Some && self.spec_target_bank_name()
                is None ==> r == Err::<Input, _>(InputBuildError::MissingTargetBankName),
            self.spec_memory() is Some && self.spec_permissions() is Some && self.spec_cdl()
                is Some && self.spec_target_bank_addr() is Some && self.spec_target_bank_name()
                is Some ==> ({
                let m = self.spec_memory().unwrap();
                let target_addr = self.spec_target_bank_addr().unwrap();
                match m.spec_bank_id_at(target_addr.get() as int) {
                    Some(id) => r matches Ok(input) && input.wf() && input.spec_memory() == m
                        && input.spec_permissions() == self.spec_permissions().unwrap()
                        && input.spec_cdl() == self.spec_cdl().unwrap()
                        && input.spec_target_bank_id() == id && input.spec_target_bank_name()
                        == self.spec_target_bank_name().unwrap(),
                    None => r == Err::<Input, _>(InputBuildError::TargetBankNotFound),
                }
            }),
    {
        let InputBuilder { memory, permissions, cdl, target_bank_addr, target_bank_name } = self;
        let memory = match memory {
            Some(m) => m,
            None => {
                return Err(InputBuildError::MissingMemory);
            },
        };
        let permissions = match permissions {
            Some(p) => p,
            None => {
                return Err(InputBuildError::MissingPermissions);
            },
        };
        let cdl = match cdl {
            Some(c) => c,
            None => {
                return Err(InputBuildError::MissingCdl);
            },
        };
        let target_bank_addr = match target_bank_addr {
            Some(a) => a,
            None => {
                return Err(InputBuildError::MissingTargetBankAddr);
            },
        };
        let target_bank_name = match target_bank_name {
            Some(n) => n,
            None => {
                return Err(InputBuildError::MissingTargetBankName);
            },
        };
        let target_bank_id = match memory.find_bank_id(target_bank_addr) {
            Some(id) => id,
            None => {
                return Err(InputBuildError::TargetBankNotFound);
            },
        };
        Ok(Input { memory, permissions, cdl, target_bank_id, target_bank_name })
    }
}

} // verus!
