use disnes::address::{Address, AddressRange, ArrayByAddress};
use disnes::analysis::analyze;
use disnes::assembly::{AssemblyBuilder, AssemblyBuildError, Label, Labels, Statement};
use disnes::bank::Bank;
use disnes::cdl::{Cdl, CdlElement};
use disnes::config::{AnalysisConfig, Config};
use disnes::input::{Input, InputBuilder, InputBuildError};
use disnes::memory::Memory;
use disnes::op::Op;
use disnes::permission::{Permission, Permissions};

/// One bank loaded at `start`, readable and executable over its whole range,
/// with all permissions off elsewhere, no annotations, default options.
fn scenario_input(start: u16, body: Vec<u8>) -> Input {
    let len = body.len();
    let bank = Bank::new(Address::new(start), body, false);
    let memory = Memory::new(vec![bank]);
    let mut perms: Permissions = ArrayByAddress::new(Permission::new(false, false, false));
    perms.fill_range(
        AddressRange::from_start_len(Address::new(start), len),
        Permission::new(true, false, true),
    );
    InputBuilder::new()
        .memory(memory)
        .permissions(perms)
        .cdl(Cdl::default())
        .target_bank_addr(Address::new(start))
        .target_bank_name("prg".to_string())
        .build()
        .unwrap()
}

#[test]
fn test_scenario_lda_rts() {
    let input = scenario_input(0x8000, vec![0xA9, 0x01, 0x60]);
    let listing = analyze(&input, &AnalysisConfig::default());

    assert_eq!(
        listing.statements(),
        &vec![Statement::Op(Op::LdaImm(1)), Statement::Op(Op::Rts)]
    );
    assert_eq!(listing.bank_addr(), Address::new(0x8000));
    assert_eq!(listing.bank_name(), "prg");
    assert_eq!(listing.labels().get(Address::new(0x8000)), Some(Label::new(false)));
    assert_eq!(listing.labels().get(Address::new(0x8001)), None);
    assert_eq!(listing.labels().get(Address::new(0x8002)), None);
}

#[test]
fn test_scenario_jmp_self() {
    let input = scenario_input(0x8000, vec![0x4C, 0x00, 0x80]);
    let listing = analyze(&input, &AnalysisConfig::default());

    assert_eq!(listing.statements(), &vec![Statement::Op(Op::JmpAbs(Address::new(0x8000)))]);
    // The only label is the non-entrypoint label at the bank start; the
    // jmp destination merges into it without making it an entry point.
    assert_eq!(listing.labels().get(Address::new(0x8000)), Some(Label::new(false)));
    assert_eq!(listing.labels().get(Address::new(0x8001)), None);
    assert_eq!(listing.labels().get(Address::new(0x8002)), None);
}

#[test]
fn test_scenario_jsr_entrypoint() {
    let input = scenario_input(0x8000, vec![0x20, 0x04, 0x80, 0x60, 0xEA, 0x60]);
    let listing = analyze(&input, &AnalysisConfig::default());

    assert_eq!(
        listing.statements(),
        &vec![
            Statement::Op(Op::Jsr(Address::new(0x8004))),
            Statement::Op(Op::Rts),
            Statement::Op(Op::NopEA),
            Statement::Op(Op::Rts),
        ]
    );
    assert_eq!(listing.labels().get(Address::new(0x8000)), Some(Label::new(false)));
    // The jsr destination is an entry point.
    assert_eq!(listing.labels().get(Address::new(0x8004)), Some(Label::new(true)));
}

#[test]
fn test_scenario_unofficial_truncated() {
    let input = scenario_input(0x8000, vec![0xFF]);
    let listing = analyze(&input, &AnalysisConfig::default());

    assert_eq!(listing.statements(), &vec![Statement::Byte(0xFF)]);
    assert_eq!(listing.labels().get(Address::new(0x8000)), Some(Label::new(false)));
    assert_eq!(listing.labels().get(Address::new(0x8001)), None);
}

#[test]
fn test_scenario_self_branch() {
    let input = scenario_input(0x8000, vec![0x10, 0xFE]);
    let listing = analyze(&input, &AnalysisConfig::default());

    assert_eq!(listing.statements(), &vec![Statement::Op(Op::Bpl(-2))]);
    assert_eq!(listing.labels().get(Address::new(0x8000)), Some(Label::new(false)));
}

#[test]
fn test_scenario_unexecutable_bank() {
    // The same bytes as the lda/rts scenario, but nothing is executable:
    // every byte is forced to data and the sweep emits raw bytes only.
    // (Disabling execution on the first byte alone would not give three
    // raw bytes: the trailing rts stays undecided and still sweeps as an
    // instruction, so this test covers the whole-bank variant.)
    let body = vec![0xA9u8, 0x01, 0x60];
    let bank = Bank::new(Address::new(0x8000), body, false);
    let memory = Memory::new(vec![bank]);
    let mut perms: Permissions = ArrayByAddress::new(Permission::new(false, false, false));
    perms.fill_range(
        AddressRange::from_start_len(Address::new(0x8000), 3),
        Permission::new(true, false, false),
    );
    let input = InputBuilder::new()
        .memory(memory)
        .permissions(perms)
        .cdl(Cdl::default())
        .target_bank_addr(Address::new(0x8000))
        .target_bank_name("prg".to_string())
        .build()
        .unwrap();
    let listing = analyze(&input, &AnalysisConfig::default());

    assert_eq!(
        listing.statements(),
        &vec![Statement::Byte(0xA9), Statement::Byte(0x01), Statement::Byte(0x60)]
    );
}

#[test]
fn test_scenario_branch_underflow() {
    // A branch whose taken target would underflow the address space is an
    // invalid instruction and falls back to raw bytes.
    let input = scenario_input(0x0000, vec![0x10, 0x80]);
    let listing = analyze(&input, &AnalysisConfig::default());

    assert_eq!(listing.statements(), &vec![Statement::Byte(0x10), Statement::Byte(0x80)]);
}

#[test]
fn test_scenario_cdl_forced_data() {
    // The logger marked the first byte as data, which outranks the sweep's
    // own judgement; the rest of the bank decodes as usual.
    let mut cdl = Cdl::default();
    cdl.set(Address::new(0x8000), CdlElement::new(0x02));
    let body = vec![0xA9u8, 0x01, 0x60];
    let bank = Bank::new(Address::new(0x8000), body, false);
    let memory = Memory::new(vec![bank]);
    let mut perms: Permissions = ArrayByAddress::new(Permission::new(false, false, false));
    perms.fill_range(
        AddressRange::from_start_len(Address::new(0x8000), 3),
        Permission::new(true, false, true),
    );
    let input = InputBuilder::new()
        .memory(memory)
        .permissions(perms)
        .cdl(cdl)
        .target_bank_addr(Address::new(0x8000))
        .target_bank_name("prg".to_string())
        .build()
        .unwrap();
    let listing = analyze(&input, &AnalysisConfig::default());

    // The validity pass rejects the indirect-x instruction at the second
    // byte (the zero page is unreadable), and the trailing rts decodes.
    assert_eq!(
        listing.statements(),
        &vec![Statement::Byte(0xA9), Statement::Byte(0x01), Statement::Op(Op::Rts)]
    );
}

#[test]
fn test_scenario_interrupt_vectors() {
    // A fixed bank holds the three interrupt vectors, all pointing at the
    // target bank's single rts: the handler becomes code with an entrypoint
    // label.
    let target = Bank::new(Address::new(0x8000), vec![0x60], false);
    let vectors = Bank::new(
        Address::new(0xFFFA),
        vec![0x00, 0x80, 0x00, 0x80, 0x00, 0x80],
        true,
    );
    let memory = Memory::new(vec![target, vectors]);
    let mut perms: Permissions = ArrayByAddress::new(Permission::new(false, false, false));
    perms.fill_range(
        AddressRange::from_start_len(Address::new(0x8000), 1),
        Permission::new(true, false, true),
    );
    perms.fill_range(
        AddressRange::from_start_len(Address::new(0xFFFA), 6),
        Permission::new(true, false, false),
    );
    let input = InputBuilder::new()
        .memory(memory)
        .permissions(perms)
        .cdl(Cdl::default())
        .target_bank_addr(Address::new(0x8000))
        .target_bank_name("prg".to_string())
        .build()
        .unwrap();
    let listing = analyze(&input, &AnalysisConfig::default());

    assert_eq!(listing.statements(), &vec![Statement::Op(Op::Rts)]);
    assert_eq!(listing.labels().get(Address::new(0x8000)), Some(Label::new(true)));
    // The vector cells lie outside the target bank and get no label.
    assert_eq!(listing.labels().get(Address::new(0xFFFA)), None);
}

#[test]
fn test_cdl_element_bits() {
    let e = CdlElement::new(0b1111_0111);
    assert!(e.is_opcode());
    assert!(e.is_data());
    assert!(e.is_operand());
    assert!(e.is_jump_target());
    assert!(e.is_indirect_data());
    assert!(e.is_pcm_data());
    assert!(e.is_entrypoint());

    let zero = CdlElement::new(0);
    assert!(!zero.is_opcode());
    assert!(!zero.is_data());
    assert!(!zero.is_operand());
    assert!(!zero.is_jump_target());
    assert!(!zero.is_indirect_data());
    assert!(!zero.is_pcm_data());
    assert!(!zero.is_entrypoint());
}

#[test]
fn test_cdl_run_starts() {
    let mut cdl = Cdl::default();
    cdl.set(Address::new(0), CdlElement::new(0x20));
    cdl.set(Address::new(1), CdlElement::new(0x20));
    cdl.set(Address::new(3), CdlElement::new(0x40));

    assert!(cdl.is_indirect_data_start(Address::new(0)));
    assert!(!cdl.is_indirect_data_start(Address::new(1)));
    assert!(!cdl.is_indirect_data_start(Address::new(2)));
    assert!(cdl.is_pcm_data_start(Address::new(3)));
    assert!(!cdl.is_pcm_data_start(Address::new(4)));
}

#[test]
fn test_permission_flags() {
    let p = Permission::new(true, false, true);
    assert!(p.is_readable());
    assert!(!p.is_writable());
    assert!(p.is_executable());
}

#[test]
fn test_config_defaults() {
    let config = AnalysisConfig::default();
    assert!(config.use_nmi());
    assert!(config.use_reset());
    assert!(config.use_irq());
    assert!(!config.allow_brk());
    assert!(!config.allow_clv());
    assert!(!config.allow_sed());

    let custom = AnalysisConfig::new(false, true, false, true, false, true);
    assert!(!custom.use_nmi());
    assert!(custom.use_reset());
    assert!(!custom.use_irq());
    assert!(custom.allow_brk());
    assert!(!custom.allow_clv());
    assert!(custom.allow_sed());

    assert_eq!(Config::default().analysis(), &AnalysisConfig::default());
}

#[test]
fn test_labels_entrypoint_sticky() {
    let mut labels = Labels::default();
    let a = Address::new(0x1234);
    assert_eq!(labels.get(a), None);

    labels.set(a, Label::new(true));
    assert_eq!(labels.get(a), Some(Label::new(true)));

    // Re-labelling without the entrypoint flag keeps the entry point.
    labels.set(a, Label::new(false));
    assert_eq!(labels.get(a), Some(Label::new(true)));

    let b = Address::new(0x1235);
    labels.set(b, Label::new(false));
    labels.set(b, Label::new(true));
    assert_eq!(labels.get(b), Some(Label::new(true)));
}

#[test]
fn test_statement_len() {
    assert_eq!(Statement::Op(Op::NopEA).len(), 1);
    assert_eq!(Statement::Op(Op::LdaImm(1)).len(), 2);
    assert_eq!(Statement::Op(Op::LdaAbs(Address::new(0))).len(), 3);
    assert_eq!(Statement::IncompleteOp(vec![0x20, 0xFF]).len(), 2);
    assert_eq!(Statement::Byte(0).len(), 1);
}

#[test]
fn test_assembly_builder() {
    let range = AddressRange::from_start_len(Address::new(0x8000), 3);
    let stmts = vec![Statement::Op(Op::LdaImm(1)), Statement::Byte(0x60)];

    let built = AssemblyBuilder::new()
        .bank_addr_range(range)
        .bank_name("prg".to_string())
        .statements(stmts.clone())
        .labels(Labels::default())
        .build()
        .unwrap();
    assert_eq!(built.bank_addr_range(), range);
    assert_eq!(built.bank_addr(), Address::new(0x8000));
    assert_eq!(built.bank_name(), "prg");
    assert_eq!(built.statements(), &stmts);
    assert_eq!(built.labels().get(Address::new(0x8000)), None);

    assert_eq!(
        AssemblyBuilder::new().build().unwrap_err(),
        AssemblyBuildError::MissingBankAddrRange
    );
    assert_eq!(
        AssemblyBuilder::new().bank_addr_range(range).build().unwrap_err(),
        AssemblyBuildError::MissingBankName
    );
    assert_eq!(
        AssemblyBuilder::new().bank_addr_range(range).bank_name("prg".to_string())
            .build().unwrap_err(),
        AssemblyBuildError::MissingStatements
    );
    assert_eq!(
        AssemblyBuilder::new().bank_addr_range(range).bank_name("prg".to_string())
            .statements(stmts.clone()).build().unwrap_err(),
        AssemblyBuildError::MissingLabels
    );
    assert_eq!(
        AssemblyBuilder::new().bank_addr_range(range).bank_name("prg".to_string())
            .statements(vec![]).labels(Labels::default()).build().unwrap_err(),
        AssemblyBuildError::EmptyStatements
    );
    assert_eq!(
        AssemblyBuilder::new().bank_addr_range(range).bank_name("prg".to_string())
            .statements(vec![Statement::Byte(0)]).labels(Labels::default())
            .build().unwrap_err(),
        AssemblyBuildError::LengthMismatch
    );
}

#[test]
fn test_input_builder() {
    let bank = Bank::new(Address::new(0x8000), vec![0x60], false);
    let memory = Memory::new(vec![bank]);
    let perms: Permissions = ArrayByAddress::new(Permission::new(false, false, false));

    let input = InputBuilder::new()
        .memory(memory.clone())
        .permissions(perms.clone())
        .cdl(Cdl::default())
        .target_bank_addr(Address::new(0x8000))
        .target_bank_name("prg".to_string())
        .build()
        .unwrap();
    assert_eq!(input.target_bank_id(), 0);
    assert_eq!(input.target_bank_name(), "prg");
    assert_eq!(input.target_bank().addr(), Address::new(0x8000));
    assert_eq!(input.memory().banks().len(), 1);

    assert_eq!(InputBuilder::new().build().unwrap_err(), InputBuildError::MissingMemory);
    assert_eq!(
        InputBuilder::new().memory(memory.clone()).build().unwrap_err(),
        InputBuildError::MissingPermissions
    );
    assert_eq!(
        InputBuilder::new().memory(memory.clone()).permissions(perms.clone())
            .build().unwrap_err(),
        InputBuildError::MissingCdl
    );
    assert_eq!(
        InputBuilder::new().memory(memory.clone()).permissions(perms.clone())
            .cdl(Cdl::default()).build().unwrap_err(),
        InputBuildError::MissingTargetBankAddr
    );
    assert_eq!(
        InputBuilder::new().memory(memory.clone()).permissions(perms.clone())
            .cdl(Cdl::default()).target_bank_addr(Address::new(0x8000))
            .build().unwrap_err(),
        InputBuildError::MissingTargetBankName
    );
    assert_eq!(
        InputBuilder::new().memory(memory).permissions(perms).cdl(Cdl::default())
            .target_bank_addr(Address::new(0x4000)).target_bank_name("prg".to_string())
            .build().unwrap_err(),
        InputBuildError::TargetBankNotFound
    );
}
