use disnes::address::{Address, ZpAddress};
use disnes::op::{Op, Opcode, Operand, OpSucc};

#[test]
fn test_opcode() {
    let asl_zp = Opcode::new(0x06);
    let slo_zp = Opcode::new(0x07);
    let bpl = Opcode::new(0x10);
    let jsr = Opcode::new(0x20);
    let sta_zp = Opcode::new(0x85);
    let lda_abx = Opcode::new(0xBD);

    assert_eq!(asl_zp.operand_len(), 1);
    assert_eq!(slo_zp.operand_len(), 1);
    assert_eq!(bpl.operand_len(), 1);
    assert_eq!(jsr.operand_len(), 2);
    assert_eq!(sta_zp.operand_len(), 1);
    assert_eq!(lda_abx.operand_len(), 2);

    assert!(asl_zp.is_official());
    assert!(!slo_zp.is_official());
    assert!(bpl.is_official());
    assert!(jsr.is_official());
    assert!(sta_zp.is_official());
    assert!(lda_abx.is_official());

    assert!(asl_zp.is_read());
    assert!(slo_zp.is_read());
    assert!(!bpl.is_read());
    assert!(!jsr.is_read());
    assert!(!sta_zp.is_read());
    assert!(lda_abx.is_read());

    assert!(asl_zp.is_write());
    assert!(slo_zp.is_write());
    assert!(!bpl.is_write());
    assert!(!jsr.is_write());
    assert!(sta_zp.is_write());
    assert!(!lda_abx.is_write());

    assert!(!asl_zp.is_branch());
    assert!(!slo_zp.is_branch());
    assert!(bpl.is_branch());
    assert!(!jsr.is_branch());
    assert!(!sta_zp.is_branch());
    assert!(!lda_abx.is_branch());

    assert!(!asl_zp.is_kil());
    assert!(!slo_zp.is_kil());
    assert!(!bpl.is_kil());
    assert!(!jsr.is_kil());
    assert!(!sta_zp.is_kil());
    assert!(!lda_abx.is_kil());
    assert!(Opcode::new(0x02).is_kil());

    assert!(!asl_zp.is_flow());
    assert!(!slo_zp.is_flow());
    assert!(bpl.is_flow());
    assert!(jsr.is_flow());
    assert!(!sta_zp.is_flow());
    assert!(!lda_abx.is_flow());
    assert!(Opcode::new(0x02).is_flow());
}

#[test]
fn test_operand() {
    assert_eq!(Operand::Imp.to_bytes(), Vec::<u8>::new());
    assert_eq!(Operand::Acc.to_bytes(), Vec::<u8>::new());
    assert_eq!(Operand::Zp(ZpAddress::new(0xFF)).to_bytes(), vec![0xFF]);
    assert_eq!(Operand::ZpX(ZpAddress::new(0xFF)).to_bytes(), vec![0xFF]);
    assert_eq!(Operand::ZpY(ZpAddress::new(0xFF)).to_bytes(), vec![0xFF]);
    assert_eq!(Operand::Abs(Address::new(0xCDAB)).to_bytes(), vec![0xAB, 0xCD]);
    assert_eq!(Operand::AbsX(Address::new(0xCDAB)).to_bytes(), vec![0xAB, 0xCD]);
    assert_eq!(Operand::AbsY(Address::new(0xCDAB)).to_bytes(), vec![0xAB, 0xCD]);
    assert_eq!(Operand::Ind(Address::new(0xCDAB)).to_bytes(), vec![0xAB, 0xCD]);
    assert_eq!(Operand::IndX(ZpAddress::new(0xFF)).to_bytes(), vec![0xFF]);
    assert_eq!(Operand::IndY(ZpAddress::new(0xFF)).to_bytes(), vec![0xFF]);
    assert_eq!(Operand::Rel(0).to_bytes(), vec![0]);
    assert_eq!(Operand::Rel(1).to_bytes(), vec![1]);
    assert_eq!(Operand::Rel(-1).to_bytes(), vec![0xFF]);
}

#[test]
fn test_op_fetch() {
    assert_eq!(Op::fetch(&[0x08]), Op::Php);
    assert_eq!(Op::fetch(&[0x0A]), Op::AslAcc);
    assert_eq!(Op::fetch(&[0x09, 0xFF]), Op::OraImm(0xFF));
    assert_eq!(Op::fetch(&[0x05, 0xFF]), Op::OraZp(ZpAddress::new(0xFF)));
    assert_eq!(Op::fetch(&[0x15, 0xFF]), Op::OraZpX(ZpAddress::new(0xFF)));
    assert_eq!(Op::fetch(&[0xB6, 0xFF]), Op::LdxZpY(ZpAddress::new(0xFF)));
    assert_eq!(Op::fetch(&[0x0D, 0xAB, 0xCD]), Op::OraAbs(Address::new(0xCDAB)));
    assert_eq!(Op::fetch(&[0x1D, 0xAB, 0xCD]), Op::OraAbsX(Address::new(0xCDAB)));
    assert_eq!(Op::fetch(&[0x19, 0xAB, 0xCD]), Op::OraAbsY(Address::new(0xCDAB)));
    assert_eq!(Op::fetch(&[0x6C, 0xAB, 0xCD]), Op::JmpInd(Address::new(0xCDAB)));
    assert_eq!(Op::fetch(&[0x01, 0xFF]), Op::OraIndX(ZpAddress::new(0xFF)));
    assert_eq!(Op::fetch(&[0x11, 0xFF]), Op::OraIndY(ZpAddress::new(0xFF)));
    assert_eq!(Op::fetch(&[0x10, 0]), Op::Bpl(0));
    assert_eq!(Op::fetch(&[0x10, 1]), Op::Bpl(1));
    assert_eq!(Op::fetch(&[0x10, 0xFF]), Op::Bpl(-1));
}

#[test]
fn test_op_round_trip_decode_encode() {
    // Every byte string of the right length for its leading opcode byte is
    // reproduced by decoding and re-encoding it.
    for b in 0u16..=0xFF {
        let opcode = Opcode::new(b as u8);
        let raw = [b as u8, 0x34, 0x12];
        let buf = &raw[..opcode.op_len()];
        let op = Op::fetch(buf);
        assert_eq!(op.to_bytes(), buf.to_vec());
        assert_eq!(op.opcode(), opcode);
        assert_eq!(op.len(), opcode.op_len());
        assert_eq!(opcode.mnemonic().len(), 3);
    }
}

#[test]
fn test_op_round_trip_encode_decode() {
    let samples = [
        Op::Brk,
        Op::LdaImm(0x42),
        Op::LdaAbs(Address::new(0x1234)),
        Op::Jsr(Address::new(0x8004)),
        Op::JmpInd(Address::new(0xC0FF)),
        Op::Bpl(-2),
        Op::Beq(127),
        Op::StaIndY(ZpAddress::new(0x20)),
        Op::IscAbsX(Address::new(0xFFFF)),
        Op::NopEA,
    ];
    for op in samples {
        let bytes = op.to_bytes();
        assert_eq!(Op::fetch(&bytes), op);
    }
}

#[test]
fn test_op_succ() {
    assert_eq!(Op::NopEA.succ(), OpSucc::Normal(1));
    assert_eq!(Op::LdaImm(7).succ(), OpSucc::Normal(2));
    assert_eq!(Op::LdaAbs(Address::new(0x1234)).succ(), OpSucc::Normal(3));
    assert_eq!(Op::Brk.succ(), OpSucc::Brk);
    assert_eq!(Op::Kil02.succ(), OpSucc::Kil);
    assert_eq!(Op::Bne(-5).succ(), OpSucc::Branch(-5));
    assert_eq!(Op::Jsr(Address::new(0x8000)).succ(), OpSucc::Jsr(Address::new(0x8000)));
    assert_eq!(Op::Rti.succ(), OpSucc::Rti);
    assert_eq!(Op::Rts.succ(), OpSucc::Rts);
    assert_eq!(Op::JmpAbs(Address::new(0x8000)).succ(), OpSucc::JmpAbs(Address::new(0x8000)));
    assert_eq!(Op::JmpInd(Address::new(0x8000)).succ(), OpSucc::JmpInd(Address::new(0x8000)));
}

#[test]
fn test_op_predicates() {
    assert!(Op::OraImm(3).is_bitop_imm());
    assert!(Op::Arr(3).is_bitop_imm());
    assert!(!Op::LdaImm(3).is_bitop_imm());
    assert_eq!(Op::Bpl(-2).match_branch(), Some(-2));
    assert_eq!(Op::NopEA.match_branch(), None);
    assert_eq!(Op::LdaImm(1).operand(), Operand::Imm(1));
    assert_eq!(Op::Rts.operand(), Operand::Imp);
    assert_eq!(Opcode::new(0xA9).mnemonic(), "lda");
    assert_eq!(Opcode::new(0x00).mnemonic(), "brk");
    assert_eq!(Opcode::new(0xFF).mnemonic(), "isc");
    assert!(Operand::Imp.is_empty());
    assert!(!Operand::Imm(1).is_empty());
    assert_eq!(Operand::Abs(Address::new(1)).len(), 2);
}
