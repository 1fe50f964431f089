use disnes::address::{Address, AddressRange};
use disnes::bank::Bank;
use disnes::memory::{FetchOpError, Memory, OpSuccResolved};
use disnes::op::{Op, OpSucc};

#[test]
fn test_bank() {
    let addr = Address::new(0x8000);
    let body = vec![1u8, 2, 3];
    let len = body.len();
    let bank = Bank::new(addr, body.clone(), true);

    assert_eq!(bank.addr(), addr);
    assert_eq!(bank.body(), &body);
    assert!(bank.is_fixed());
    assert_eq!(bank.len(), len);
    assert_eq!(bank.addr_range(), AddressRange::from_start_len(addr, len));

    let get_byte = |addr: u16| bank.get_byte(Address::new(addr));
    let get_bytes = |start: u16, len: usize| {
        bank.get_bytes(AddressRange::from_start_len(Address::new(start), len))
    };

    assert_eq!(get_byte(0x7FFF), None);
    assert_eq!(get_byte(0x8000), Some(1));
    assert_eq!(get_byte(0x8001), Some(2));
    assert_eq!(get_byte(0x8002), Some(3));
    assert_eq!(get_byte(0x8003), None);

    assert_eq!(get_bytes(0x7FFF, 2), None);
    assert_eq!(get_bytes(0x8000, 2), Some(vec![1, 2]));
    assert_eq!(get_bytes(0x8001, 2), Some(vec![2, 3]));
    assert_eq!(get_bytes(0x8002, 2), None);
}

fn make_bank(addr: u16, body: Vec<u8>) -> Bank {
    Bank::new(Address::new(addr), body, false)
}

#[test]
fn test_memory() {
    let memory = Memory::new(vec![
        make_bank(0x8000, vec![0, 1, 2]),
        make_bank(0x8003, vec![3, 4, 5]),
        make_bank(0x8007, vec![7, 8, 9]),
    ]);

    let find_bank_id = |addr: u16| memory.find_bank_id(Address::new(addr));
    let get_byte = |addr: u16| memory.get_byte(Address::new(addr));
    let get_bytes = |addr: u16, len: usize| {
        memory.get_bytes(AddressRange::from_start_len(Address::new(addr), len))
    };
    let get_bytes_from = |addr: u16| memory.get_bytes_from(Address::new(addr));

    assert_eq!(find_bank_id(0x7FFF), None);
    assert_eq!(find_bank_id(0x8000), Some(0));
    assert_eq!(find_bank_id(0x8002), Some(0));
    assert_eq!(find_bank_id(0x8003), Some(1));
    assert_eq!(find_bank_id(0x8007), Some(2));
    assert_eq!(find_bank_id(0x800A), None);

    assert_eq!(get_byte(0x7FFF), None);
    assert_eq!(get_byte(0x8000), Some((0, 0)));
    assert_eq!(get_byte(0x8002), Some((2, 0)));
    assert_eq!(get_byte(0x8003), Some((3, 1)));
    assert_eq!(get_byte(0x8007), Some((7, 2)));
    assert_eq!(get_byte(0x800A), None);

    assert_eq!(get_bytes(0x7FFF, 3), None);
    assert_eq!(get_bytes(0x8000, 3), Some((vec![0, 1, 2], 0)));
    assert_eq!(get_bytes(0x8000, 4), None);
    assert_eq!(get_bytes(0x8003, 3), Some((vec![3, 4, 5], 1)));
    assert_eq!(get_bytes(0x8003, 4), None);
    assert_eq!(get_bytes(0x8007, 3), Some((vec![7, 8, 9], 2)));
    assert_eq!(get_bytes(0x8007, 4), None);

    assert_eq!(get_bytes_from(0x7FFF), None);
    assert_eq!(get_bytes_from(0x8000), Some((vec![0, 1, 2], 0)));
    assert_eq!(get_bytes_from(0x8001), Some((vec![1, 2], 0)));
    assert_eq!(get_bytes_from(0x8003), Some((vec![3, 4, 5], 1)));
    assert_eq!(get_bytes_from(0x8005), Some((vec![5], 1)));
    assert_eq!(get_bytes_from(0x8007), Some((vec![7, 8, 9], 2)));
    assert_eq!(get_bytes_from(0x800A), None);
}

#[test]
fn test_memory_fetch_op() {
    let memory = Memory::new(vec![make_bank(0x8000, vec![0xA9, 0xFF, 0x20, 0xFF])]);

    let fetch_op = |addr: u16| memory.fetch_op(Address::new(addr));

    assert_eq!(fetch_op(0x7FFF), Err(FetchOpError::Nothing));
    assert_eq!(fetch_op(0x8000), Ok((Op::LdaImm(0xFF), 0)));
    assert_eq!(fetch_op(0x8002), Err(FetchOpError::Incomplete(vec![0x20, 0xFF])));
}

#[test]
fn test_memory_fetch_addr() {
    let memory = Memory::new(vec![make_bank(0x8000, vec![0x12, 0x34, 0x56])]);

    let fetch_addr = |addr: u16| memory.fetch_addr(Address::new(addr));

    assert_eq!(fetch_addr(0x7FFF), None);
    assert_eq!(fetch_addr(0x8000), Some((Address::new(0x3412), 0)));
    assert_eq!(fetch_addr(0x8002), None);
}

#[test]
fn test_fetch_op_at_bank_end() {
    // An instruction whose last operand byte is the final byte of the bank
    // is read whole; one byte later the read is truncated, with a prefix one
    // byte shorter than the instruction.
    let memory = Memory::new(vec![make_bank(0x8000, vec![0xEA, 0xAD, 0x34, 0x12])]);
    assert_eq!(
        memory.fetch_op(Address::new(0x8001)),
        Ok((Op::LdaAbs(Address::new(0x1234)), 0))
    );

    let truncated = Memory::new(vec![make_bank(0x8000, vec![0xEA, 0xAD, 0x34])]);
    assert_eq!(
        truncated.fetch_op(Address::new(0x8001)),
        Err(FetchOpError::Incomplete(vec![0xAD, 0x34]))
    );
}

#[test]
fn test_resolve_op_succ() {
    let memory = Memory::new(vec![make_bank(0x8000, vec![0x6C, 0xFF, 0x80])]);

    // An indirect jmp whose pointer has low byte 0xFF would wrap a page on
    // real hardware; it resolves to an unknown destination.
    let wrapping = Op::fetch(&[0x6C, 0xFF, 0x80]);
    assert_eq!(wrapping, Op::JmpInd(Address::new(0x80FF)));
    assert_eq!(
        memory.resolve_op_succ(Address::new(0x8000), wrapping.succ()),
        OpSuccResolved::JmpInd(None)
    );

    // A readable pointer is followed.
    let readable = Memory::new(vec![make_bank(0x8000, vec![0x6C, 0x01, 0x80])]);
    assert_eq!(
        readable.resolve_op_succ(Address::new(0x8000), Op::JmpInd(Address::new(0x8001)).succ()),
        OpSuccResolved::JmpInd(Some(Address::new(0x8001)))
    );

    assert_eq!(
        memory.resolve_op_succ(Address::new(0x8000), OpSucc::Normal(3)),
        OpSuccResolved::Normal(Address::new(0x8003))
    );
    assert_eq!(
        memory.resolve_op_succ(Address::new(0xFFFF), OpSucc::Normal(2)),
        OpSuccResolved::Normal(Address::new(0x0001))
    );
    assert_eq!(
        memory.resolve_op_succ(Address::new(0x8000), OpSucc::Branch(-2)),
        OpSuccResolved::Branch { taken: Address::new(0x8000), not_taken: Address::new(0x8002) }
    );
    // The brk vector at 0xFFFE is unmapped here.
    assert_eq!(
        memory.resolve_op_succ(Address::new(0x8000), OpSucc::Brk),
        OpSuccResolved::Brk(None)
    );
    assert_eq!(memory.resolve_op_succ(Address::new(0x8000), OpSucc::Kil), OpSuccResolved::Kil);
    assert_eq!(memory.resolve_op_succ(Address::new(0x8000), OpSucc::Rti), OpSuccResolved::Rti);
    assert_eq!(memory.resolve_op_succ(Address::new(0x8000), OpSucc::Rts), OpSuccResolved::Rts);
}
