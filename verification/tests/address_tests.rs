use disnes::address::{Address, AddressRange, ArrayByAddress, ZpAddress};

#[test]
fn test_address_checked_add_unsigned() {
    let f = |addr: u16, offset: usize| Address::new(addr).checked_add_unsigned(offset);

    assert_eq!(f(0, 1), Some(Address::new(1)));
    assert_eq!(f(0xFFFF, 1), None);
}

#[test]
fn test_address_checked_add_signed() {
    let f = |addr: u16, rel: isize| Address::new(addr).checked_add_signed(rel);

    assert_eq!(f(0, 1), Some(Address::new(1)));
    assert_eq!(f(0xFFFF, 1), None);
    assert_eq!(f(0, -1), None);
    assert_eq!(f(0xFFFF, -1), Some(Address::new(0xFFFE)));
}

#[test]
fn test_address_wrapping_add_unsigned() {
    let f = |addr: u16, offset: usize| Address::new(addr).wrapping_add_unsigned(offset);

    assert_eq!(f(0, 1), Address::new(1));
    assert_eq!(f(0xFFFF, 1), Address::new(0));
}

#[test]
fn test_address_wrapping_add_signed() {
    let f = |addr: u16, rel: isize| Address::new(addr).wrapping_add_signed(rel);

    assert_eq!(f(0, 1), Address::new(1));
    assert_eq!(f(0xFFFF, 1), Address::new(0));
    assert_eq!(f(0, -1), Address::new(0xFFFF));
    assert_eq!(f(0xFFFF, -1), Address::new(0xFFFE));
}

#[test]
fn test_zp_address_checked_add_unsigned() {
    let f = |addr: u8, offset: usize| ZpAddress::new(addr).checked_add_unsigned(offset);

    assert_eq!(f(0, 1), Some(ZpAddress::new(1)));
    assert_eq!(f(0xFF, 1), None);
}

#[test]
fn test_zp_address_checked_add_signed() {
    let f = |addr: u8, rel: isize| ZpAddress::new(addr).checked_add_signed(rel);

    assert_eq!(f(0, 1), Some(ZpAddress::new(1)));
    assert_eq!(f(0xFF, 1), None);
    assert_eq!(f(0, -1), None);
    assert_eq!(f(0xFF, -1), Some(ZpAddress::new(0xFE)));
}

#[test]
fn test_zp_address_wrapping_add_unsigned() {
    let f = |addr: u8, offset: usize| ZpAddress::new(addr).wrapping_add_unsigned(offset);

    assert_eq!(f(0, 1), ZpAddress::new(1));
    assert_eq!(f(0xFF, 1), ZpAddress::new(0));
}

#[test]
fn test_zp_address_wrapping_add_signed() {
    let f = |addr: u8, rel: isize| ZpAddress::new(addr).wrapping_add_signed(rel);

    assert_eq!(f(0, 1), ZpAddress::new(1));
    assert_eq!(f(0xFF, 1), ZpAddress::new(0));
    assert_eq!(f(0, -1), ZpAddress::new(0xFF));
    assert_eq!(f(0xFF, -1), ZpAddress::new(0xFE));
}

fn make_range(min: u16, len: usize) -> AddressRange {
    AddressRange::from_start_len(Address::new(min), len)
}

#[test]
fn test_address_range() {
    {
        let range = make_range(0, 1);
        assert_eq!(range.min(), Address::new(0));
        assert_eq!(range.max(), Address::new(0));
    }
    {
        let range = make_range(0x8000, 0x8000);
        assert_eq!(range.min(), Address::new(0x8000));
        assert_eq!(range.max(), Address::new(0xFFFF));
    }
}

#[test]
fn test_address_range_intersects() {
    let f = |(min1, len1): (u16, usize), (min2, len2): (u16, usize)| {
        let range1 = make_range(min1, len1);
        let range2 = make_range(min2, len2);
        range1.intersects(range2)
    };

    assert!(f((0, 1), (0, 1)));
    assert!(f((0, 10), (3, 3)));
    assert!(f((3, 3), (0, 10)));
    assert!(f((0, 10), (9, 3)));
    assert!(f((9, 3), (0, 10)));

    assert!(!f((0, 10), (10, 10)));
    assert!(!f((10, 10), (0, 10)));
}

#[test]
fn test_address_range_contains_addr() {
    let f = |(min, len): (u16, usize), addr: u16| {
        let range = make_range(min, len);
        let addr = Address::new(addr);
        range.contains_addr(addr)
    };

    assert!(f((0, 1), 0));
    assert!(f((0, 10), 5));

    assert!(!f((10, 10), 9));
    assert!(!f((10, 10), 20));
}

#[test]
fn test_address_range_contains_range() {
    let f = |(min1, len1): (u16, usize), (min2, len2): (u16, usize)| {
        let range1 = make_range(min1, len1);
        let range2 = make_range(min2, len2);
        range1.contains_range(range2)
    };

    assert!(f((0, 1), (0, 1)));
    assert!(f((10, 10), (13, 3)));
    assert!(f((10, 10), (10, 3)));
    assert!(f((10, 10), (17, 3)));

    assert!(!f((10, 10), (0, 10)));
    assert!(!f((10, 10), (9, 3)));
    assert!(!f((10, 10), (19, 3)));
    assert!(!f((10, 10), (20, 10)));
    assert!(!f((10, 10), (0, 30)));
}

#[test]
fn test_address_range_into_iter() {
    let f = |min: u16, len: usize| {
        let mut it = make_range(min, len).iter();
        let mut collected: Vec<Address> = Vec::new();
        while let Some(addr) = it.next() {
            collected.push(addr);
        }
        collected
    };
    let addrs = |xs: &[u16]| xs.iter().map(|&x| Address::new(x)).collect::<Vec<_>>();

    assert_eq!(f(0, 1), addrs(&[0]));
    assert_eq!(f(10, 5), addrs(&[10, 11, 12, 13, 14]));
}

#[test]
fn test_array_by_address() {
    let mut ary = ArrayByAddress::<u8>::new(0);
    ary.set(Address::new(1), 1);
    ary.set(Address::new(2), 2);
    ary.set(Address::new(3), 3);

    assert_eq!(*ary.get(Address::new(0)), 0);
    assert_eq!(*ary.get(Address::new(1)), 1);
    assert_eq!(*ary.get(Address::new(2)), 2);
    assert_eq!(*ary.get(Address::new(3)), 3);
    assert_eq!(*ary.get(Address::new(4)), 0);
    let window: Vec<u8> = (0u16..5).map(|a| *ary.get(Address::new(a))).collect();
    assert_eq!(window, vec![0, 1, 2, 3, 0]);
}

#[test]
fn test_array_by_address_fill_range() {
    let mut ary = ArrayByAddress::<u8>::new(0);
    ary.fill_range(make_range(2, 2), 7);

    assert_eq!(*ary.get(Address::new(1)), 0);
    assert_eq!(*ary.get(Address::new(2)), 7);
    assert_eq!(*ary.get(Address::new(3)), 7);
    assert_eq!(*ary.get(Address::new(4)), 0);
}

#[test]
fn test_address_all_iterator() {
    let mut it = Address::all();
    assert_eq!(it.next(), Some(Address::new(0)));
    assert_eq!(it.next(), Some(Address::new(1)));

    let mut count: usize = 2;
    while it.next().is_some() {
        count += 1;
    }
    assert_eq!(count, 0x10000);

    let zps = ZpAddress::all();
    assert_eq!(zps.len(), 0x100);
    assert_eq!(zps[0], ZpAddress::new(0));
    assert_eq!(zps[0xFF], ZpAddress::new(0xFF));
}

#[test]
fn test_address_le_bytes() {
    assert_eq!(Address::from_le_bytes([0xAB, 0xCD]), Address::new(0xCDAB));
    assert_eq!(Address::new(0xCDAB).to_le_bytes(), [0xAB, 0xCD]);
    assert_eq!(ZpAddress::from_le_bytes([0x7F]), ZpAddress::new(0x7F));
    assert_eq!(ZpAddress::new(0x7F).to_le_bytes(), [0x7F]);
    assert!(Address::new(0xFF).is_zeropage());
    assert!(!Address::new(0x100).is_zeropage());
}
