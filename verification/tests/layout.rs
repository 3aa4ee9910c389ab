use anchor_escrow::store::AddressMap;
use anchor_escrow::{Address, EscrowState};

fn layout_record() -> EscrowState {
    EscrowState {
        receive_amount: 0x0102_0304_0506_0708,
        maker: Address::new([0xaa; 32]),
        mint_a: Address::new([0xbb; 32]),
        mint_b: Address::new([0xcc; 32]),
        bump: 0xfe,
        seed: 7,
    }
}

#[test]
fn record_is_kept_field_by_field() {
    let bytes = layout_record().to_bytes();
    assert_eq!(EscrowState::INIT_SPACE, 113);
    assert_eq!(bytes.len(), 113);
    assert_eq!(&bytes[0..8], &[8, 7, 6, 5, 4, 3, 2, 1]);
    assert_eq!(&bytes[8..40], &[0xaa; 32]);
    assert_eq!(&bytes[40..72], &[0xbb; 32]);
    assert_eq!(&bytes[72..104], &[0xcc; 32]);
    assert_eq!(bytes[104], 0xfe);
    assert_eq!(&bytes[105..113], &[7, 0, 0, 0, 0, 0, 0, 0]);
}

#[test]
fn record_is_read_back_from_its_bytes() {
    let record = layout_record();
    assert_eq!(EscrowState::from_bytes(&record.to_bytes()), Some(record));
    let extreme = EscrowState { receive_amount: u64::MAX, seed: u64::MAX, bump: 0, ..record };
    assert_eq!(EscrowState::from_bytes(&extreme.to_bytes()), Some(extreme));
}

#[test]
fn bytes_of_another_length_hold_no_record() {
    let mut bytes = layout_record().to_bytes();
    assert_eq!(EscrowState::from_bytes(&bytes[..112]), None);
    bytes.push(0);
    assert_eq!(EscrowState::from_bytes(&bytes), None);
    assert_eq!(EscrowState::from_bytes(&[]), None);
}

#[test]
fn bytes_with_one_mint_twice_hold_no_record() {
    let same = EscrowState { mint_b: Address::new([0xbb; 32]), ..layout_record() };
    assert_eq!(EscrowState::from_bytes(&same.to_bytes()), None);
}

#[test]
fn address_map_holds_one_value_for_each_address() {
    let a = Address::new([1; 32]);
    let mut b_bytes = [1u8; 32];
    b_bytes[31] = 2;
    let b = Address::new(b_bytes);
    let mut map: AddressMap<u64> = AddressMap::new();
    assert_eq!(map.get(&a), None);
    assert!(!map.contains(&a));
    map.insert(a, 10);
    map.insert(b, 20);
    assert_eq!(map.get(&a), Some(10));
    assert_eq!(map.get(&b), Some(20));
    map.insert(a, 11);
    assert_eq!(map.get(&a), Some(11));
    assert_eq!(map.get(&b), Some(20));
    map.remove(&a);
    assert_eq!(map.get(&a), None);
    assert!(map.contains(&b));
    map.remove(&a);
    assert_eq!(map.get(&b), Some(20));
}

#[test]
fn addresses_are_equal_when_all_their_bytes_are() {
    let mut bytes = [5u8; 32];
    let a = Address::new(bytes);
    assert_eq!(a, Address::new([5u8; 32]));
    assert_eq!(a.to_vec(), vec![5u8; 32]);
    bytes[31] = 6;
    assert_ne!(a, Address::new(bytes));
    bytes[31] = 5;
    bytes[0] = 6;
    assert_ne!(a, Address::new(bytes));
}
