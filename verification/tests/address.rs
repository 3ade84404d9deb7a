use agent_vault::address::Address;

#[test]
fn address_keeps_its_bytes() {
    let mut bytes = [0u8; 32];
    for (i, byte) in bytes.iter_mut().enumerate() {
        *byte = i as u8;
    }
    let address = Address::new(bytes);
    assert_eq!(address.bytes, bytes);
    assert_eq!(address.to_vec(), bytes.to_vec());
    assert_eq!(address.to_vec().len(), 32);
}

#[test]
fn addresses_are_equal_when_all_bytes_agree() {
    let a = Address::new([5u8; 32]);
    let b = Address::new([5u8; 32]);
    let mut last_differs = [5u8; 32];
    last_differs[31] = 6;
    let mut first_differs = [5u8; 32];
    first_differs[0] = 4;
    assert!(a == b);
    assert!(a != Address::new(last_differs));
    assert!(a != Address::new(first_differs));
}

#[test]
fn zero_address_is_unset() {
    assert_eq!(Address::zero().bytes, [0u8; 32]);
    assert_eq!(Address::default(), Address::zero());
    assert!(Address::zero().is_unset());
    assert!(Address::new([0u8; 32]).is_unset());
    let mut bytes = [0u8; 32];
    bytes[31] = 1;
    assert!(!Address::new(bytes).is_unset());
    bytes = [0u8; 32];
    bytes[0] = 1;
    assert!(!Address::new(bytes).is_unset());
}
