use acala_service::sovereign::{
    bifrost_reserve_account, parachain_account, sibling_account, ACALA_ID, MOCK_BIFROST_ID,
};

fn expected(tag: &[u8; 4], id: u32) -> [u8; 32] {
    let mut a = [0u8; 32];
    a[..4].copy_from_slice(tag);
    a[4..8].copy_from_slice(&id.to_le_bytes());
    a
}

#[test]
fn sibling_account_layout() {
    let a = sibling_account(MOCK_BIFROST_ID);
    assert_eq!(&a[..4], b"sibl");
    assert_eq!(&a[4..8], &[0xd1, 0x07, 0, 0]);
    assert!(a[8..].iter().all(|b| *b == 0));
    assert_eq!(a, expected(b"sibl", 2001));
    assert_eq!(bifrost_reserve_account(), a);
}

#[test]
fn parachain_account_layout() {
    assert_eq!(parachain_account(ACALA_ID), expected(b"para", 2000));
    assert_eq!(parachain_account(u32::MAX), expected(b"para", u32::MAX));
    assert_eq!(parachain_account(0), expected(b"para", 0));
}

#[test]
fn accounts_are_distinct() {
    assert_ne!(sibling_account(2000), sibling_account(2001));
    assert_ne!(sibling_account(2000), parachain_account(2000));
    assert_ne!(parachain_account(1), parachain_account(256));
}

#[test]
fn id_reads_back() {
    for id in [0u32, 1, 255, 256, 2000, 65_536, 0x0102_0304, u32::MAX] {
        let a = sibling_account(id);
        assert_eq!(u32::from_le_bytes([a[4], a[5], a[6], a[7]]), id);
    }
}
