//! Sovereign accounts of parachains: the 32-byte account that stands for
//! a parachain, on the relay chain or on a sibling parachain.
//!
//! The account is a four-byte type tag, the parachain id in little-endian
//! byte order, and zero bytes up to 32.

use vstd::prelude::*;

verus! {

/// The parachain id of Acala.
pub const ACALA_ID: u32 = 2000;

/// The parachain id of the mocked Bifrost parachain.
pub const MOCK_BIFROST_ID: u32 = 2001;

/// The tag of a parachain's account on a sibling parachain: `b"sibl"`.
pub open spec fn sibling_tag() -> Seq<u8> {
    seq![0x73u8, 0x69u8, 0x62u8, 0x6cu8]
}

/// The tag of a parachain's account on the relay chain: `b"para"`.
pub open spec fn parachain_tag() -> Seq<u8> {
    seq![0x70u8, 0x61u8, 0x72u8, 0x61u8]
}

/// The four bytes of `x`, least significant first.
pub open spec fn le_bytes(x: u32) -> Seq<u8> {
    seq![
        (x % 256) as u8,
        ((x / 256) % 256) as u8,
        ((x / 65536) % 256) as u8,
        ((x / 16777216) % 256) as u8,
    ]
}

/// The number whose little-endian bytes are `b[0..4]`.
pub open spec fn le_value(b: Seq<u8>) -> int {
    b[0] + 256 * b[1] + 65536 * b[2] + 16777216 * b[3]
}

/// The account with type tag `tag` for parachain `id`.
pub open spec fn sovereign_account(tag: Seq<u8>, id: u32) -> Seq<u8> {
    tag + le_bytes(id) + Seq::new(24, |i: int| 0u8)
}

/// A sovereign account holds its tag, then the parachain id, which can be
/// read back from its bytes, then zeros.
pub proof fn sovereign_account_holds_id(tag: Seq<u8>, id: u32)
    requires
        tag.len() == 4,
    ensures
        sovereign_account(tag, id).len() == 32,
        sovereign_account(tag, id).subrange(0, 4) == tag,
        le_value(sovereign_account(tag, id).subrange(4, 8)) == id,
        forall|i: int| 8 <= i < 32 ==> sovereign_account(tag, id)[i] == 0,
{
    let a = sovereign_account(tag, id);
    assert(a.subrange(0, 4) =~= tag);
    assert(a.subrange(4, 8) =~= le_bytes(id));
    let x = id as int;
    assert(x % 256 + 256 * ((x / 256) % 256) + 65536 * ((x / 65536) % 256) + 16777216 * ((x
        / 16777216) % 256) == x) by (nonlinear_arith)
        requires
            0 <= x < 0x1_0000_0000,
    ;
}

/// Distinct parachains have distinct accounts, and no parachain's account
/// on a sibling is any parachain's account on the relay chain.
pub proof fn sovereign_accounts_are_distinct(id1: u32, id2: u32)
    ensures
        id1 != id2 ==> sovereign_account(sibling_tag(), id1) != sovereign_account(sibling_tag(), id2),
        id1 != id2 ==> sovereign_account(parachain_tag(), id1) != sovereign_account(
            parachain_tag(),
            id2,
        ),
        sovereign_account(sibling_tag(), id1) != sovereign_account(parachain_tag(), id2),
{
    sovereign_account_holds_id(sibling_tag(), id1);
    sovereign_account_holds_id(sibling_tag(), id2);
    sovereign_account_holds_id(parachain_tag(), id1);
    sovereign_account_holds_id(parachain_tag(), id2);
    assert(sovereign_account(sibling_tag(), id1)[0] != sovereign_account(parachain_tag(), id2)[0]);
}

fn tagged_account(tag: [u8; 4], id: u32) -> (a: [u8; 32])
    ensures
        a@ == sovereign_account(tag@, id),
{
    let mut a: [u8; 32] = [0u8; 32];
    a[0] = tag[0];
    a[1] = tag[1];
    a[2] = tag[2];
    a[3] = tag[3];
    a[4] = (id % 256) as u8;
    a[5] = ((id / 256) % 256) as u8;
    a[6] = ((id / 65536) % 256) as u8;
    a[7] = ((id / 16777216) % 256) as u8;
    assert(a@ =~= sovereign_account(tag@, id));
    a
}

/// The account of parachain `para_id` on a sibling parachain.
pub fn sibling_account(para_id: u32) -> (a: [u8; 32])
    ensures
        a@ == sovereign_account(sibling_tag(), para_id),
{
    let tag: [u8; 4] = [0x73, 0x69, 0x62, 0x6c];
    assert(tag@ =~= sibling_tag());
    tagged_account(tag, para_id)
}

/// The account of parachain `para_id` on the relay chain.
pub fn parachain_account(para_id: u32) -> (a: [u8; 32])
    ensures
        a@ == sovereign_account(parachain_tag(), para_id),
{
    let tag: [u8; 4] = [0x70, 0x61, 0x72, 0x61];
    assert(tag@ =~= parachain_tag());
    tagged_account(tag, para_id)
}

/// The account that holds, on Acala, the reserve of the mocked Bifrost parachain.
pub fn bifrost_reserve_account() -> (a: [u8; 32])
    ensures
        a@ == sovereign_account(sibling_tag(), MOCK_BIFROST_ID),
{
    sibling_account(MOCK_BIFROST_ID)
}

} // verus!
