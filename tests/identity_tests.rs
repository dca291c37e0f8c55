use ed25519_dalek::SigningKey;
use envelope::error::Error;
use envelope::identity::UserKey;
use envelope::permission::{
    from_column, to_column, MemberPermission, RoomAttrs, ServerPermission,
};

#[test]
fn user_key_text_is_lower_hex() {
    let mut b = [0u8; 32];
    b[0] = 0xab;
    b[1] = 0x01;
    b[31] = 0xff;
    let s = UserKey(b).to_string();
    assert_eq!(s.len(), 64);
    assert!(s.starts_with("ab01"));
    assert!(s.ends_with("ff"));
    assert_eq!(s, hex::encode(b));
}

#[test]
fn user_key_column_round_trip() {
    let pk = SigningKey::from_bytes(&[3u8; 32]).verifying_key().to_bytes();
    let k = UserKey(pk);
    let col = k.to_column();
    assert_eq!(col, pk.to_vec());
    assert_eq!(UserKey::from_column(&col), Ok(k));
}

#[test]
fn user_key_column_wrong_size() {
    assert_eq!(UserKey::from_column(&[0u8; 31]), Err(Error::InvalidBlobSize));
    assert_eq!(UserKey::from_column(&[0u8; 33]), Err(Error::InvalidBlobSize));
    assert_eq!(UserKey::from_column(&[]), Err(Error::InvalidBlobSize));
}

#[test]
fn user_key_column_not_a_point() {
    let bad = (0u8..=255)
        .map(|i| {
            let mut b = [0u8; 32];
            b[0] = i;
            b[31] = 0x7f;
            b
        })
        .find(|b| ed25519_dalek::VerifyingKey::from_bytes(b).is_err())
        .unwrap();
    assert_eq!(UserKey::from_column(&bad), Err(Error::InvalidIdentity));
}

#[test]
fn user_key_equality() {
    let a = UserKey([1; 32]);
    let mut b = [1u8; 32];
    assert!(a.equals(&UserKey(b)));
    b[17] = 2;
    assert!(!a.equals(&UserKey(b)));
}

#[test]
fn all_bits_column_round_trip() {
    let all = MemberPermission::all();
    assert_eq!(all.bits, u64::MAX);
    let col = to_column(&all);
    assert_eq!(col, -1);
    let back: MemberPermission = from_column(col);
    assert_eq!(back, all);
    let s: ServerPermission = from_column(to_column(&ServerPermission::all()));
    assert_eq!(s.bits, u64::MAX);
    let r: RoomAttrs = from_column(to_column(&RoomAttrs::all()));
    assert_eq!(r.bits, u64::MAX);
}

#[test]
fn column_keeps_every_bit() {
    for bits in [0u64, 1, 1 << 63, (1 << 63) | 5, 0x8000_0000_0000_0001, 12345] {
        let a = RoomAttrs { bits };
        let col = to_column(&a);
        assert_eq!(col as u64, bits);
        let back: RoomAttrs = from_column(col);
        assert_eq!(back.bits, bits);
    }
    assert_eq!(to_column(&RoomAttrs { bits: 1 << 63 }), i64::MIN);
    let r: RoomAttrs = from_column(i64::MIN);
    assert_eq!(r.bits, 1 << 63);
}

#[test]
fn permission_operations() {
    let post = MemberPermission::post_chat();
    let add = MemberPermission::add_member();
    let both = post.union(add);
    assert_eq!(both.bits, 3);
    assert!(both.contains(post));
    assert!(!post.contains(both));
    assert!(post.is_subset(both));
    assert!(!both.is_subset(add));
    assert_eq!(both.intersection(add), add);
    assert!(both.intersects(add));
    assert!(!post.intersects(add));
    assert_eq!(MemberPermission::empty().bits, 0);
    assert!(MemberPermission::all().contains(both));
    assert_eq!(ServerPermission::create_room().bits, 1);
    assert_eq!(RoomAttrs::public_readable().bits, 1);
    let open = RoomAttrs { bits: 1 << 40 }.union(RoomAttrs::public_readable());
    assert_eq!(open.bits, (1 << 40) | 1);
}
