use envelope::error::Error;
use envelope::identity::UserKey;
use envelope::payload::{
    AuthPayload, CanonicalPayload, CreateRoomPayload, PayloadKind, RoomAdminPayload, RoomId,
};
use envelope::permission::{MemberPermission, RoomAttrs};
use envelope::roster::{RoomMember, RoomMemberList};

fn user(b: u8) -> UserKey {
    UserKey([b; 32])
}

fn member(b: u8, bits: u64) -> RoomMember {
    RoomMember { permission: MemberPermission { bits }, user: user(b) }
}

fn encode<P: CanonicalPayload>(p: &P) -> String {
    let mut out = Vec::new();
    p.encode_into(&mut out);
    String::from_utf8(out).unwrap()
}

#[test]
fn roster_sorted_is_accepted() {
    let l = RoomMemberList::try_from(vec![member(1, 3), member(2, 1)]).unwrap();
    assert_eq!(l.len(), 2);
    assert_eq!(l.members()[0].user, user(1));
    assert_eq!(l.members()[1].permission.bits, 1);
}

#[test]
fn roster_unsorted_is_rejected() {
    let r = RoomMemberList::try_from(vec![member(2, 3), member(1, 1)]);
    assert_eq!(r.unwrap_err(), Error::InvalidRoster);
}

#[test]
fn roster_duplicate_is_rejected() {
    let r = RoomMemberList::try_from(vec![member(1, 3), member(1, 1)]);
    assert_eq!(r.unwrap_err(), Error::InvalidRoster);
}

#[test]
fn roster_empty_and_single_are_accepted() {
    assert_eq!(RoomMemberList::try_from(vec![]).unwrap().len(), 0);
    assert_eq!(RoomMemberList::try_from(vec![member(9, 0)]).unwrap().len(), 1);
}

#[test]
fn roster_order_goes_by_first_differing_byte() {
    let mut a = [0xffu8; 32];
    a[0] = 0;
    let mut b = [0u8; 32];
    b[0] = 1;
    assert!(UserKey(a).less_than(&UserKey(b)));
    assert!(!UserKey(b).less_than(&UserKey(a)));
    assert!(!UserKey(a).less_than(&UserKey(a)));
    let mut c = a;
    c[31] = 0xfe;
    assert!(UserKey(c).less_than(&UserKey(a)));
    let ok = RoomMemberList::try_from(vec![
        RoomMember { permission: MemberPermission { bits: 0 }, user: UserKey(c) },
        RoomMember { permission: MemberPermission { bits: 0 }, user: UserKey(a) },
        RoomMember { permission: MemberPermission { bits: 0 }, user: UserKey(b) },
    ]);
    assert!(ok.is_ok());
    let bad = RoomMemberList::try_from(vec![
        RoomMember { permission: MemberPermission { bits: 0 }, user: UserKey(c) },
        RoomMember { permission: MemberPermission { bits: 0 }, user: UserKey(b) },
        RoomMember { permission: MemberPermission { bits: 0 }, user: UserKey(a) },
    ]);
    assert_eq!(bad.unwrap_err(), Error::InvalidRoster);
}

#[test]
fn create_room_canonical_bytes() {
    let members = RoomMemberList::try_from(vec![member(0xaa, u64::MAX), member(0xbb, 1)]).unwrap();
    let p = CreateRoomPayload { attrs: RoomAttrs { bits: 5 }, members, title: "t".to_string() };
    let expected = format!(
        "{{\"typ\":\"create_room\",\"attrs\":5,\"members\":[{{\"permission\":18446744073709551615,\"user\":\"{}\"}},{{\"permission\":1,\"user\":\"{}\"}}],\"title\":\"t\"}}",
        "aa".repeat(32),
        "bb".repeat(32)
    );
    assert_eq!(encode(&p), expected);
}

#[test]
fn create_room_with_no_members() {
    let members = RoomMemberList::try_from(vec![]).unwrap();
    let p = CreateRoomPayload { attrs: RoomAttrs::default(), members, title: String::new() };
    assert_eq!(
        encode(&p),
        "{\"typ\":\"create_room\",\"attrs\":0,\"members\":[],\"title\":\"\"}"
    );
}

#[test]
fn creator_with_full_permission() {
    let members = RoomMemberList::try_from(vec![member(1, u64::MAX), member(2, 1)]).unwrap();
    let p = CreateRoomPayload { attrs: RoomAttrs::public_readable(), members, title: "r".to_string() };
    assert!(p.has_full_member(&user(1)));
    assert!(!p.has_full_member(&user(2)));
    assert!(!p.has_full_member(&user(3)));
}

#[test]
fn add_member_canonical_bytes() {
    let p = RoomAdminPayload::AddMember {
        permission: MemberPermission::post_chat().union(MemberPermission::add_member()),
        room: RoomId([0x0f; 16]),
        user: user(0x10),
    };
    let expected = format!(
        "{{\"typ\":\"add_member\",\"permission\":3,\"room\":\"0f0f0f0f-0f0f-0f0f-0f0f-0f0f0f0f0f0f\",\"user\":\"{}\"}}",
        "10".repeat(32)
    );
    assert_eq!(encode(&p), expected);
}

#[test]
fn auth_canonical_bytes() {
    assert_eq!(encode(&AuthPayload {}), "{\"typ\":\"auth\"}");
}

#[test]
fn room_id_text() {
    let mut b = [0u8; 16];
    for (i, x) in b.iter_mut().enumerate() {
        *x = (i as u8) * 17;
    }
    assert_eq!(RoomId(b).to_string(), "00112233-4455-6677-8899-aabbccddeeff");
}

#[test]
fn payload_tags() {
    assert_eq!(PayloadKind::from_tag(b"chat"), Ok(PayloadKind::Chat));
    assert_eq!(PayloadKind::from_tag(b"create_room"), Ok(PayloadKind::CreateRoom));
    assert_eq!(PayloadKind::from_tag(b"auth"), Ok(PayloadKind::Auth));
    assert_eq!(PayloadKind::from_tag(b"add_member"), Ok(PayloadKind::AddMember));
    assert_eq!(PayloadKind::from_tag(b"chats"), Err(Error::UnknownPayloadTag));
    assert_eq!(PayloadKind::from_tag(b""), Err(Error::UnknownPayloadTag));
    assert_eq!(PayloadKind::from_tag(b"Chat"), Err(Error::UnknownPayloadTag));
    assert_eq!(PayloadKind::AddMember.tag(), "add_member");
}
