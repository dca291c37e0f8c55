//! The payloads that travel inside signed envelopes, and their canonical bytes.

use vstd::prelude::*;
use vstd::string::StrSliceExecFns;
use crate::canonical::{
    bytes_equal, decimal, hex_chars, json_string_of, push_decimal, push_hex_string, push_json_string,
    push_text, quoted, utf8,
};
use crate::error::Error;
use crate::identity::UserKey;
use crate::permission::{MemberPermission, RoomAttrs};
use crate::roster::{members_canonical, RoomMemberList};

verus! {

/// A value with a canonical byte form: equal values give equal bytes.
pub trait CanonicalPayload {
    spec fn canonical(&self) -> Seq<u8>;

    /// Appends the canonical bytes of `self`.
    fn encode_into(&self, out: &mut Vec<u8>)
        ensures
            final(out)@ == old(out)@ + self.canonical(),
    ;
}

/// The hyphenated lower-case text of a 128-bit identifier:
/// 8-4-4-4-12 hex digits.
pub open spec fn uuid_chars(b: Seq<u8>) -> Seq<char> {
    hex_chars(b.subrange(0, 4)) + seq!['-'] + hex_chars(b.subrange(4, 6)) + seq!['-']
        + hex_chars(b.subrange(6, 8)) + seq!['-'] + hex_chars(b.subrange(8, 10)) + seq!['-']
        + hex_chars(b.subrange(10, 16))
}

/// Relies on `uuid::Uuid::from_bytes` and its hyphenated lower-case form, which
/// is how a `Uuid` is written into JSON.
#[verifier::external_body]
fn uuid_text(b: &[u8; 16]) -> (r: String)
    ensures
        r@ == uuid_chars(b@),
{
    uuid::Uuid::from_bytes(*b).hyphenated().to_string()
}

/// A 128-bit identifier of a room, as its 16 big-endian bytes.
#[derive(Debug, Clone, Copy, PartialEq, Eq)]
pub struct RoomId(pub [u8; 16]);

impl RoomId {
    pub open spec fn bytes(&self) -> Seq<u8> {
        self.0@
    }

    /// The identifier in its hyphenated lower-case form.
    pub fn to_string(&self) -> (r: String)
        ensures
            r@ == uuid_chars(self.bytes()),
    {
        uuid_text(&self.0)
    }

    /// Appends the identifier as a JSON string.
    pub fn encode_into(&self, out: &mut Vec<u8>)
        ensures
            final(out)@ == old(out)@ + quoted(uuid_chars(self.bytes())),
    {
        let t = uuid_text(&self.0);
        push_text(out, "\"");
        push_text(out, t.as_str());
        push_text(out, "\"");
        assert(final(out)@ =~= old(out)@ + quoted(uuid_chars(self.bytes())));
    }
}

/// A chat message posted to a room.
#[derive(Debug)]
pub struct ChatPayload {
    pub room: RoomId,
    pub text: String,
}

impl CanonicalPayload for ChatPayload {
    /// `{"typ":"chat","room":"<uuid>","text":<string>}`
    open spec fn canonical(&self) -> Seq<u8> {
        utf8("{\"typ\":\"chat\",\"room\":"@) + quoted(uuid_chars(self.room.bytes())) + utf8(
            ",\"text\":"@,
        ) + utf8(json_string_of(self.text@)) + utf8("}"@)
    }

    fn encode_into(&self, out: &mut Vec<u8>) {
        push_text(out, "{\"typ\":\"chat\",\"room\":");
        self.room.encode_into(out);
        push_text(out, ",\"text\":");
        push_json_string(out, self.text.as_str());
        push_text(out, "}");
        assert(final(out)@ =~= old(out)@ + self.canonical());
    }
}

/// Creates a room. The member list is expected to hold the creator with every
/// permission bit set; that is a policy the caller checks, with
/// `has_full_member`.
#[derive(Debug)]
pub struct CreateRoomPayload {
    pub attrs: RoomAttrs,
    pub members: RoomMemberList,
    pub title: String,
}

impl CreateRoomPayload {
    /// Whether `user` is among the members with every permission bit set, as
    /// the creator of a room must be.
    pub fn has_full_member(&self, user: &UserKey) -> (r: bool)
        ensures
            r == exists|i: int|
                0 <= i < self.members.view().len() && (#[trigger] self.members.view()[i]).user.bytes()
                    == user.bytes() && self.members.view()[i].permission.bits == u64::MAX,
    {
        let members = self.members.members();
        let mut i: usize = 0;
        while i < members.len()
            invariant
                0 <= i <= members@.len(),
                members@ == self.members.view(),
                forall|j: int|
                    0 <= j < i ==> !((#[trigger] members@[j]).user.bytes() == user.bytes()
                        && members@[j].permission.bits == u64::MAX),
            decreases members@.len() - i,
        {
            if members[i].user.equals(user) && members[i].permission.bits == u64::MAX {
                return true;
            }
            i = i + 1;
        }
        false
    }
}

impl CanonicalPayload for CreateRoomPayload {
    /// `{"typ":"create_room","attrs":N,"members":[...],"title":<string>}`
    open spec fn canonical(&self) -> Seq<u8> {
        utf8("{\"typ\":\"create_room\",\"attrs\":"@) + decimal(self.attrs.bits as nat) + utf8(
            ",\"members\":"@,
        ) + utf8("["@) + members_canonical(self.members.view()) + utf8("]"@) + utf8(
            ",\"title\":"@,
        ) + utf8(json_string_of(self.title@)) + utf8("}"@)
    }

    fn encode_into(&self, out: &mut Vec<u8>) {
        push_text(out, "{\"typ\":\"create_room\",\"attrs\":");
        push_decimal(out, self.attrs.bits);
        push_text(out, ",\"members\":");
        self.members.encode_into(out);
        push_text(out, ",\"title\":");
        push_json_string(out, self.title.as_str());
        push_text(out, "}");
        assert(final(out)@ =~= old(out)@ + self.canonical());
    }
}

/// Proof of room membership for read access; it carries no fields.
#[derive(Debug, Clone, Copy, PartialEq, Eq)]
pub struct AuthPayload {}

impl CanonicalPayload for AuthPayload {
    /// `{"typ":"auth"}`
    open spec fn canonical(&self) -> Seq<u8> {
        utf8("{\"typ\":\"auth\"}"@)
    }

    fn encode_into(&self, out: &mut Vec<u8>) {
        push_text(out, "{\"typ\":\"auth\"}");
    }
}

/// Administrative changes to a room.
#[derive(Debug, Clone, Copy, PartialEq, Eq)]
pub enum RoomAdminPayload {
    AddMember { permission: MemberPermission, room: RoomId, user: UserKey },
}

impl CanonicalPayload for RoomAdminPayload {
    /// `{"typ":"add_member","permission":N,"room":"<uuid>","user":"<hex>"}`
    open spec fn canonical(&self) -> Seq<u8> {
        match *self {
            RoomAdminPayload::AddMember { permission, room, user } => utf8(
                "{\"typ\":\"add_member\",\"permission\":"@,
            ) + decimal(permission.bits as nat) + utf8(",\"room\":"@) + quoted(
                uuid_chars(room.bytes()),
            ) + utf8(",\"user\":"@) + quoted(hex_chars(user.bytes())) + utf8("}"@),
        }
    }

    fn encode_into(&self, out: &mut Vec<u8>) {
        match self {
            RoomAdminPayload::AddMember { permission, room, user } => {
                push_text(out, "{\"typ\":\"add_member\",\"permission\":");
                push_decimal(out, permission.bits);
                push_text(out, ",\"room\":");
                room.encode_into(out);
                push_text(out, ",\"user\":");
                push_hex_string(out, user.0.as_slice());
                push_text(out, "}");
                assert(final(out)@ =~= old(out)@ + self.canonical());
            },
        }
    }
}

/// The kinds of payload, told apart on the wire by their `typ` tag.
#[derive(Debug, Clone, Copy, PartialEq, Eq, Structural)]
pub enum PayloadKind {
    Chat,
    CreateRoom,
    Auth,
    AddMember,
}

/// The tag that marks each kind of payload.
pub open spec fn tag_of(k: PayloadKind) -> Seq<char> {
    match k {
        PayloadKind::Chat => "chat"@,
        PayloadKind::CreateRoom => "create_room"@,
        PayloadKind::Auth => "auth"@,
        PayloadKind::AddMember => "add_member"@,
    }
}

impl PayloadKind {
    /// The tag of this kind.
    pub fn tag(&self) -> (r: &'static str)
        ensures
            r@ == tag_of(*self),
    {
        match self {
            PayloadKind::Chat => "chat",
            PayloadKind::CreateRoom => "create_room",
            PayloadKind::Auth => "auth",
            PayloadKind::AddMember => "add_member",
        }
    }

    /// The kind whose tag is `tag` (given as UTF-8 bytes); any other tag is
    /// refused.
    pub fn from_tag(tag: &[u8]) -> (r: Result<PayloadKind, Error>)
        ensures
            r matches Ok(k) ==> tag@ == utf8(tag_of(k)),
            r is Err <==> (forall|k: PayloadKind| tag@ != #[trigger] utf8(tag_of(k))),
            r is Err ==> r == Err::<PayloadKind, Error>(Error::UnknownPayloadTag),
    {
        let kinds = [
            PayloadKind::Chat,
            PayloadKind::CreateRoom,
            PayloadKind::Auth,
            PayloadKind::AddMember,
        ];
        let mut i: usize = 0;
        while i < 4
            invariant
                0 <= i <= 4,
                kinds@ == seq![
                    PayloadKind::Chat,
                    PayloadKind::CreateRoom,
                    PayloadKind::Auth,
                    PayloadKind::AddMember,
                ],
                forall|j: int| 0 <= j < i ==> tag@ != #[trigger] utf8(tag_of(kinds@[j])),
            decreases 4 - i,
        {
            let k = kinds[i];
            let t = k.tag().as_bytes_vec();
            if bytes_equal(tag, t.as_slice()) {
                assert(tag@ == utf8(tag_of(k)));
                return Ok(k);
            }
            i = i + 1;
        }
        proof {
            assert forall|k: PayloadKind| tag@ != #[trigger] utf8(tag_of(k)) by {
                match k {
                    PayloadKind::Chat => assert(kinds@[0] == k),
                    PayloadKind::CreateRoom => assert(kinds@[1] == k),
                    PayloadKind::Auth => assert(kinds@[2] == k),
                    PayloadKind::AddMember => assert(kinds@[3] == k),
                }
            }
        }
        Err(Error::UnknownPayloadTag)
    }
}

} // verus!
