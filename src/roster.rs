//! Room members, kept in strictly increasing order of user key.

use vstd::prelude::*;
use crate::canonical::{decimal, hex_chars, push_decimal, push_hex_string, push_text, quoted, utf8};
use crate::error::Error;
use crate::identity::{bytes_lt, UserKey};
use crate::permission::MemberPermission;

verus! {

/// One member of a room and what they may do there.
#[derive(Debug, Clone, Copy, PartialEq, Eq)]
pub struct RoomMember {
    pub permission: MemberPermission,
    pub user: UserKey,
}

/// Each member's key is strictly below the next one's; this orders the list
/// and rules out a user appearing twice.
pub open spec fn strictly_sorted(m: Seq<RoomMember>) -> bool {
    forall|i: int|
        0 <= i < m.len() - 1 ==> bytes_lt(#[trigger] m[i].user.bytes(), m[i + 1].user.bytes())
}

/// The canonical bytes of one member: `{"permission":N,"user":"<hex>"}`.
pub open spec fn member_canonical(m: RoomMember) -> Seq<u8> {
    utf8("{\"permission\":"@) + decimal(m.permission.bits as nat) + utf8(",\"user\":"@) + quoted(
        hex_chars(m.user.bytes()),
    ) + utf8("}"@)
}

/// The members' canonical bytes, separated by commas.
pub open spec fn members_canonical(m: Seq<RoomMember>) -> Seq<u8>
    decreases m.len(),
{
    if m.len() == 0 {
        Seq::empty()
    } else if m.len() == 1 {
        member_canonical(m[0])
    } else {
        members_canonical(m.drop_last()) + utf8(","@) + member_canonical(m.last())
    }
}

impl RoomMember {
    /// Appends the canonical bytes of this member.
    pub fn encode_into(&self, out: &mut Vec<u8>)
        ensures
            final(out)@ == old(out)@ + member_canonical(*self),
    {
        push_text(out, "{\"permission\":");
        push_decimal(out, self.permission.bits);
        push_text(out, ",\"user\":");
        push_hex_string(out, self.user.0.as_slice());
        push_text(out, "}");
        assert(final(out)@ =~= old(out)@ + member_canonical(*self));
    }
}

/// The members of a room, strictly increasing by user key.
#[derive(Debug)]
pub struct RoomMemberList {
    members: Vec<RoomMember>,
}

impl RoomMemberList {
    pub closed spec fn view(&self) -> Seq<RoomMember> {
        self.members@
    }

    pub closed spec fn wf(&self) -> bool {
        strictly_sorted(self.members@)
    }

    /// Accepts the list as given when it is strictly increasing by user key;
    /// it is never sorted or deduplicated here.
    pub fn try_from(members: Vec<RoomMember>) -> (r: Result<RoomMemberList, Error>)
        ensures
            strictly_sorted(members@) ==> (r matches Ok(l) && l.wf() && l.view() == members@),
            !strictly_sorted(members@) ==> r == Err::<RoomMemberList, Error>(Error::InvalidRoster),
    {
        let n = members.len();
        let mut i: usize = 1;
        while i < n
            invariant
                n == members@.len(),
                1 <= i,
                n > 0 ==> i <= n,
                forall|j: int|
                    0 <= j < i - 1 && j < n - 1 ==> bytes_lt(
                        #[trigger] members@[j].user.bytes(),
                        members@[j + 1].user.bytes(),
                    ),
            decreases n - i,
        {
            if !members[i - 1].user.less_than(&members[i].user) {
                return Err(Error::InvalidRoster);
            }
            i = i + 1;
        }
        let r = RoomMemberList { members };
        Ok(r)
    }

    /// The members, in order.
    pub fn members(&self) -> (r: &Vec<RoomMember>)
        ensures
            r@ == self.view(),
    {
        &self.members
    }

    /// The number of members.
    pub fn len(&self) -> (r: usize)
        ensures
            r == self.view().len(),
    {
        self.members.len()
    }

    /// Appends the canonical bytes of the list: a JSON array of the members.
    pub fn encode_into(&self, out: &mut Vec<u8>)
        ensures
            final(out)@ == old(out)@ + utf8("["@) + members_canonical(self.view()) + utf8("]"@),
    {
        push_text(out, "[");
        let ghost start = out@;
        let mut i: usize = 0;
        while i < self.members.len()
            invariant
                0 <= i <= self.view().len(),
                out@ == start + members_canonical(self.view().take(i as int)),
            decreases self.view().len() - i,
        {
            let ghost before = out@;
            if i > 0 {
                push_text(out, ",");
            }
            self.members[i].encode_into(out);
            proof {
                let t = self.view().take(i + 1);
                assert(t.drop_last() =~= self.view().take(i as int));
                assert(t.last() == self.view()[i as int]);
                if i == 0 {
                    assert(self.view().take(0) =~= Seq::<RoomMember>::empty());
                    assert(out@ =~= start + members_canonical(t));
                } else {
                    assert(out@ =~= start + members_canonical(t));
                }
            }
            i = i + 1;
        }
        assert(self.view().take(self.view().len() as int) =~= self.view());
        push_text(out, "]");
    }
}

} // verus!
