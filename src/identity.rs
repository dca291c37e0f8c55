//! A user's identity: the 32 bytes of an Ed25519 public key.

use vstd::prelude::*;
use crate::canonical::{hex_chars, hex_encode};
use crate::error::Error;

verus! {

/// Length in bytes of a public key.
pub const PUBLIC_KEY_LENGTH: usize = 32;

/// Whether the bytes decode to a point of the curve (a usable public key).
pub uninterp spec fn valid_public_key(pk: Seq<u8>) -> bool;

/// Relies on `ed25519_dalek::VerifyingKey::from_bytes`, which succeeds exactly
/// when the compressed point decompresses.
#[verifier::external_body]
pub(crate) fn check_public_key(pk: &[u8; 32]) -> (r: bool)
    ensures
        r == valid_public_key(pk@),
{
    ed25519_dalek::VerifyingKey::from_bytes(pk).is_ok()
}

/// Strict lexicographic order of byte strings of one length.
pub open spec fn bytes_lt(a: Seq<u8>, b: Seq<u8>) -> bool {
    exists|i: int|
        0 <= i < a.len() && i < b.len() && a.take(i) == b.take(i) && #[trigger] a[i] < b[i]
}

/// A public key; equality is equality of the bytes.
#[derive(Debug, Clone, Copy, PartialEq, Eq)]
pub struct UserKey(pub [u8; 32]);

impl UserKey {
    pub open spec fn bytes(&self) -> Seq<u8> {
        self.0@
    }

    /// The key as 64 lower-case hex digits.
    pub fn to_string(&self) -> (r: String)
        ensures
            r@ == hex_chars(self.bytes()),
    {
        hex_encode(self.0.as_slice())
    }

    /// Whether `self` comes strictly before `other` in byte order.
    pub fn less_than(&self, other: &UserKey) -> (r: bool)
        ensures
            r == bytes_lt(self.bytes(), other.bytes()),
    {
        let mut i: usize = 0;
        while i < 32
            invariant
                0 <= i <= 32,
                self.bytes().len() == 32,
                other.bytes().len() == 32,
                self.bytes().take(i as int) == other.bytes().take(i as int),
            decreases 32 - i,
        {
            let a = self.0[i];
            let b = other.0[i];
            if a < b {
                assert(bytes_lt(self.bytes(), other.bytes()));
                return true;
            }
            if a > b {
                proof {
                    assert forall|j: int|
                        0 <= j < 32 && self.bytes().take(j) == other.bytes().take(j) implies
                        !(#[trigger] self.bytes()[j] < other.bytes()[j]) by {
                        if j > i {
                            assert(self.bytes().take(j)[i as int] == self.bytes()[i as int]);
                            assert(other.bytes().take(j)[i as int] == other.bytes()[i as int]);
                        } else if j < i {
                            assert(self.bytes().take(i as int)[j] == self.bytes()[j]);
                            assert(other.bytes().take(i as int)[j] == other.bytes()[j]);
                        }
                    }
                }
                return false;
            }
            assert(self.bytes().take(i + 1) =~= self.bytes().take(i as int).push(a));
            assert(other.bytes().take(i + 1) =~= other.bytes().take(i as int).push(b));
            i = i + 1;
        }
        proof {
            assert(self.bytes().take(32) =~= self.bytes());
            assert(other.bytes().take(32) =~= other.bytes());
            assert forall|j: int|
                0 <= j < 32 && self.bytes().take(j) == other.bytes().take(j) implies
                !(#[trigger] self.bytes()[j] < other.bytes()[j]) by {
                assert(self.bytes().take(32)[j] == self.bytes()[j]);
                assert(other.bytes().take(32)[j] == other.bytes()[j]);
            }
        }
        false
    }

    /// Whether the two keys hold the same bytes.
    pub fn equals(&self, other: &UserKey) -> (r: bool)
        ensures
            r == (self.bytes() == other.bytes()),
    {
        let mut i: usize = 0;
        while i < 32
            invariant
                0 <= i <= 32,
                self.bytes().len() == 32,
                other.bytes().len() == 32,
                forall|j: int| 0 <= j < i ==> self.bytes()[j] == other.bytes()[j],
            decreases 32 - i,
        {
            if self.0[i] != other.0[i] {
                return false;
            }
            i = i + 1;
        }
        assert(self.bytes() =~= other.bytes());
        true
    }

    /// The bytes that a storage column holds for this key.
    pub fn to_column(&self) -> (r: Vec<u8>)
        ensures
            r@ == self.bytes(),
    {
        let mut v: Vec<u8> = Vec::new();
        let mut i: usize = 0;
        while i < 32
            invariant
                0 <= i <= 32,
                self.bytes().len() == 32,
                v@ == self.bytes().take(i as int),
            decreases 32 - i,
        {
            v.push(self.0[i]);
            assert(self.bytes().take(i + 1) =~= self.bytes().take(i as int).push(self.0[i as int]));
            i = i + 1;
        }
        assert(self.bytes().take(32) =~= self.bytes());
        v
    }

    /// Reads a key back from a storage column. Stored bytes are not trusted:
    /// they must be exactly 32 long and decode to a curve point.
    pub fn from_column(col: &[u8]) -> (r: Result<UserKey, Error>)
        ensures
            col@.len() != 32 ==> r == Err::<UserKey, Error>(Error::InvalidBlobSize),
            col@.len() == 32 && !valid_public_key(col@) ==> r == Err::<UserKey, Error>(
                Error::InvalidIdentity,
            ),
            col@.len() == 32 && valid_public_key(col@) ==> (r matches Ok(k) && k.bytes() == col@),
    {
        if col.len() != 32 {
            return Err(Error::InvalidBlobSize);
        }
        let mut a: [u8; 32] = [0u8; 32];
        let mut i: usize = 0;
        while i < 32
            invariant
                0 <= i <= 32,
                col@.len() == 32,
                forall|j: int| 0 <= j < i ==> a@[j] == col@[j],
            decreases 32 - i,
        {
            a[i] = col[i];
            i = i + 1;
        }
        assert(a@ =~= col@);
        if check_public_key(&a) {
            Ok(UserKey(a))
        } else {
            Err(Error::InvalidIdentity)
        }
    }
}

} // verus!
