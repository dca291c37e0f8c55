//! Signed envelopes: a payload with its nonce, timestamp and signer, and an
//! Ed25519 signature over the canonical bytes of all four.

use vstd::prelude::*;
use crate::canonical::{decimal, hex_chars, push_decimal, push_hex_string, push_text, quoted, utf8};
use crate::error::Error;
use crate::identity::{check_public_key, valid_public_key, UserKey};
use crate::payload::CanonicalPayload;

verus! {

/// How far, in seconds, a signee's timestamp may be from the verifier's clock.
pub const TIMESTAMP_TOLERANCE: u64 = 90;

/// The public key that belongs to a secret key.
pub uninterp spec fn public_key_of(secret: Seq<u8>) -> Seq<u8>;

/// The Ed25519 signature of a message under a secret key.
pub uninterp spec fn signature_of(secret: Seq<u8>, msg: Seq<u8>) -> Seq<u8>;

/// Whether strict Ed25519 verification accepts the signature of the message
/// under the public key.
pub uninterp spec fn strict_verifies(pk: Seq<u8>, msg: Seq<u8>, sig: Seq<u8>) -> bool;

/// Relies on `ed25519_dalek::SigningKey::from_bytes(..).verifying_key().to_bytes()`:
/// the public key is a function of the secret key, and it is the compressed form
/// of a curve point, so it decodes again.
#[verifier::external_body]
fn derive_public_key(secret: &[u8; 32]) -> (r: [u8; 32])
    ensures
        r@ == public_key_of(secret@),
        valid_public_key(r@),
{
    ed25519_dalek::SigningKey::from_bytes(secret).verifying_key().to_bytes()
}

/// Relies on `ed25519_dalek::Signer::sign` for `SigningKey`: signing is
/// deterministic (RFC 8032), its `try_sign` never fails in this crate version,
/// and strict verification under the matching public key accepts what it
/// produces. (Strict verification would refuse a signature whose nonce point
/// has small order; for an honest signature that happens with probability
/// about 2^-252, which this contract disregards.)
#[verifier::external_body]
fn ed25519_sign(secret: &[u8; 32], msg: &[u8]) -> (r: [u8; 64])
    ensures
        r@ == signature_of(secret@, msg@),
        strict_verifies(public_key_of(secret@), msg@, r@),
{
    let key = ed25519_dalek::SigningKey::from_bytes(secret);
    ed25519_dalek::Signer::<ed25519_dalek::Signature>::sign(&key, msg).to_bytes()
}

/// Relies on `ed25519_dalek::VerifyingKey::verify_strict`, which rejects weak
/// keys and malleable signatures besides mismatches. The key is rebuilt with
/// `VerifyingKey::from_bytes`, which succeeds on the bytes that `requires` admits
/// (see `check_public_key`).
#[verifier::external_body]
fn ed25519_verify_strict(pk: &[u8; 32], msg: &[u8], sig: &[u8; 64]) -> (r: bool)
    requires
        valid_public_key(pk@),
    ensures
        r == strict_verifies(pk@, msg@, sig@),
{
    match ed25519_dalek::VerifyingKey::from_bytes(pk) {
        Ok(vk) => vk.verify_strict(msg, &ed25519_dalek::Signature::from_bytes(sig)).is_ok(),
        Err(_) => false,
    }
}

#[verifier::external_type_specification]
#[verifier::external_body]
pub struct ExSystemTime(std::time::SystemTime);

#[verifier::external_type_specification]
#[verifier::external_body]
pub struct ExSystemTimeError(std::time::SystemTimeError);

/// Relies on `std::time::SystemTime::now`: the clock's reading, of which
/// nothing is known in advance.
pub assume_specification[ std::time::SystemTime::now ]() -> std::time::SystemTime;

/// Relies on `std::time::SystemTime::duration_since`: the time elapsed since an
/// earlier instant, or an error when it is not earlier.
pub assume_specification[ std::time::SystemTime::duration_since ](
    t: &std::time::SystemTime,
    earlier: std::time::SystemTime,
) -> Result<std::time::Duration, std::time::SystemTimeError>;

/// Relies on `std::time::Duration::as_secs`: the whole seconds of a duration.
pub assume_specification[ std::time::Duration::as_secs ](d: &std::time::Duration) -> u64;

/// Relies on `std::time::UNIX_EPOCH`, the instant that Unix time counts from.
#[verifier::external_body]
fn unix_epoch() -> std::time::SystemTime {
    std::time::UNIX_EPOCH
}

/// The current Unix time in seconds; `None` when the clock reads a time before
/// the epoch.
pub fn get_timestamp() -> (r: Option<u64>) {
    let now = std::time::SystemTime::now();
    match now.duration_since(unix_epoch()) {
        Ok(d) => Some(d.as_secs()),
        Err(_) => None,
    }
}

/// The distance between two instants, in seconds.
pub open spec fn abs_diff(a: u64, b: u64) -> nat {
    if a >= b {
        (a - b) as nat
    } else {
        (b - a) as nat
    }
}

/// A timestamp is fresh when it lies less than the tolerance from the clock,
/// in either direction.
pub open spec fn fresh(timestamp: u64, now: u64) -> bool {
    abs_diff(timestamp, now) < TIMESTAMP_TOLERANCE
}

/// The signed subject: a payload with the metadata that binds it to a signer
/// and a moment.
#[derive(Debug)]
pub struct Signee<T> {
    pub nonce: u32,
    pub payload: T,
    pub timestamp: u64,
    pub user: UserKey,
}

/// The canonical bytes of a signee, with its fields in ascending name order:
/// `{"nonce":N,"payload":<payload>,"timestamp":N,"user":"<hex>"}`.
pub open spec fn signee_canonical<T: CanonicalPayload>(s: Signee<T>) -> Seq<u8> {
    utf8("{\"nonce\":"@) + decimal(s.nonce as nat) + utf8(",\"payload\":"@) + s.payload.canonical()
        + utf8(",\"timestamp\":"@) + decimal(s.timestamp as nat) + utf8(",\"user\":"@) + quoted(
        hex_chars(s.user.bytes()),
    ) + utf8("}"@)
}

impl<T: CanonicalPayload> Signee<T> {
    /// The canonical bytes that the signature covers.
    pub fn encode(&self) -> (r: Vec<u8>)
        ensures
            r@ == signee_canonical(*self),
    {
        let mut out: Vec<u8> = Vec::new();
        push_text(&mut out, "{\"nonce\":");
        push_decimal(&mut out, self.nonce as u64);
        push_text(&mut out, ",\"payload\":");
        self.payload.encode_into(&mut out);
        push_text(&mut out, ",\"timestamp\":");
        push_decimal(&mut out, self.timestamp);
        push_text(&mut out, ",\"user\":");
        push_hex_string(&mut out, self.user.0.as_slice());
        push_text(&mut out, "}");
        assert(out@ =~= signee_canonical(*self));
        out
    }
}

/// A signee with the signature over its canonical bytes.
#[derive(Debug)]
pub struct WithSig<T> {
    pub sig: [u8; 64],
    pub signee: Signee<T>,
}

/// The canonical bytes of an envelope: `{"sig":"<hex>","signee":<signee>}`.
pub open spec fn envelope_canonical<T: CanonicalPayload>(e: WithSig<T>) -> Seq<u8> {
    utf8("{\"sig\":"@) + quoted(hex_chars(e.sig@)) + utf8(",\"signee\":"@) + signee_canonical(
        e.signee,
    ) + utf8("}"@)
}

/// Whether the signature over the signee's canonical bytes is good under the
/// signer's key.
pub open spec fn signature_holds<T: CanonicalPayload>(e: WithSig<T>) -> bool {
    valid_public_key(e.signee.user.bytes()) && strict_verifies(
        e.signee.user.bytes(),
        signee_canonical(e.signee),
        e.sig@,
    )
}

/// Whether an envelope is accepted by a verifier whose clock reads `now`.
pub open spec fn accepted_at<T: CanonicalPayload>(e: WithSig<T>, now: u64) -> bool {
    fresh(e.signee.timestamp, now) && signature_holds(e)
}

/// What a verifier whose clock reads `now` answers: the timestamp is checked
/// first, then the signer's key, then the signature.
pub open spec fn verdict<T: CanonicalPayload>(e: WithSig<T>, now: u64) -> Result<(), Error> {
    if !fresh(e.signee.timestamp, now) {
        Err(Error::TimestampOutOfRange)
    } else if !valid_public_key(e.signee.user.bytes()) {
        Err(Error::InvalidIdentity)
    } else if !strict_verifies(e.signee.user.bytes(), signee_canonical(e.signee), e.sig@) {
        Err(Error::InvalidSignature)
    } else {
        Ok(())
    }
}

/// Equal fields give equal canonical bytes, however the two signees were put
/// together.
pub proof fn lemma_canonical_deterministic<T: CanonicalPayload>(a: Signee<T>, b: Signee<T>)
    requires
        a.nonce == b.nonce,
        a.payload == b.payload,
        a.timestamp == b.timestamp,
        a.user == b.user,
    ensures
        signee_canonical(a) == signee_canonical(b),
{
}

/// An envelope with a good signature, made at time `t`, is accepted exactly
/// while the clock stays less than the tolerance away from `t`: at `t + 89` it
/// is accepted, at `t + 91` and `t - 91` it is refused as out of range.
pub proof fn lemma_freshness_window<T: CanonicalPayload>(e: WithSig<T>, t: u64)
    requires
        e.signee.timestamp == t,
        signature_holds(e),
    ensures
        forall|now: u64|
            (#[trigger] verdict(e, now) is Ok) <==> abs_diff(t, now) < TIMESTAMP_TOLERANCE,
        forall|now: u64|
            abs_diff(t, now) >= TIMESTAMP_TOLERANCE ==> #[trigger] verdict(e, now) == Err::<
                (),
                Error,
            >(Error::TimestampOutOfRange),
        t + 89 <= u64::MAX ==> verdict(e, (t + 89) as u64) is Ok,
        t + 91 <= u64::MAX ==> verdict(e, (t + 91) as u64) == Err::<(), Error>(
            Error::TimestampOutOfRange,
        ),
        t >= 91 ==> verdict(e, (t - 91) as u64) == Err::<(), Error>(Error::TimestampOutOfRange),
{
}

impl<T: CanonicalPayload> WithSig<T> {
    /// Signs `payload` with the secret key, the given nonce and the clock
    /// reading `now`. A verifier whose clock reads the same time accepts the
    /// result.
    pub fn sign_at(secret: &[u8; 32], nonce: u32, payload: T, now: u64) -> (r: WithSig<T>)
        ensures
            r.signee.nonce == nonce,
            r.signee.payload == payload,
            r.signee.timestamp == now,
            r.signee.user.bytes() == public_key_of(secret@),
            r.sig@ == signature_of(secret@, signee_canonical(r.signee)),
            accepted_at(r, now),
    {
        let user = UserKey(derive_public_key(secret));
        let signee = Signee { nonce, payload, timestamp: now, user };
        let bytes = signee.encode();
        let sig = ed25519_sign(secret, bytes.as_slice());
        WithSig { sig, signee }
    }

    /// Signs `payload` with the secret key and the given nonce, stamped with
    /// the current time.
    pub fn sign(secret: &[u8; 32], nonce: u32, payload: T) -> (r: Result<WithSig<T>, Error>)
        ensures
            r matches Ok(e) ==> e.signee.nonce == nonce && e.signee.payload == payload
                && e.signee.user.bytes() == public_key_of(secret@) && e.sig@ == signature_of(
                secret@,
                signee_canonical(e.signee),
            ) && accepted_at(e, e.signee.timestamp),
            r matches Err(err) ==> err == Error::ClockBeforeEpoch,
    {
        match get_timestamp() {
            Some(now) => Ok(Self::sign_at(secret, nonce, payload, now)),
            None => Err(Error::ClockBeforeEpoch),
        }
    }

    /// Checks the envelope against a clock that reads `now`: first the
    /// timestamp, then the signer's key, then the signature.
    pub fn verify_at(&self, now: u64) -> (r: Result<(), Error>)
        ensures
            r == verdict(*self, now),
            r is Ok <==> accepted_at(*self, now),
    {
        let ts = self.signee.timestamp;
        let diff: u64 = if ts >= now {
            ts - now
        } else {
            now - ts
        };
        if diff >= TIMESTAMP_TOLERANCE {
            return Err(Error::TimestampOutOfRange);
        }
        let bytes = self.signee.encode();
        if !check_public_key(&self.signee.user.0) {
            return Err(Error::InvalidIdentity);
        }
        if !ed25519_verify_strict(&self.signee.user.0, bytes.as_slice(), &self.sig) {
            return Err(Error::InvalidSignature);
        }
        Ok(())
    }

    /// Checks the envelope against the current time.
    pub fn verify(&self) -> (r: Result<(), Error>)
        ensures
            r == Err::<(), Error>(Error::ClockBeforeEpoch) || exists|now: u64|
                r == #[trigger] verdict(*self, now),
    {
        match get_timestamp() {
            Some(now) => self.verify_at(now),
            None => Err(Error::ClockBeforeEpoch),
        }
    }

    /// The canonical bytes of the whole envelope, as it is transmitted.
    pub fn encode(&self) -> (r: Vec<u8>)
        ensures
            r@ == envelope_canonical(*self),
    {
        let mut out: Vec<u8> = Vec::new();
        push_text(&mut out, "{\"sig\":");
        push_hex_string(&mut out, self.sig.as_slice());
        push_text(&mut out, ",\"signee\":");
        let mut signee = self.signee.encode();
        out.append(&mut signee);
        push_text(&mut out, "}");
        assert(out@ =~= envelope_canonical(*self));
        out
    }
}

} // verus!
