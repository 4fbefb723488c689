//! VRRPv2 authentication engine.
//!
//! Derives and checks the 8-byte authentication trailer of a VRRPv2 PDU.
//! Four schemes, selected by the `auth_type` field: type 0 carries eight
//! zero bytes, type 1 carries the shared secret truncated or zero-padded
//! to eight bytes, and the two proprietary keyed schemes carry the first
//! eight bytes of HMAC-SHA-256 over the PDU (type P0) or of the SHAKE256
//! XOF over secret and PDU (type P1).

use vstd::prelude::*;

verus! {

/// No authentication: the trailer is eight zero bytes.
pub const AUTH_TYPE_NONE: u8 = 0;

/// Simple (plain-text) authentication per RFC 2338.
pub const AUTH_TYPE_SIMPLE: u8 = 1;

/// Proprietary: trailer is HMAC-SHA-256 of the PDU, truncated to 8 bytes.
pub const AUTH_TYPE_P0: u8 = 250;

/// Proprietary: trailer is 8 bytes of SHAKE256 over secret then PDU.
pub const AUTH_TYPE_P1: u8 = 251;

/// What HMAC-SHA-256 returns for a given key and message.
pub uninterp spec fn hmac_sha256_of(key: Seq<u8>, msg: Seq<u8>) -> Seq<u8>;

/// What the SHAKE256 XOF returns for a given input when eight bytes of
/// output are drawn.
pub uninterp spec fn shake256_8_of(msg: Seq<u8>) -> Seq<u8>;

/// Relies on `hmac::Hmac<sha2::Sha256>` (RFC 2104 HMAC over SHA-256):
/// a 32-byte tag that depends on the key and the message alone; HMAC
/// accepts keys of any length, so `new_from_slice` cannot fail.
#[verifier::external_body]
fn hmac_sha256(key: &[u8], msg: &[u8]) -> (r: Vec<u8>)
    ensures
        r@ == hmac_sha256_of(key@, msg@),
        r@.len() == 32,
{
    let mut mac = <hmac::Hmac<sha2::Sha256> as hmac::digest::Mac>::new_from_slice(key)
        .expect("HMAC accepts keys of any length");
    hmac::digest::Mac::update(&mut mac, msg);
    hmac::digest::Mac::finalize(mac).into_bytes().to_vec()
}

/// Relies on `sha3::Shake256` (FIPS 202 SHAKE256): the first eight bytes
/// of the extendable output, which depend on the input alone.
#[verifier::external_body]
fn shake256_8(msg: &[u8]) -> (r: Vec<u8>)
    ensures
        r@ == shake256_8_of(msg@),
        r@.len() == 8,
{
    let mut hasher = <sha3::Shake256 as core::default::Default>::default();
    sha3::digest::Update::update(&mut hasher, msg);
    let mut reader = sha3::digest::ExtendableOutput::finalize_xof(hasher);
    let mut out = [0u8; 8];
    sha3::digest::XofReader::read(&mut reader, &mut out);
    out.to_vec()
}

/// `s` truncated or zero-padded on the right to exactly eight bytes.
pub open spec fn trunc8(s: Seq<u8>) -> Seq<u8> {
    Seq::new(8, |i: int| if i < s.len() { s[i] } else { 0u8 })
}

/// The bytes of an optional shared secret; no secret reads as empty.
pub open spec fn secret_bytes(secret: Option<Vec<u8>>) -> Seq<u8> {
    match secret {
        Some(s) => s@,
        None => Seq::empty(),
    }
}

/// The 8-byte authentication trailer for a PDU `msg` (header and address
/// list, checksum field zeroed, no trailer) under scheme `auth_type`.
pub open spec fn auth_data_of(auth_type: u8, secret: Seq<u8>, msg: Seq<u8>) -> Seq<u8> {
    if auth_type == AUTH_TYPE_SIMPLE {
        trunc8(secret)
    } else if auth_type == AUTH_TYPE_P0 {
        trunc8(hmac_sha256_of(secret, msg))
    } else if auth_type == AUTH_TYPE_P1 {
        trunc8(shake256_8_of(secret + msg))
    } else {
        trunc8(Seq::empty())
    }
}

/// Copy the first eight bytes of `s`, zero-padding on the right.
fn take8(s: &[u8]) -> (r: Vec<u8>)
    ensures
        r@ == trunc8(s@),
{
    let mut r: Vec<u8> = Vec::new();
    let mut i: usize = 0;
    while i < 8
        invariant
            i <= 8,
            r@.len() == i,
            forall|j: int| 0 <= j < i ==> r@[j] == trunc8(s@)[j],
        decreases 8 - i,
    {
        if i < s.len() {
            r.push(s[i]);
        } else {
            r.push(0u8);
        }
        i = i + 1;
    }
    proof {
        assert(r@ =~= trunc8(s@));
    }
    r
}

/// Derive the 8-byte authentication trailer for scheme `autht` over the
/// PDU bytes `msg` (checksum field zeroed, trailer not included).
///
/// The keyed schemes call out to the HMAC-SHA-256 and SHAKE256
/// primitives; everything around those calls is computed here.
pub fn gen_auth_data(autht: u8, secret: &Option<Vec<u8>>, msg: Option<&[u8]>) -> (r: Vec<u8>)
    ensures
        r@.len() == 8,
        r@ == auth_data_of(autht, secret_bytes(*secret), msg_bytes(msg)),
{
    let empty: Vec<u8> = Vec::new();
    let sec: &[u8] = match secret {
        Some(s) => s.as_slice(),
        None => empty.as_slice(),
    };
    let m: &[u8] = match msg {
        Some(m) => m,
        None => empty.as_slice(),
    };
    if autht == AUTH_TYPE_SIMPLE {
        take8(sec)
    } else if autht == AUTH_TYPE_P0 {
        let tag = hmac_sha256(sec, m);
        take8(tag.as_slice())
    } else if autht == AUTH_TYPE_P1 {
        let mut input: Vec<u8> = Vec::new();
        input.extend_from_slice(sec);
        input.extend_from_slice(m);
        proof {
            assert(input@ == sec@ + m@);
        }
        let tag = shake256_8(input.as_slice());
        take8(tag.as_slice())
    } else {
        take8(empty.as_slice())
    }
}

/// The bytes of an optional message; no message reads as empty.
pub open spec fn msg_bytes(msg: Option<&[u8]>) -> Seq<u8> {
    match msg {
        Some(m) => m@,
        None => Seq::empty(),
    }
}

/// Byte-wise equality of two slices.
pub fn bytes_eq(a: &[u8], b: &[u8]) -> (r: bool)
    ensures
        r <==> a@ == b@,
{
    if a.len() != b.len() {
        return false;
    }
    let mut i: usize = 0;
    while i < a.len()
        invariant
            a@.len() == b@.len(),
            i <= a@.len(),
            forall|j: int| 0 <= j < i ==> a@[j] == b@[j],
        decreases a@.len() - i,
    {
        if a[i] != b[i] {
            return false;
        }
        i = i + 1;
    }
    proof {
        assert(a@ =~= b@);
    }
    true
}

} // verus!
