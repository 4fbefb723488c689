//! VRRPv2 packet codec.
//!
//! Parses and builds VRRPv2 advertisement frames: a minimal 20-byte IPv4
//! header (no options) followed by the VRRP PDU — an 8-byte fixed header,
//! `addr_count` IPv4 addresses of 4 bytes each, and an 8-byte
//! authentication trailer. All multi-byte fields are network byte order.
//!
//! Building follows the order the receiver reverses: the authentication
//! trailer is computed over the PDU with the checksum field zeroed and no
//! trailer; the checksum is then computed over the PDU including the
//! finished trailer. Both sides must follow this order or verification
//! fails silently.

use vstd::prelude::*;
use crate::auth::{auth_data_of, gen_auth_data, secret_bytes};
use crate::checksums::{
    fold1c, lemma_fold1c_bounds, lemma_fold1c_insert_complement, lemma_sum16_nonneg,
    lemma_sum16_update_word, rfc1071, rfc1071_spec, sum16,
};
use vstd::arithmetic::div_mod::lemma_fundamental_div_mod;

verus! {

/// Version 2, message type 1 (Advertisement), packed in one byte.
pub const VRRP_V2_VER_TYPE_AUTHMSG: u8 = 0x21;

/// IP protocol number assigned to VRRP.
pub const IP_UPPER_PROTO_VRRP: u8 = 112;

/// Required TTL of a VRRP advertisement.
pub const IP_TTL_VRRP_MINTTL: u8 = 255;

/// Offset of the VRRP PDU within the frame (after the IPv4 header).
pub const VRRP_PDU_POS: usize = 20;

/// Offset of the checksum field within the VRRP PDU.
pub const VRRP_V2_CHECKSUM_POS: usize = 6;

/// Offset of the address list within the frame.
pub const FRAME_IPADDR_POS: usize = 28;

/// Smallest acceptable frame: IP header, fixed header, one address,
/// authentication trailer.
pub const MIN_FRAME_LEN: usize = 40;

/// The big-endian 16-bit value of two bytes.
pub open spec fn be16(hi: u8, lo: u8) -> int {
    (hi as int) * 256 + (lo as int)
}

/// A parsed VRRPv2 advertisement frame: IP metadata, the fixed-header
/// fields, the raw address list (4 bytes per address) and the trailer.
#[derive(Debug, Clone, PartialEq, Eq)]
pub struct VRRPpkt {
    pub ipttl: u8,
    pub ipproto: u8,
    pub ipsrc: [u8; 4],
    pub ipdst: [u8; 4],
    pub version: u8,
    pub vrid: u8,
    pub prio: u8,
    pub addrcount: u8,
    pub authtype: u8,
    pub adverint: u8,
    pub checksum: u16,
    pub ipaddrs: Vec<u8>,
    pub authdata: Vec<u8>,
}

/// Why a frame was dropped by the structural checks, in the order the
/// checks run.
#[derive(Debug, Clone, Copy, PartialEq, Eq, Structural)]
pub enum ParseError {
    /// Shorter than the smallest possible advertisement.
    TooShort,
    /// IP upper protocol is not 112.
    NotVrrpProto,
    /// IP TTL is not 255.
    BadTtl,
    /// Version/type byte is not v2 Advertisement.
    BadVersionType,
    /// Zero addresses, or the claimed address list does not fit.
    BadAddrCount,
}

/// The structural acceptance condition of a frame, checked in order:
/// length, protocol, TTL, version/type, address count.
pub open spec fn parse_ok(b: Seq<u8>) -> bool {
    &&& b.len() >= MIN_FRAME_LEN
    &&& b[9] == IP_UPPER_PROTO_VRRP
    &&& b[8] == IP_TTL_VRRP_MINTTL
    &&& b[20] == VRRP_V2_VER_TYPE_AUTHMSG
    &&& b[23] >= 1
    &&& 36 + 4 * (b[23] as int) <= b.len()
}

/// The first structural check that fails on a rejected frame.
pub open spec fn parse_err_of(b: Seq<u8>) -> ParseError {
    if b.len() < MIN_FRAME_LEN {
        ParseError::TooShort
    } else if b[9] != IP_UPPER_PROTO_VRRP {
        ParseError::NotVrrpProto
    } else if b[8] != IP_TTL_VRRP_MINTTL {
        ParseError::BadTtl
    } else if b[20] != VRRP_V2_VER_TYPE_AUTHMSG {
        ParseError::BadVersionType
    } else {
        ParseError::BadAddrCount
    }
}

/// The VRRP PDU of a frame: fixed header, `ac` addresses, trailer.
pub open spec fn pdu_bytes(b: Seq<u8>, ac: int) -> Seq<u8> {
    b.subrange(20, 36 + 4 * ac)
}

/// Parse an IP + VRRP frame into its logical view.
///
/// Accepts exactly the frames `parse_ok` admits and reports the first
/// failing check otherwise; trailing bytes beyond the claimed address
/// list and trailer are ignored.
pub fn parse(packet: &[u8]) -> (r: Result<VRRPpkt, ParseError>)
    ensures
        r is Ok <==> parse_ok(packet@),
        r matches Err(e) ==> e == parse_err_of(packet@),
        r matches Ok(p) ==> {
            let b = packet@;
            let ac = b[23] as int;
            &&& p.ipttl == b[8]
            &&& p.ipproto == b[9]
            &&& p.ipsrc@ == b.subrange(12, 16)
            &&& p.ipdst@ == b.subrange(16, 20)
            &&& p.version == b[20]
            &&& p.vrid == b[21]
            &&& p.prio == b[22]
            &&& p.addrcount == b[23]
            &&& p.authtype == b[24]
            &&& p.adverint == b[25]
            &&& p.checksum as int == be16(b[26], b[27])
            &&& p.ipaddrs@ == b.subrange(28, 28 + 4 * ac)
            &&& p.authdata@ == b.subrange(28 + 4 * ac, 36 + 4 * ac)
        },
{
    if packet.len() < MIN_FRAME_LEN {
        return Err(ParseError::TooShort);
    }
    if packet[9] != IP_UPPER_PROTO_VRRP {
        return Err(ParseError::NotVrrpProto);
    }
    if packet[8] != IP_TTL_VRRP_MINTTL {
        return Err(ParseError::BadTtl);
    }
    if packet[20] != VRRP_V2_VER_TYPE_AUTHMSG {
        return Err(ParseError::BadVersionType);
    }
    let ac = packet[23];
    if ac < 1 || 36 + 4 * (ac as usize) > packet.len() {
        return Err(ParseError::BadAddrCount);
    }
    let ipsrc: [u8; 4] = [packet[12], packet[13], packet[14], packet[15]];
    let ipdst: [u8; 4] = [packet[16], packet[17], packet[18], packet[19]];
    proof {
        assert(ipsrc@ =~= packet@.subrange(12, 16));
        assert(ipdst@ =~= packet@.subrange(16, 20));
    }
    let abytes: usize = 4 * (ac as usize);
    let mut ipaddrs: Vec<u8> = Vec::new();
    let mut i: usize = 0;
    while i < abytes
        invariant
            abytes == 4 * (ac as int),
            36 + abytes <= packet@.len(),
            i <= abytes,
            ipaddrs@.len() == i,
            forall|j: int| 0 <= j < i ==> ipaddrs@[j] == packet@[28 + j],
        decreases abytes - i,
    {
        ipaddrs.push(packet[28 + i]);
        i = i + 1;
    }
    let mut authdata: Vec<u8> = Vec::new();
    let mut k: usize = 0;
    while k < 8
        invariant
            abytes == 4 * (ac as int),
            36 + abytes <= packet@.len(),
            k <= 8,
            authdata@.len() == k,
            forall|j: int| 0 <= j < k ==> authdata@[j] == packet@[28 + abytes + j],
        decreases 8 - k,
    {
        authdata.push(packet[28 + abytes + k]);
        k = k + 1;
    }
    proof {
        assert(ipaddrs@ =~= packet@.subrange(28, 28 + 4 * (ac as int)));
        assert(authdata@ =~= packet@.subrange(28 + 4 * (ac as int), 36 + 4 * (ac as int)));
    }
    Ok(VRRPpkt {
        ipttl: packet[8],
        ipproto: packet[9],
        ipsrc,
        ipdst,
        version: packet[20],
        vrid: packet[21],
        prio: packet[22],
        addrcount: ac,
        authtype: packet[24],
        adverint: packet[25],
        checksum: (packet[26] as u16) * 256 + (packet[27] as u16),
        ipaddrs,
        authdata,
    })
}

/// The VRRP PDU of an accepted frame, as a borrowed slice.
pub fn pdu_slice(packet: &[u8], ac: u8) -> (out: &[u8])
    requires
        ac >= 1,
        36 + 4 * (ac as int) <= packet@.len(),
    ensures
        out@ == pdu_bytes(packet@, ac as int),
{
    vstd::slice::slice_subrange(packet, 20, 36 + 4 * (ac as usize))
}

/// The address list flattened to wire bytes, 4 per address.
pub open spec fn flat_addrs(addrs: Seq<[u8; 4]>) -> Seq<u8>
    decreases addrs.len(),
{
    if addrs.len() == 0 {
        Seq::empty()
    } else {
        addrs[0]@ + flat_addrs(addrs.skip(1))
    }
}

pub proof fn lemma_flat_addrs_len(addrs: Seq<[u8; 4]>)
    ensures
        flat_addrs(addrs).len() == 4 * addrs.len(),
    decreases addrs.len(),
{
    if addrs.len() > 0 {
        lemma_flat_addrs_len(addrs.skip(1));
    }
}

pub proof fn lemma_flat_addrs_take(addrs: Seq<[u8; 4]>, i: int)
    requires
        0 <= i < addrs.len(),
    ensures
        flat_addrs(addrs.take(i + 1)) == flat_addrs(addrs.take(i)) + addrs[i]@,
    decreases i,
{
    if i == 0 {
        assert(addrs.take(1).skip(1) =~= addrs.take(0));
        assert(flat_addrs(addrs.take(0)) =~= Seq::empty());
        assert(flat_addrs(addrs.take(1)) =~= addrs[0]@);
    } else {
        lemma_flat_addrs_take(addrs.skip(1), i - 1);
        assert(addrs.take(i + 1).skip(1) =~= addrs.skip(1).take(i));
        assert(addrs.take(i).skip(1) =~= addrs.skip(1).take(i - 1));
        assert(flat_addrs(addrs.take(i + 1)) == addrs[0]@ + flat_addrs(addrs.skip(1).take(i)));
        assert(flat_addrs(addrs.take(i)) == addrs[0]@ + flat_addrs(addrs.skip(1).take(i - 1)));
        assert((addrs[0]@ + flat_addrs(addrs.skip(1).take(i - 1))) + addrs[i]@
            =~= addrs[0]@ + (flat_addrs(addrs.skip(1).take(i - 1)) + addrs.skip(1)[i - 1]@));
    }
}

/// The fixed VRRP header with checksum `c`.
pub open spec fn header_seq(vrid: u8, prio: u8, count: u8, authtype: u8, adverint: u8, c: int) -> Seq<u8> {
    seq![
        VRRP_V2_VER_TYPE_AUTHMSG,
        vrid,
        prio,
        count,
        authtype,
        adverint,
        (c / 256) as u8,
        (c % 256) as u8,
    ]
}

/// What the authentication trailer is computed over: the PDU with the
/// checksum field zeroed and no trailer.
pub open spec fn auth_input_spec(vrid: u8, prio: u8, authtype: u8, adverint: u8, addrs: Seq<[u8; 4]>) -> Seq<u8> {
    header_seq(vrid, prio, addrs.len() as u8, authtype, adverint, 0) + flat_addrs(addrs)
}

/// The trailer a build inserts.
pub open spec fn built_trailer_spec(
    vrid: u8,
    prio: u8,
    authtype: u8,
    adverint: u8,
    addrs: Seq<[u8; 4]>,
    secret: Seq<u8>,
) -> Seq<u8> {
    auth_data_of(authtype, secret, auth_input_spec(vrid, prio, authtype, adverint, addrs))
}

/// The checksum a build inserts: the one's complement of the folded sum
/// over the PDU with the finished trailer and a zeroed checksum field.
pub open spec fn built_cksum_spec(
    vrid: u8,
    prio: u8,
    authtype: u8,
    adverint: u8,
    addrs: Seq<[u8; 4]>,
    secret: Seq<u8>,
) -> int {
    0xFFFF - fold1c(
        sum16(
            auth_input_spec(vrid, prio, authtype, adverint, addrs)
                + built_trailer_spec(vrid, prio, authtype, adverint, addrs, secret),
        ),
    )
}

/// The finished PDU a build produces.
pub open spec fn built_pdu_spec(
    vrid: u8,
    prio: u8,
    authtype: u8,
    adverint: u8,
    addrs: Seq<[u8; 4]>,
    secret: Seq<u8>,
) -> Seq<u8> {
    header_seq(
        vrid,
        prio,
        addrs.len() as u8,
        authtype,
        adverint,
        built_cksum_spec(vrid, prio, authtype, adverint, addrs, secret),
    ) + flat_addrs(addrs) + built_trailer_spec(vrid, prio, authtype, adverint, addrs, secret)
}

/// Fixed header plus address list, with checksum `c`.
fn pdu_head(vrid: u8, prio: u8, authtype: u8, adverint: u8, c: u16, addrs: &Vec<[u8; 4]>) -> (r: Vec<u8>)
    requires
        1 <= addrs@.len() <= 255,
    ensures
        r@ == header_seq(vrid, prio, addrs@.len() as u8, authtype, adverint, c as int)
            + flat_addrs(addrs@),
{
    let mut v: Vec<u8> = Vec::new();
    v.push(VRRP_V2_VER_TYPE_AUTHMSG);
    v.push(vrid);
    v.push(prio);
    v.push(addrs.len() as u8);
    v.push(authtype);
    v.push(adverint);
    v.push((c / 256) as u8);
    v.push((c % 256) as u8);
    proof {
        assert(v@ =~= header_seq(vrid, prio, addrs@.len() as u8, authtype, adverint, c as int));
        assert(flat_addrs(addrs@.take(0)) =~= Seq::empty());
        assert(v@ =~= v@ + flat_addrs(addrs@.take(0)));
    }
    let ghost hdr = v@;
    let mut i: usize = 0;
    while i < addrs.len()
        invariant
            1 <= addrs@.len() <= 255,
            i <= addrs@.len(),
            v@ == hdr + flat_addrs(addrs@.take(i as int)),
        decreases addrs@.len() - i,
    {
        let a = addrs[i];
        v.push(a[0]);
        v.push(a[1]);
        v.push(a[2]);
        v.push(a[3]);
        proof {
            lemma_flat_addrs_take(addrs@, i as int);
            assert(a@ =~= seq![a[0], a[1], a[2], a[3]]);
            assert(v@ =~= hdr + flat_addrs(addrs@.take(i as int + 1)));
        }
        i = i + 1;
    }
    proof {
        assert(addrs@.take(addrs@.len() as int) =~= addrs@);
    }
    v
}

/// Append an 8-byte trailer.
fn append8(v: &mut Vec<u8>, t: &Vec<u8>)
    requires
        t@.len() == 8,
    ensures
        final(v)@ == old(v)@ + t@,
{
    let mut i: usize = 0;
    while i < 8
        invariant
            t@.len() == 8,
            i <= 8,
            v@ == old(v)@ + t@.take(i as int),
        decreases 8 - i,
    {
        v.push(t[i]);
        proof {
            assert(old(v)@ + t@.take(i as int + 1) =~= (old(v)@ + t@.take(i as int)).push(t@[i as int]));
        }
        i = i + 1;
    }
    proof {
        assert(t@.take(8) =~= t@);
    }
}

/// Build a VRRPv2 PDU: derive the trailer over the checksum-zeroed PDU,
/// then the checksum over the PDU including the finished trailer.
pub fn build_pdu(
    vrid: u8,
    prio: u8,
    authtype: u8,
    adverint: u8,
    addrs: &Vec<[u8; 4]>,
    secret: &Option<Vec<u8>>,
) -> (r: Vec<u8>)
    requires
        1 <= addrs@.len() <= 255,
    ensures
        r@ == built_pdu_spec(vrid, prio, authtype, adverint, addrs@, secret_bytes(*secret)),
        r@.len() == 16 + 4 * addrs@.len(),
{
    let mut z = pdu_head(vrid, prio, authtype, adverint, 0, addrs);
    let trailer = gen_auth_data(authtype, secret, Some(z.as_slice()));
    append8(&mut z, &trailer);
    let f = rfc1071(z.as_slice());
    proof {
        lemma_sum16_nonneg(z@);
        lemma_fold1c_bounds(sum16(z@));
    }
    let c: u16 = 0xFFFF - f;
    let mut out = pdu_head(vrid, prio, authtype, adverint, c, addrs);
    append8(&mut out, &trailer);
    proof {
        lemma_flat_addrs_len(addrs@);
    }
    out
}

/// A minimal IPv4 header (no options) with checksum `c`: version/IHL,
/// zero TOS, total length, zero identification and flags, TTL 255,
/// protocol 112, then source and destination.
pub open spec fn ip_head_seq(src: Seq<u8>, dst: Seq<u8>, total: int, c: int) -> Seq<u8> {
    seq![
        0x45u8,
        0u8,
        (total / 256) as u8,
        (total % 256) as u8,
        0u8,
        0u8,
        0u8,
        0u8,
        IP_TTL_VRRP_MINTTL,
        IP_UPPER_PROTO_VRRP,
        (c / 256) as u8,
        (c % 256) as u8,
    ] + src + dst
}

/// The IP header checksum a build inserts.
pub open spec fn ip_cksum_spec(src: Seq<u8>, dst: Seq<u8>, total: int) -> int {
    0xFFFF - fold1c(sum16(ip_head_seq(src, dst, total, 0)))
}

/// A whole frame: IPv4 header followed by the PDU.
pub open spec fn frame_seq(src: Seq<u8>, dst: Seq<u8>, pdu: Seq<u8>) -> Seq<u8> {
    ip_head_seq(
        src,
        dst,
        20 + pdu.len() as int,
        ip_cksum_spec(src, dst, 20 + pdu.len() as int),
    ) + pdu
}

/// The 20 header bytes with checksum `c`.
fn ip_head(src: &[u8; 4], dst: &[u8; 4], total: u16, c: u16) -> (r: Vec<u8>)
    ensures
        r@ == ip_head_seq(src@, dst@, total as int, c as int),
{
    let mut v: Vec<u8> = Vec::new();
    v.push(0x45);
    v.push(0);
    v.push((total / 256) as u8);
    v.push((total % 256) as u8);
    v.push(0);
    v.push(0);
    v.push(0);
    v.push(0);
    v.push(IP_TTL_VRRP_MINTTL);
    v.push(IP_UPPER_PROTO_VRRP);
    v.push((c / 256) as u8);
    v.push((c % 256) as u8);
    v.push(src[0]);
    v.push(src[1]);
    v.push(src[2]);
    v.push(src[3]);
    v.push(dst[0]);
    v.push(dst[1]);
    v.push(dst[2]);
    v.push(dst[3]);
    proof {
        assert(src@ =~= seq![src[0], src[1], src[2], src[3]]);
        assert(dst@ =~= seq![dst[0], dst[1], dst[2], dst[3]]);
        assert(v@ =~= ip_head_seq(src@, dst@, total as int, c as int));
    }
    v
}

/// Wrap a PDU in an IPv4 header bound for the VRRP multicast group:
/// TTL 255, protocol 112, header checksum computed last.
pub fn build_frame(src: &[u8; 4], dst: &[u8; 4], pdu: &Vec<u8>) -> (r: Vec<u8>)
    requires
        pdu@.len() <= 65515,
    ensures
        r@ == frame_seq(src@, dst@, pdu@),
{
    let total: u16 = (20 + pdu.len()) as u16;
    let h = ip_head(src, dst, total, 0);
    let f = rfc1071(h.as_slice());
    proof {
        lemma_sum16_nonneg(h@);
        lemma_fold1c_bounds(sum16(h@));
    }
    let c: u16 = 0xFFFF - f;
    let mut out = ip_head(src, dst, total, c);
    out.extend_from_slice(pdu.as_slice());
    out
}

/// Every built PDU passes the wire checksum check: the folded
/// one's-complement sum over the finished PDU is 0xFFFF.
pub proof fn lemma_built_pdu_checksum_valid(
    vrid: u8,
    prio: u8,
    authtype: u8,
    adverint: u8,
    addrs: Seq<[u8; 4]>,
    secret: Seq<u8>,
)
    requires
        1 <= addrs.len() <= 255,
    ensures
        rfc1071_spec(built_pdu_spec(vrid, prio, authtype, adverint, addrs, secret)) == 0xFFFF,
{
    let trailer = built_trailer_spec(vrid, prio, authtype, adverint, addrs, secret);
    let z = auth_input_spec(vrid, prio, authtype, adverint, addrs) + trailer;
    let c = built_cksum_spec(vrid, prio, authtype, adverint, addrs, secret);
    lemma_sum16_nonneg(z);
    lemma_fold1c_bounds(sum16(z));
    assert(0 <= c <= 0xFFFF);
    let hi = (c / 256) as u8;
    let lo = (c % 256) as u8;
    lemma_fundamental_div_mod(c, 256);
    assert((hi as int) * 256 + (lo as int) == c);
    let built = built_pdu_spec(vrid, prio, authtype, adverint, addrs, secret);
    lemma_flat_addrs_len(addrs);
    assert(built =~= z.update(6, hi).update(7, lo));
    lemma_sum16_update_word(z, 6, hi, lo);
    lemma_fold1c_insert_complement(sum16(z));
}

/// Recomputing the checksum from a finished PDU's own bytes — checksum
/// field zeroed again — returns exactly the stored checksum: re-encoding
/// a parsed packet with the same fields reproduces it byte for byte.
pub proof fn lemma_checksum_idempotent(
    vrid: u8,
    prio: u8,
    authtype: u8,
    adverint: u8,
    addrs: Seq<[u8; 4]>,
    secret: Seq<u8>,
)
    requires
        1 <= addrs.len() <= 255,
    ensures
        ({
            let pdu = built_pdu_spec(vrid, prio, authtype, adverint, addrs, secret);
            0xFFFF - fold1c(sum16(pdu.update(6, 0u8).update(7, 0u8)))
                == built_cksum_spec(vrid, prio, authtype, adverint, addrs, secret)
        }),
{
    let pdu = built_pdu_spec(vrid, prio, authtype, adverint, addrs, secret);
    let trailer = built_trailer_spec(vrid, prio, authtype, adverint, addrs, secret);
    let z = auth_input_spec(vrid, prio, authtype, adverint, addrs) + trailer;
    lemma_flat_addrs_len(addrs);
    assert(pdu.update(6, 0u8).update(7, 0u8) =~= z);
}

/// A receiver that zeroes the checksum field and strips the trailer
/// recovers exactly the bytes the sender authenticated, so recomputing
/// the trailer with the same secret reproduces the one received.
pub proof fn lemma_auth_verify_roundtrip(
    vrid: u8,
    prio: u8,
    authtype: u8,
    adverint: u8,
    addrs: Seq<[u8; 4]>,
    secret: Seq<u8>,
)
    requires
        1 <= addrs.len() <= 255,
    ensures
        ({
            let pdu = built_pdu_spec(vrid, prio, authtype, adverint, addrs, secret);
            auth_data_of(
                authtype,
                secret,
                pdu.update(6, 0u8).update(7, 0u8).take(pdu.len() - 8),
            ) == pdu.subrange(pdu.len() - 8, pdu.len() as int)
        }),
{
    let pdu = built_pdu_spec(vrid, prio, authtype, adverint, addrs, secret);
    let trailer = built_trailer_spec(vrid, prio, authtype, adverint, addrs, secret);
    lemma_flat_addrs_len(addrs);
    assert(pdu.update(6, 0u8).update(7, 0u8).take(pdu.len() - 8)
        =~= auth_input_spec(vrid, prio, authtype, adverint, addrs));
    assert(pdu.subrange(pdu.len() - 8, pdu.len() as int) =~= trailer);
}

/// Parsing a built frame accepts it and recovers every field that went
/// into the build — the checksum being the one the build computed.
pub proof fn lemma_parse_build_roundtrip(
    vrid: u8,
    prio: u8,
    authtype: u8,
    adverint: u8,
    addrs: Seq<[u8; 4]>,
    secret: Seq<u8>,
    src: [u8; 4],
    dst: [u8; 4],
)
    requires
        1 <= addrs.len() <= 255,
    ensures
        ({
            let pdu = built_pdu_spec(vrid, prio, authtype, adverint, addrs, secret);
            let f = frame_seq(src@, dst@, pdu);
            let n = addrs.len() as int;
            &&& parse_ok(f)
            &&& f[8] == IP_TTL_VRRP_MINTTL
            &&& f[9] == IP_UPPER_PROTO_VRRP
            &&& f.subrange(12, 16) == src@
            &&& f.subrange(16, 20) == dst@
            &&& f[20] == VRRP_V2_VER_TYPE_AUTHMSG
            &&& f[21] == vrid
            &&& f[22] == prio
            &&& f[23] == addrs.len() as u8
            &&& f[24] == authtype
            &&& f[25] == adverint
            &&& be16(f[26], f[27]) == built_cksum_spec(vrid, prio, authtype, adverint, addrs, secret)
            &&& f.subrange(28, 28 + 4 * n) == flat_addrs(addrs)
            &&& f.subrange(28 + 4 * n, 36 + 4 * n)
                == built_trailer_spec(vrid, prio, authtype, adverint, addrs, secret)
            &&& pdu_bytes(f, n) == pdu
        }),
{
    let pdu = built_pdu_spec(vrid, prio, authtype, adverint, addrs, secret);
    let trailer = built_trailer_spec(vrid, prio, authtype, adverint, addrs, secret);
    let c = built_cksum_spec(vrid, prio, authtype, adverint, addrs, secret);
    let f = frame_seq(src@, dst@, pdu);
    let n = addrs.len() as int;
    lemma_flat_addrs_len(addrs);
    assert(trailer.len() == 8);
    assert(pdu.len() == 16 + 4 * n);
    assert(f.len() == 36 + 4 * n);
    let z = auth_input_spec(vrid, prio, authtype, adverint, addrs)
        + built_trailer_spec(vrid, prio, authtype, adverint, addrs, secret);
    lemma_sum16_nonneg(z);
    lemma_fold1c_bounds(sum16(z));
    lemma_fundamental_div_mod(c, 256);
    assert(forall|j: int| 0 <= j < pdu.len() ==> f[20 + j] == pdu[j]);
    assert(f.subrange(12, 16) =~= src@);
    assert(f.subrange(16, 20) =~= dst@);
    assert(f.subrange(28, 28 + 4 * n) =~= flat_addrs(addrs));
    assert(f.subrange(28 + 4 * n, 36 + 4 * n) =~= trailer);
    assert(pdu_bytes(f, n) =~= pdu);
    assert(be16(f[26], f[27]) == c);
}

} // verus!
