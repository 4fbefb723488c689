//! The receive pipeline: validation, demultiplexing, sniffing.

use rvrrpd::fsm::Event;
use rvrrpd::packets::{build_frame, build_pdu};
use rvrrpd::{filter_vrrp_pkt, handle_vrrp_advert, verify_vrrp_pkt, PktHdr, VirtualRouter};

const VIP: [u8; 4] = [10, 0, 0, 1];

fn make_vr(ifindex: i32, vrid: u8, auth_type: u8, secret: Option<&[u8]>) -> VirtualRouter {
    VirtualRouter::new(
        vrid,
        "eth0".to_string(),
        100,
        VIP,
        1,
        false,
        true,
        auth_type,
        secret.map(|s| s.to_vec()),
        ifindex,
        vec![[10, 0, 0, 2]],
        vec![[255, 255, 255, 0]],
    )
    .expect("well-formed settings")
}

fn advert_frame(vrid: u8, prio: u8, auth_type: u8, secret: Option<&[u8]>) -> Vec<u8> {
    let pdu = build_pdu(vrid, prio, auth_type, 1, &vec![VIP], &secret.map(|s| s.to_vec()));
    build_frame(&[10, 0, 0, 3], &[224, 0, 0, 18], &pdu)
}

fn hdr(ifidx: i32) -> PktHdr {
    let mut h = PktHdr::new();
    h.in_ifidx = ifidx;
    h
}

#[test]
fn valid_advert_is_accepted() {
    let vrs = vec![make_vr(3, 5, 0, None)];
    let frame = advert_frame(5, 150, 0, None);
    let r = verify_vrrp_pkt(0, hdr(3), &frame, &vrs);
    assert_eq!(r, Some((3, 5, [10, 0, 0, 3], 150)));
}

#[test]
fn unknown_vr_is_dropped() {
    let vrs = vec![make_vr(3, 5, 0, None)];
    let frame = advert_frame(6, 150, 0, None);
    assert_eq!(verify_vrrp_pkt(0, hdr(3), &frame, &vrs), None);
    // same router id on another interface does not match either
    assert_eq!(verify_vrrp_pkt(0, hdr(4), &advert_frame(5, 150, 0, None), &vrs), None);
}

#[test]
fn auth_mismatch_is_dropped() {
    // configured with P0 and secret k1, advert signed with k2
    let vrs = vec![make_vr(3, 5, 250, Some(b"k1"))];
    let wrong = advert_frame(5, 150, 250, Some(b"k2"));
    assert_eq!(verify_vrrp_pkt(0, hdr(3), &wrong, &vrs), None);
    let right = advert_frame(5, 150, 250, Some(b"k1"));
    assert_eq!(verify_vrrp_pkt(0, hdr(3), &right, &vrs), Some((3, 5, [10, 0, 0, 3], 150)));
}

#[test]
fn shake_auth_mismatch_is_dropped() {
    let vrs = vec![make_vr(3, 5, 251, Some(b"k1"))];
    let wrong = advert_frame(5, 150, 251, Some(b"k2"));
    assert_eq!(verify_vrrp_pkt(0, hdr(3), &wrong, &vrs), None);
    let right = advert_frame(5, 150, 251, Some(b"k1"));
    assert!(verify_vrrp_pkt(0, hdr(3), &right, &vrs).is_some());
}

#[test]
fn simple_auth_mismatch_is_dropped() {
    let vrs = vec![make_vr(3, 5, 1, Some(b"k1"))];
    let wrong = advert_frame(5, 150, 1, Some(b"k2"));
    assert_eq!(verify_vrrp_pkt(0, hdr(3), &wrong, &vrs), None);
    let right = advert_frame(5, 150, 1, Some(b"k1"));
    assert!(verify_vrrp_pkt(0, hdr(3), &right, &vrs).is_some());
}

#[test]
fn auth_type_mismatch_is_dropped() {
    let vrs = vec![make_vr(3, 5, 250, Some(b"k1"))];
    // otherwise valid, but carries auth type 0 instead of P0
    let frame = advert_frame(5, 150, 0, None);
    assert_eq!(verify_vrrp_pkt(0, hdr(3), &frame, &vrs), None);
}

#[test]
fn checksum_corruption_is_dropped() {
    let vrs = vec![make_vr(3, 5, 0, None)];
    let mut frame = advert_frame(5, 150, 0, None);
    frame[29] ^= 0x40;
    assert_eq!(verify_vrrp_pkt(0, hdr(3), &frame, &vrs), None);
}

#[test]
fn ttl_254_is_dropped_by_pipeline() {
    let vrs = vec![make_vr(3, 5, 0, None)];
    let mut frame = advert_frame(5, 150, 0, None);
    frame[8] = 254;
    assert_eq!(verify_vrrp_pkt(0, hdr(3), &frame, &vrs), None);
}

#[test]
fn owned_destination_is_dropped() {
    let vrs = vec![make_vr(3, 5, 0, None)];
    let pdu = build_pdu(5, 150, 0, 1, &vec![VIP], &None);
    // destination is one of the router's own addresses: loop reflection
    let frame = build_frame(&[10, 0, 0, 3], &[10, 0, 0, 2], &pdu);
    assert_eq!(verify_vrrp_pkt(0, hdr(3), &frame, &vrs), None);
}

#[test]
fn advert_interval_mismatch_is_dropped() {
    let vrs = vec![make_vr(3, 5, 0, None)];
    let pdu = build_pdu(5, 150, 0, 3, &vec![VIP], &None);
    let frame = build_frame(&[10, 0, 0, 3], &[224, 0, 0, 18], &pdu);
    assert_eq!(verify_vrrp_pkt(0, hdr(3), &frame, &vrs), None);
}

#[test]
fn advert_routed_to_matching_worker() {
    let vrs = vec![make_vr(9, 2, 0, None), make_vr(3, 5, 0, None)];
    let r = handle_vrrp_advert(&vrs, 3, 5, [10, 0, 0, 3], 150);
    assert_eq!(r, Some((1, Event::Advert([10, 0, 0, 3], 150))));
    assert_eq!(handle_vrrp_advert(&vrs, 3, 9, [10, 0, 0, 3], 150), None);
}

#[test]
fn sniffer_reports_fields_and_validity() {
    let frame = advert_frame(5, 150, 0, None);
    let (p, ttl_ok, cksum_ok) = filter_vrrp_pkt(0, PktHdr::new(), &frame).expect("vrrp frame");
    assert!(ttl_ok);
    assert!(cksum_ok);
    assert_eq!(p.vrid, 5);
    assert_eq!(p.prio, 150);
    assert_eq!(p.ipaddrs, vec![10, 0, 0, 1]);
    // a low TTL is reported, not dropped, in sniffing mode
    let mut low = frame.clone();
    low[8] = 254;
    let (_, ttl_ok2, _) = filter_vrrp_pkt(0, PktHdr::new(), &low).expect("still shown");
    assert!(!ttl_ok2);
    // corruption shows up as an invalid checksum
    let mut bad = frame.clone();
    bad[29] ^= 1;
    let (_, _, cksum_ok3) = filter_vrrp_pkt(0, PktHdr::new(), &bad).expect("still shown");
    assert!(!cksum_ok3);
    // but a foreign protocol is not shown at all
    let mut other = frame.clone();
    other[9] = 6;
    assert!(filter_vrrp_pkt(0, PktHdr::new(), &other).is_none());
}

#[test]
fn multi_address_advert_is_accepted() {
    // the address list may be longer than one entry; extras are carried
    // along and ignored by the receiver
    let vrs = vec![make_vr(3, 5, 0, None)];
    let pdu = build_pdu(5, 150, 0, 1, &vec![VIP, [10, 0, 0, 7]], &None);
    let frame = build_frame(&[10, 0, 0, 3], &[224, 0, 0, 18], &pdu);
    assert_eq!(verify_vrrp_pkt(0, hdr(3), &frame, &vrs), Some((3, 5, [10, 0, 0, 3], 150)));
}

#[test]
fn sniffer_clamps_overlong_address_count() {
    let mut frame = advert_frame(5, 150, 0, None);
    frame[23] = 9;
    let (p, _, _) = filter_vrrp_pkt(0, PktHdr::new(), &frame).expect("clamped");
    assert_eq!(p.addrcount, 9);
    // only one address really fits, so only its bytes are reported
    assert_eq!(p.ipaddrs.len(), 4);
}
