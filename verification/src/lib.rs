//! # rVRRPd library
//!
//! A Virtual Router Redundancy Protocol version 2 (VRRPv2, RFC 3768)
//! speaker core: packet codec with RFC 1071 checksum, authentication
//! engine, per-virtual-router state machine with its timers, and the
//! validation pipeline that routes inbound advertisements to the
//! matching virtual router. All protocol logic lives here; sockets,
//! signals and the configuration file reader live in the surrounding
//! application.

use vstd::prelude::*;

pub mod auth;
pub mod config;
pub mod checksums;
pub mod fsm;
pub mod packets;
pub mod timers;

use crate::auth::{auth_data_of, bytes_eq, gen_auth_data, secret_bytes};
use crate::checksums::{rfc1071, rfc1071_spec};
use crate::config::ConfigError;
use crate::fsm::{
    master_down_interval256_spec, params_wf, skew_time256_spec, transition_spec, vip_after, Action,
    Event, Flags, Parameters, States, TimerKind,
};
use crate::packets::{
    built_pdu_spec, frame_seq, lemma_auth_verify_roundtrip, lemma_built_pdu_checksum_valid,
    lemma_flat_addrs_len, lemma_parse_build_roundtrip, parse, parse_ok, pdu_bytes, pdu_slice,
    VRRPpkt,
};
use crate::timers::Timers;

verus! {

/// Library configuration, handed in by the application around it.
pub struct Config {
    pub iface: Option<String>,
    pub mode: u8,
    pub conf: Option<String>,
    pub debug: Option<u8>,
    pub cfg_format: Option<String>,
}

impl Config {
    /// Bundle the command-line level settings.
    pub fn new(
        iface: Option<String>,
        mode: u8,
        conf: Option<String>,
        debug: Option<u8>,
        cfg_format: Option<String>,
    ) -> (r: Config)
        ensures
            r.iface == iface,
            r.mode == mode,
            r.conf == conf,
            r.debug == debug,
            r.cfg_format == cfg_format,
    {
        Config { iface, mode, conf, debug, cfg_format }
    }

    /// The interface to listen on; empty when unset.
    pub fn iface(&self) -> (r: String)
        ensures
            self.iface matches Some(s) ==> r@ == s@,
            self.iface is None ==> r@ == Seq::<char>::empty(),
    {
        match &self.iface {
            Some(s) => s.clone(),
            None => String::new(),
        }
    }

    /// Operation mode: 0 sniffer, 1 foreground router, 2 daemon.
    pub fn mode(&self) -> (r: &u8)
        ensures
            *r == self.mode,
    {
        &self.mode
    }

    /// Path of the configuration file, with its default.
    pub fn conf(&self) -> (r: String)
        ensures
            self.conf matches Some(s) ==> r@ == s@,
            self.conf is None ==> r@ == "/etc/rvrrpd/rvrrpd.conf"@,
    {
        match &self.conf {
            Some(s) => s.clone(),
            None => "/etc/rvrrpd/rvrrpd.conf".to_owned(),
        }
    }

    /// Debugging level override, if any.
    pub fn debug(&self) -> (r: Option<u8>)
        ensures
            r == self.debug,
    {
        self.debug
    }

    /// The configuration file format; TOML unless JSON is named.
    pub fn cfg_format(&self) -> (r: config::CfgType)
        ensures
            self.cfg_format is None ==> r == config::CfgType::Toml,
            self.cfg_format matches Some(s) ==> r == (if s@ == "json"@ {
                config::CfgType::Json
            } else {
                config::CfgType::Toml
            }),
    {
        match &self.cfg_format {
            Some(s) => {
                let json: String = "json".to_owned();
                if s.eq(&json) {
                    config::CfgType::Json
                } else {
                    config::CfgType::Toml
                }
            },
            None => config::CfgType::Toml,
        }
    }
}

/// Whether two IPv4 addresses are the same.
pub fn addr_eq(a: &[u8; 4], b: &[u8; 4]) -> (r: bool)
    ensures
        r <==> a@ == b@,
{
    let r = a[0] == b[0] && a[1] == b[1] && a[2] == b[2] && a[3] == b[3];
    proof {
        if r {
            assert(a@ =~= b@);
        }
    }
    r
}

pub use crate::fsm::owns_ip;

/// Whether the address list contains `a`.
pub fn contains_addr(addrs: &Vec<[u8; 4]>, a: &[u8; 4]) -> (r: bool)
    ensures
        r == owns_ip(addrs@, a@),
{
    let mut i: usize = 0;
    while i < addrs.len()
        invariant
            i <= addrs@.len(),
            forall|k: int| 0 <= k < i ==> addrs@[k]@ != a@,
        decreases addrs@.len() - i,
    {
        if addr_eq(&addrs[i], a) {
            return true;
        }
        i = i + 1;
    }
    false
}

/// One virtual-router instance: immutable parameters, and the state,
/// timers and flags its worker drives.
pub struct VirtualRouter {
    pub states: States,
    pub parameters: Parameters,
    pub timers: Timers,
    pub flags: Flags,
}

/// The first failing construction check, in check order.
pub open spec fn vr_new_err(
    vrid: u8,
    prio: u8,
    advertint: u8,
    auth_type: u8,
    vip: [u8; 4],
    addrs: Seq<[u8; 4]>,
    masks: Seq<[u8; 4]>,
) -> ConfigError {
    if addrs.len() == 0 || masks.len() == 0 {
        ConfigError::NoIpOnInterface
    } else if vrid < 1 {
        ConfigError::BadVrid
    } else if prio < 1 {
        ConfigError::BadPriority
    } else if advertint < 1 {
        ConfigError::BadAdvertInt
    } else if !(auth_type == 0 || auth_type == 1 || auth_type == 250 || auth_type == 251) {
        ConfigError::UnsupportedAuthType
    } else if prio == 255 && !owns_ip(addrs, vip@) {
        ConfigError::OwnerWithoutVip
    } else {
        ConfigError::NonOwnerWithVip
    }
}

/// Whether construction succeeds on these inputs.
pub open spec fn vr_new_ok(
    vrid: u8,
    prio: u8,
    advertint: u8,
    auth_type: u8,
    vip: [u8; 4],
    addrs: Seq<[u8; 4]>,
    masks: Seq<[u8; 4]>,
) -> bool {
    &&& addrs.len() >= 1
    &&& masks.len() >= 1
    &&& vrid >= 1
    &&& prio >= 1
    &&& advertint >= 1
    &&& (auth_type == 0 || auth_type == 1 || auth_type == 250 || auth_type == 251)
    &&& (prio == 255 <==> owns_ip(addrs, vip@))
}

impl VirtualRouter {
    /// Check a virtual router's settings and build it in the Init state.
    ///
    /// The interface's address list is handed in by the caller (the
    /// application reads it from the operating system). Construction
    /// succeeds exactly on well-formed settings: in particular a
    /// priority of 255 claims address ownership and demands that the
    /// VIP is one of the interface's own addresses, while any lower
    /// priority demands that it is not.
    pub fn new(
        vrid: u8,
        ifname: String,
        prio: u8,
        vip: [u8; 4],
        advertint: u8,
        preempt: bool,
        rfc3768: bool,
        auth_type: u8,
        auth_secret: Option<Vec<u8>>,
        ifindex: i32,
        v4addrs: Vec<[u8; 4]>,
        v4masks: Vec<[u8; 4]>,
    ) -> (r: Result<VirtualRouter, ConfigError>)
        ensures
            r is Ok <==> vr_new_ok(vrid, prio, advertint, auth_type, vip, v4addrs@, v4masks@),
            r matches Err(e) ==> e == vr_new_err(
                vrid,
                prio,
                advertint,
                auth_type,
                vip,
                v4addrs@,
                v4masks@,
            ),
            r matches Ok(vr) ==> {
                &&& vr.states == States::Init
                &&& vr.parameters.vrid == vrid
                &&& vr.parameters.interface == ifname
                &&& vr.parameters.ifindex == ifindex
                &&& vr.parameters.prio == prio
                &&& vr.parameters.vip == vip
                &&& vr.parameters.ipaddrs == v4addrs
                &&& vr.parameters.netmasks == v4masks
                &&& vr.parameters.adverint == advertint
                &&& vr.parameters.preempt == preempt
                &&& vr.parameters.rfc3768 == rfc3768
                &&& vr.parameters.authtype == auth_type
                &&& vr.parameters.authsecret == auth_secret
                &&& params_wf(vr.parameters)
                &&& vr.flags.vip_installed == (prio == 255)
                &&& vr.timers.advert is None
                &&& vr.timers.master_down is None
            },
    {
        if v4addrs.len() == 0 || v4masks.len() == 0 {
            return Err(ConfigError::NoIpOnInterface);
        }
        if vrid < 1 {
            return Err(ConfigError::BadVrid);
        }
        if prio < 1 {
            return Err(ConfigError::BadPriority);
        }
        if advertint < 1 {
            return Err(ConfigError::BadAdvertInt);
        }
        if !(auth_type == 0 || auth_type == 1 || auth_type == 250 || auth_type == 251) {
            return Err(ConfigError::UnsupportedAuthType);
        }
        let owner = contains_addr(&v4addrs, &vip);
        if prio == 255 && !owner {
            return Err(ConfigError::OwnerWithoutVip);
        }
        if prio < 255 && owner {
            return Err(ConfigError::NonOwnerWithVip);
        }
        Ok(VirtualRouter {
            states: States::Init,
            parameters: Parameters {
                vrid,
                interface: ifname,
                ifindex,
                prio,
                vip,
                ipaddrs: v4addrs,
                netmasks: v4masks,
                adverint: advertint,
                preempt,
                rfc3768,
                authtype: auth_type,
                authsecret: auth_secret,
            },
            timers: Timers::new(),
            flags: Flags { vip_installed: prio == 255 },
        })
    }

    /// Whether this virtual router owns `vip` as a real address of its
    /// interface.
    pub fn is_owner_vip(&self, vip: &[u8; 4]) -> (r: bool)
        ensures
            r == owns_ip(self.parameters.ipaddrs@, vip@),
    {
        contains_addr(&self.parameters.ipaddrs, vip)
    }

    /// Run one step of the RFC 3768 §6.4 state machine.
    ///
    /// Returns the side effects the worker must perform, in order; the
    /// parameters and timers are untouched, and the VIP flag follows
    /// the install and withdraw effects. Whenever the router starts
    /// from a freshly constructed Init state, or already satisfied the
    /// binding invariant, the step preserves it: the state is Master
    /// exactly when the VIP is bound to the interface.
    pub fn handle_event(&mut self, event: Event) -> (actions: Vec<Action>)
        requires
            old(self).parameters.ipaddrs@.len() >= 1,
        ensures
            ({
                let (ns, acts) = transition_spec(
                    old(self).states,
                    old(self).parameters.prio,
                    old(self).parameters.adverint,
                    old(self).parameters.preempt,
                    old(self).parameters.ipaddrs@[0],
                    event,
                );
                &&& final(self).states == ns
                &&& actions@ == acts
                &&& final(self).parameters == old(self).parameters
                &&& final(self).timers == old(self).timers
                &&& final(self).flags.vip_installed == vip_after(
                    old(self).flags.vip_installed,
                    acts,
                )
            }),
            (if old(self).states is Init && event is Startup {
                old(self).flags.vip_installed == owns_ip(
                    old(self).parameters.ipaddrs@,
                    old(self).parameters.vip@,
                ) && params_wf(old(self).parameters)
            } else {
                vip_inv(*old(self))
            }) ==> vip_inv(*final(self)),
    {
        let prio = self.parameters.prio;
        let ai: u32 = self.parameters.adverint as u32;
        let advert_ticks: u32 = 256 * ai;
        let skew_ticks: u32 = 256 - (prio as u32);
        let mdi_ticks: u32 = advert_ticks + advert_ticks + advert_ticks + skew_ticks;
        proof {
            let a8 = self.parameters.adverint;
            assert(0 <= 256 * (a8 as int) <= 65280) by (nonlinear_arith)
                requires
                    a8 <= 255u8,
            ;
            assert(advert_ticks as int == 256 * (a8 as int));
            assert(skew_ticks as int == 256 - (prio as int));
            assert(mdi_ticks as int == 3 * (advert_ticks as int) + (skew_ticks as int));
            assert(3 * (advert_ticks as int) + (skew_ticks as int) == 3 * 256 * (a8 as int) + 256
                - (prio as int)) by (nonlinear_arith)
                requires
                    advert_ticks as int == 256 * (a8 as int),
                    skew_ticks as int == 256 - (prio as int),
            ;
            assert(mdi_ticks as int == 3 * 256 * (a8 as int) + 256 - (prio as int));
            assert(advert_ticks == ((256 * (a8 as int)) as u32));
            assert(skew_ticks == (skew_time256_spec(prio) as u32));
            assert(mdi_ticks == (master_down_interval256_spec(a8, prio) as u32));
        }
        let mut actions: Vec<Action> = Vec::new();
        match (self.states, event) {
            (States::Init, Event::Startup) => {
                if prio == 255 {
                    actions.push(Action::SendAdvert(255));
                    actions.push(Action::SendGratuitousArp);
                    actions.push(Action::ArmAdvert(advert_ticks));
                    self.states = States::Master;
                } else {
                    actions.push(Action::ArmMasterDown(mdi_ticks));
                    self.states = States::Backup;
                }
            },
            (States::Backup, Event::Timer(TimerKind::MasterDown)) => {
                actions.push(Action::SendAdvert(prio));
                actions.push(Action::SendGratuitousArp);
                actions.push(Action::InstallVip);
                actions.push(Action::InstallRoutes);
                actions.push(Action::CancelMasterDown);
                actions.push(Action::ArmAdvert(advert_ticks));
                self.flags.vip_installed = true;
                self.states = States::Master;
            },
            (States::Backup, Event::Advert(_src, adv_prio)) => {
                if adv_prio == 0 {
                    actions.push(Action::ArmMasterDown(skew_ticks));
                } else if !self.parameters.preempt || adv_prio >= prio {
                    actions.push(Action::ArmMasterDown(mdi_ticks));
                }
            },
            (States::Backup, Event::Shutdown) => {
                actions.push(Action::CancelAdvert);
                actions.push(Action::CancelMasterDown);
                self.states = States::Init;
            },
            (States::Master, Event::Timer(TimerKind::Advert)) => {
                actions.push(Action::SendAdvert(prio));
                actions.push(Action::ArmAdvert(advert_ticks));
            },
            (States::Master, Event::Advert(src, adv_prio)) => {
                if adv_prio == 0 {
                    actions.push(Action::SendAdvert(prio));
                    actions.push(Action::ArmAdvert(advert_ticks));
                } else {
                    let primary = self.parameters.ipaddrs[0];
                    if adv_prio > prio
                        || (adv_prio == prio && ip_value(&src) > ip_value(&primary)) {
                        actions.push(Action::CancelAdvert);
                        actions.push(Action::ArmMasterDown(mdi_ticks));
                        actions.push(Action::WithdrawVip);
                        actions.push(Action::WithdrawRoutes);
                        self.flags.vip_installed = false;
                        self.states = States::Backup;
                    }
                }
            },
            (States::Master, Event::Shutdown) => {
                actions.push(Action::SendAdvert(0));
                actions.push(Action::WithdrawVip);
                actions.push(Action::WithdrawRoutes);
                actions.push(Action::CancelAdvert);
                actions.push(Action::CancelMasterDown);
                self.flags.vip_installed = false;
                self.states = States::Init;
            },
            _ => {},
        }
        proof {
            let (ns, acts) = transition_spec(
                old(self).states,
                old(self).parameters.prio,
                old(self).parameters.adverint,
                old(self).parameters.preempt,
                old(self).parameters.ipaddrs@[0],
                event,
            );
            assert(actions@ =~= acts);
        }
        actions
    }
}

/// The binding invariant the state machine maintains: a virtual router
/// is Master exactly while the VIP is bound to its interface.
pub open spec fn vip_inv(vr: VirtualRouter) -> bool {
    vr.states is Master <==> vr.flags.vip_installed
}

/// An IPv4 address as the integer its big-endian bytes denote.
pub fn ip_value(a: &[u8; 4]) -> (r: u32)
    ensures
        r as int == fsm::ip_val(*a),
{
    (a[0] as u32) * 0x1000000 + (a[1] as u32) * 0x10000 + (a[2] as u32) * 256 + (a[3] as u32)
}

/// Metadata of one received frame, independent of the operating system.
pub struct PktHdr {
    /// Index of the interface the frame arrived on.
    pub in_ifidx: i32,
}

impl PktHdr {
    /// Fresh metadata with no interface recorded yet.
    pub fn new() -> (r: PktHdr)
        ensures
            r.in_ifidx == -1,
    {
        PktHdr { in_ifidx: -1 }
    }
}

/// Whether a virtual router serves this interface and router id.
pub open spec fn vr_match(vr: VirtualRouter, ifidx: i32, vrid: u8) -> bool {
    vr.parameters.ifindex == ifidx && vr.parameters.vrid == vrid
}

/// Whether index `i` holds the first virtual router in the table that
/// serves this interface and router id.
pub open spec fn first_match(vrs: Seq<VirtualRouter>, ifidx: i32, vrid: u8, i: int) -> bool {
    &&& 0 <= i < vrs.len()
    &&& vr_match(vrs[i], ifidx, vrid)
    &&& forall|k: int| 0 <= k < i ==> !vr_match(vrs[k], ifidx, vrid)
}

/// The bytes a receiver authenticates: the PDU with the checksum field
/// zeroed and the trailer stripped.
pub open spec fn auth_input_of(b: Seq<u8>, ac: int) -> Seq<u8> {
    pdu_bytes(b, ac).update(6, 0u8).update(7, 0u8).take(8 + 4 * ac)
}

/// Whether the received trailer matches the one recomputed under the
/// router's configured scheme; schemes without authentication pass.
pub open spec fn advert_auth_ok(vr: VirtualRouter, b: Seq<u8>) -> bool {
    let ac = b[23] as int;
    let at = vr.parameters.authtype;
    if at == 1 || at == 250 || at == 251 {
        pdu_bytes(b, ac).subrange(8 + 4 * ac, 16 + 4 * ac) == auth_data_of(
            at,
            secret_bytes(vr.parameters.authsecret),
            auth_input_of(b, ac),
        )
    } else {
        true
    }
}

/// The per-router checks of the receive pipeline, in order: the
/// destination is not one of the router's own addresses, the
/// authentication type matches, the trailer verifies, and the
/// advertisement interval matches.
pub open spec fn advert_checks(vr: VirtualRouter, b: Seq<u8>) -> bool {
    &&& !owns_ip(vr.parameters.ipaddrs@, b.subrange(16, 20))
    &&& b[24] == vr.parameters.authtype
    &&& advert_auth_ok(vr, b)
    &&& b[25] == vr.parameters.adverint
}

/// Whether the whole receive pipeline accepts frame `b` for the router
/// at index `i`: structural checks, wire checksum, table lookup, and
/// the per-router checks.
pub open spec fn advert_accept_at(vrs: Seq<VirtualRouter>, b: Seq<u8>, ifidx: i32, i: int) -> bool {
    &&& parse_ok(b)
    &&& rfc1071_spec(pdu_bytes(b, b[23] as int)) == 0xFFFF
    &&& first_match(vrs, ifidx, b[21], i)
    &&& advert_checks(vrs[i], b)
}

/// The first virtual router serving `(ifidx, vrid)`, if any.
pub fn find_vr(vrouters: &Vec<VirtualRouter>, ifidx: i32, vrid: u8) -> (r: Option<usize>)
    ensures
        r matches Some(i) ==> first_match(vrouters@, ifidx, vrid, i as int),
        r is None ==> forall|k: int|
            0 <= k < vrouters@.len() ==> !vr_match(vrouters@[k], ifidx, vrid),
{
    let mut i: usize = 0;
    while i < vrouters.len()
        invariant
            i <= vrouters@.len(),
            forall|k: int| 0 <= k < i ==> !vr_match(vrouters@[k], ifidx, vrid),
        decreases vrouters@.len() - i,
    {
        if vrouters[i].parameters.ifindex == ifidx && vrouters[i].parameters.vrid == vrid {
            return Some(i);
        }
        i = i + 1;
    }
    None
}

/// Validate a received frame against the router table (RFC 3768 §7.1).
///
/// Runs the codec's structural checks, the RFC 1071 checksum over the
/// whole PDU — so any accepted frame folds to 0xFFFF — then looks up
/// the router by receiving interface and router id and applies its
/// checks: destination sanity, authentication type and trailer, and
/// advertisement interval. Returns the router's interface index and id,
/// the advertisement's source address and its priority; any failure
/// drops the frame.
pub fn verify_vrrp_pkt(
    _sockfd: i32,
    pkt_hdr: PktHdr,
    packet: &[u8],
    vrouters: &Vec<VirtualRouter>,
) -> (r: Option<(i32, u8, [u8; 4], u8)>)
    ensures
        r matches Some(t) ==> exists|i: int|
            {
                &&& #[trigger] advert_accept_at(vrouters@, packet@, pkt_hdr.in_ifidx, i)
                &&& t.0 == vrouters@[i].parameters.ifindex
                &&& t.1 == vrouters@[i].parameters.vrid
                &&& t.2@ == packet@.subrange(12, 16)
                &&& t.3 == packet@[22]
            },
        r is Some ==> rfc1071_spec(pdu_bytes(packet@, packet@[23] as int)) == 0xFFFF,
        r is None ==> forall|i: int|
            !(#[trigger] advert_accept_at(vrouters@, packet@, pkt_hdr.in_ifidx, i)),
{
    let p = match parse(packet) {
        Ok(p) => p,
        Err(_) => {
            return None;
        },
    };
    let pdu = pdu_slice(packet, p.addrcount);
    if rfc1071(pdu) != 0xFFFF {
        return None;
    }
    let idx = match find_vr(vrouters, pkt_hdr.in_ifidx, p.vrid) {
        Some(i) => i,
        None => {
            return None;
        },
    };
    let ghost gi = idx as int;
    let vr = &vrouters[idx];
    if contains_addr(&vr.parameters.ipaddrs, &p.ipdst) {
        proof {
            lemma_only_first_match(vrouters@, packet@, pkt_hdr.in_ifidx, gi);
        }
        return None;
    }
    if p.authtype != vr.parameters.authtype {
        proof {
            lemma_only_first_match(vrouters@, packet@, pkt_hdr.in_ifidx, gi);
        }
        return None;
    }
    let at = vr.parameters.authtype;
    if at == 1 || at == 250 || at == 251 {
        let alen = pdu.len() - 8;
        let mut zin: Vec<u8> = Vec::new();
        let mut j: usize = 0;
        while j < alen
            invariant
                alen + 8 == pdu@.len(),
                pdu@.len() >= 16,
                j <= alen,
                zin@.len() == j,
                forall|k: int| 0 <= k < j ==> zin@[k] == (if k == 6 || k == 7 {
                    0u8
                } else {
                    pdu@[k]
                }),
            decreases alen - j,
        {
            if j == 6 || j == 7 {
                zin.push(0);
            } else {
                zin.push(pdu[j]);
            }
            j = j + 1;
        }
        proof {
            assert(zin@ =~= auth_input_of(packet@, packet@[23] as int));
        }
        let d = gen_auth_data(at, &vr.parameters.authsecret, Some(zin.as_slice()));
        let trailer_match = bytes_eq(d.as_slice(), p.authdata.as_slice());
        proof {
            let b = packet@;
            let ac = b[23] as int;
            assert(p.authdata@ =~= pdu_bytes(b, ac).subrange(8 + 4 * ac, 16 + 4 * ac));
        }
        if !trailer_match {
            proof {
                lemma_only_first_match(vrouters@, packet@, pkt_hdr.in_ifidx, gi);
            }
            return None;
        }
    }
    if p.adverint != vr.parameters.adverint {
        proof {
            lemma_only_first_match(vrouters@, packet@, pkt_hdr.in_ifidx, gi);
        }
        return None;
    }
    proof {
        assert(advert_accept_at(vrouters@, packet@, pkt_hdr.in_ifidx, gi));
    }
    Some((vr.parameters.ifindex, vr.parameters.vrid, p.ipsrc, p.prio))
}

/// Success is owed: a frame built from a virtual router's own
/// parameters and shared secret — any priority, any address list that
/// fits, any source, any destination the router does not own — passes
/// the whole receive pipeline for that router: structure, checksum,
/// lookup, authentication and interval all check out.
pub proof fn lemma_pipeline_accepts_built(
    vrs: Seq<VirtualRouter>,
    i: int,
    src: [u8; 4],
    dst: [u8; 4],
    prio: u8,
    addrs: Seq<[u8; 4]>,
)
    requires
        0 <= i < vrs.len(),
        first_match(vrs, vrs[i].parameters.ifindex, vrs[i].parameters.vrid, i),
        1 <= addrs.len() <= 255,
        !owns_ip(vrs[i].parameters.ipaddrs@, dst@),
    ensures
        ({
            let p = vrs[i].parameters;
            let pdu = built_pdu_spec(
                p.vrid,
                prio,
                p.authtype,
                p.adverint,
                addrs,
                secret_bytes(p.authsecret),
            );
            let f = frame_seq(src@, dst@, pdu);
            advert_accept_at(vrs, f, p.ifindex, i)
        }),
{
    let p = vrs[i].parameters;
    let secret = secret_bytes(p.authsecret);
    let pdu = built_pdu_spec(p.vrid, prio, p.authtype, p.adverint, addrs, secret);
    let f = frame_seq(src@, dst@, pdu);
    let n = addrs.len() as int;
    lemma_parse_build_roundtrip(p.vrid, prio, p.authtype, p.adverint, addrs, secret, src, dst);
    lemma_built_pdu_checksum_valid(p.vrid, prio, p.authtype, p.adverint, addrs, secret);
    lemma_auth_verify_roundtrip(p.vrid, prio, p.authtype, p.adverint, addrs, secret);
    lemma_flat_addrs_len(addrs);
    assert(pdu.len() == 16 + 4 * n);
    assert(f[23] as int == n);
    assert(pdu_bytes(f, n) == pdu);
    let at = p.authtype;
    if at == 1 || at == 250 || at == 251 {
        assert(auth_input_of(f, n) == pdu.update(6, 0u8).update(7, 0u8).take(pdu.len() - 8));
        assert(pdu_bytes(f, n).subrange(8 + 4 * n, 16 + 4 * n) =~= pdu.subrange(
            pdu.len() - 8,
            pdu.len() as int,
        ));
    }
    assert(advert_checks(vrs[i], f));
}

/// Only the first matching table index can be accepted: any other index
/// either is not a match or is preceded by one.
proof fn lemma_only_first_match(vrs: Seq<VirtualRouter>, b: Seq<u8>, ifidx: i32, i: int)
    requires
        first_match(vrs, ifidx, b[21], i),
    ensures
        forall|j: int| j != i ==> !first_match(vrs, ifidx, b[21], j),
{
    assert forall|j: int| j != i implies !first_match(vrs, ifidx, b[21], j) by {
        if 0 <= j < vrs.len() && first_match(vrs, ifidx, b[21], j) {
            if j < i {
                assert(!vr_match(vrs[j], ifidx, b[21]));
            } else {
                assert(vr_match(vrs[i], ifidx, b[21]));
            }
        }
    }
}

/// Route a validated advertisement to its virtual router: the worker at
/// the returned index must be handed the returned event.
pub fn handle_vrrp_advert(
    vrouters: &Vec<VirtualRouter>,
    ifindex: i32,
    vrid: u8,
    ipsrc: [u8; 4],
    advert_prio: u8,
) -> (r: Option<(usize, Event)>)
    ensures
        r matches Some((i, e)) ==> first_match(vrouters@, ifindex, vrid, i as int) && e
            == Event::Advert(ipsrc, advert_prio),
        r is None ==> forall|k: int|
            0 <= k < vrouters@.len() ==> !vr_match(vrouters@[k], ifindex, vrid),
{
    match find_vr(vrouters, ifindex, vrid) {
        Some(i) => Some((i, Event::Advert(ipsrc, advert_prio))),
        None => None,
    }
}

/// The looser structural checks of sniffing mode: enough room for the
/// fixed header and trailer, VRRP protocol, v2 advertisement.
pub open spec fn sniffer_ok(b: Seq<u8>) -> bool {
    &&& b.len() >= 36
    &&& b[9] == packets::IP_UPPER_PROTO_VRRP
    &&& b[20] == packets::VRRP_V2_VER_TYPE_AUTHMSG
}

/// The claimed address count, clamped to what the frame really holds.
pub open spec fn s_addrcount(b: Seq<u8>) -> int {
    let avail = (b.len() - 36) / 4;
    if b[23] <= avail {
        b[23] as int
    } else {
        avail
    }
}

/// Inspect a frame for sniffing mode.
///
/// Accepts any VRRPv2 advertisement long enough to carry the fixed
/// header and trailer, clamps the address count to what the frame
/// holds, and reports whether the TTL and the wire checksum are valid
/// rather than dropping on them.
pub fn filter_vrrp_pkt(_sockfd: i32, _pkt_hdr: PktHdr, packet: &[u8]) -> (r: Option<
    (VRRPpkt, bool, bool),
>)
    ensures
        r is Some <==> sniffer_ok(packet@),
        r matches Some((p, ttl_ok, cksum_ok)) ==> {
            let b = packet@;
            let sc = s_addrcount(b);
            &&& p.ipttl == b[8]
            &&& p.ipproto == b[9]
            &&& p.ipsrc@ == b.subrange(12, 16)
            &&& p.ipdst@ == b.subrange(16, 20)
            &&& p.version == b[20]
            &&& p.vrid == b[21]
            &&& p.prio == b[22]
            &&& p.addrcount == b[23]
            &&& p.authtype == b[24]
            &&& p.adverint == b[25]
            &&& p.checksum as int == packets::be16(b[26], b[27])
            &&& p.ipaddrs@ == b.subrange(28, 28 + 4 * sc)
            &&& p.authdata@ == b.subrange(28 + 4 * sc, 36 + 4 * sc)
            &&& ttl_ok == (b[8] == packets::IP_TTL_VRRP_MINTTL)
            &&& cksum_ok == (rfc1071_spec(b.subrange(20, 36 + 4 * sc)) == 0xFFFF)
        },
{
    if packet.len() < 36 {
        return None;
    }
    if packet[9] != packets::IP_UPPER_PROTO_VRRP {
        return None;
    }
    let ttl_ok = packet[8] == packets::IP_TTL_VRRP_MINTTL;
    if packet[20] != packets::VRRP_V2_VER_TYPE_AUTHMSG {
        return None;
    }
    let avail: usize = (packet.len() - 36) / 4;
    let claimed: usize = packet[23] as usize;
    let sc: usize = if claimed <= avail {
        claimed
    } else {
        avail
    };
    let ipsrc: [u8; 4] = [packet[12], packet[13], packet[14], packet[15]];
    let ipdst: [u8; 4] = [packet[16], packet[17], packet[18], packet[19]];
    proof {
        assert(ipsrc@ =~= packet@.subrange(12, 16));
        assert(ipdst@ =~= packet@.subrange(16, 20));
        assert(sc as int == s_addrcount(packet@));
        assert(4 * (sc as int) <= packet@.len() - 36);
    }
    let mut ipaddrs: Vec<u8> = Vec::new();
    let mut i: usize = 0;
    while i < 4 * sc
        invariant
            sc <= 255,
            36 + 4 * sc <= packet@.len(),
            i <= 4 * sc,
            ipaddrs@.len() == i,
            forall|j: int| 0 <= j < i ==> ipaddrs@[j] == packet@[28 + j],
        decreases 4 * sc - i,
    {
        ipaddrs.push(packet[28 + i]);
        i = i + 1;
    }
    let mut authdata: Vec<u8> = Vec::new();
    let mut k: usize = 0;
    while k < 8
        invariant
            sc <= 255,
            36 + 4 * sc <= packet@.len(),
            k <= 8,
            authdata@.len() == k,
            forall|j: int| 0 <= j < k ==> authdata@[j] == packet@[28 + 4 * sc + j],
        decreases 8 - k,
    {
        authdata.push(packet[28 + 4 * sc + k]);
        k = k + 1;
    }
    let pdu = vstd::slice::slice_subrange(packet, 20, 36 + 4 * sc);
    let cksum_ok = rfc1071(pdu) == 0xFFFF;
    proof {
        assert(ipaddrs@ =~= packet@.subrange(28, 28 + 4 * (sc as int)));
        assert(authdata@ =~= packet@.subrange(28 + 4 * (sc as int), 36 + 4 * (sc as int)));
    }
    Some((
        VRRPpkt {
            ipttl: packet[8],
            ipproto: packet[9],
            ipsrc,
            ipdst,
            version: packet[20],
            vrid: packet[21],
            prio: packet[22],
            addrcount: packet[23],
            authtype: packet[24],
            adverint: packet[25],
            checksum: (packet[26] as u16) * 256 + (packet[27] as u16),
            ipaddrs,
            authdata,
        },
        ttl_ok,
        cksum_ok,
    ))
}

} // verus!
