//! Per-virtual-router finite state machine (RFC 3768 §6).
//!
//! The machine is a pure function from current state, immutable
//! parameters and one event to the next state and an ordered list of
//! side effects; the surrounding worker performs the side effects and
//! owns the timers. Times are integer ticks of 1/256 s, the unit in
//! which RFC 3768 defines the skew time, so every interval is exact.

use vstd::prelude::*;

verus! {

/// The three states of RFC 3768 §6.4.
#[derive(Debug, Clone, Copy, PartialEq, Eq, Structural)]
pub enum States {
    Init,
    Backup,
    Master,
}

/// The two countdown timers a virtual router owns.
#[derive(Debug, Clone, Copy, PartialEq, Eq, Structural)]
pub enum TimerKind {
    Advert,
    MasterDown,
}

/// One event delivered to a virtual-router worker over its channel.
#[derive(Debug, Clone, Copy, PartialEq, Eq)]
pub enum Event {
    Startup,
    Shutdown,
    /// A validated advertisement: source address and advertised priority.
    Advert([u8; 4], u8),
    Timer(TimerKind),
}

/// One side effect the worker must perform, in list order. Durations are
/// ticks of 1/256 s, counted from now.
#[derive(Debug, Clone, Copy, PartialEq, Eq)]
pub enum Action {
    /// Send an advertisement carrying this priority.
    SendAdvert(u8),
    /// Broadcast a gratuitous ARP for the VIP.
    SendGratuitousArp,
    /// Bind the VIP to the interface.
    InstallVip,
    /// Remove the VIP from the interface.
    WithdrawVip,
    /// Install the configured static routes.
    InstallRoutes,
    /// Remove the configured static routes.
    WithdrawRoutes,
    /// Arm the Advertisement timer with this duration.
    ArmAdvert(u32),
    /// Arm the Master_Down timer with this duration.
    ArmMasterDown(u32),
    CancelAdvert,
    CancelMasterDown,
}

/// Parameters of one virtual router, immutable after construction.
pub struct Parameters {
    pub vrid: u8,
    pub interface: String,
    pub ifindex: i32,
    pub prio: u8,
    pub vip: [u8; 4],
    pub ipaddrs: Vec<[u8; 4]>,
    pub netmasks: Vec<[u8; 4]>,
    pub adverint: u8,
    pub preempt: bool,
    pub rfc3768: bool,
    pub authtype: u8,
    pub authsecret: Option<Vec<u8>>,
}

/// Mutable per-router flags, owned by the worker.
#[derive(Debug, Clone, Copy, PartialEq, Eq, Structural)]
pub struct Flags {
    /// Whether the VIP is currently bound to the interface: true from
    /// the start for the address owner, and from then on driven by the
    /// install and withdraw side effects.
    pub vip_installed: bool,
}

/// The skew time of RFC 3768 §6.1 in ticks: (256 − priority)/256 s.
pub open spec fn skew_time256_spec(prio: u8) -> int {
    256 - prio
}

impl Parameters {
    /// The skew time in ticks of 1/256 s: exactly (256 − priority)/256
    /// seconds, a pure function of the priority, never mutated.
    pub fn skew_time256(&self) -> (r: u32)
        ensures
            r == skew_time256_spec(self.prio),
    {
        256 - (self.prio as u32)
    }

    /// The master down interval in ticks of 1/256 s: exactly
    /// 3·advert_int + (256 − priority)/256 seconds, a pure function of
    /// the priority and the advertisement interval, never mutated.
    pub fn master_down_interval256(&self) -> (r: u32)
        ensures
            r == (master_down_interval256_spec(self.adverint, self.prio) as u32),
            r as int == master_down_interval256_spec(self.adverint, self.prio),
    {
        let a: u32 = 256 * (self.adverint as u32);
        let s: u32 = 256 - (self.prio as u32);
        let r: u32 = a + a + a + s;
        proof {
            let a8 = self.adverint;
            assert(0 <= 256 * (a8 as int) <= 65280) by (nonlinear_arith)
                requires
                    a8 <= 255u8,
            ;
            assert(3 * (a as int) + (s as int) == 3 * 256 * (a8 as int) + 256 - (self.prio as int))
                by (nonlinear_arith)
                requires
                    a as int == 256 * (a8 as int),
                    s as int == 256 - (self.prio as int),
            ;
        }
        r
    }
}

/// The master down interval in ticks: 3·advert_int + skew time.
pub open spec fn master_down_interval256_spec(adverint: u8, prio: u8) -> int {
    3 * 256 * (adverint as int) + 256 - prio
}

/// An IPv4 address as the integer its big-endian bytes denote.
pub open spec fn ip_val(a: [u8; 4]) -> int {
    (a@[0] as int) * 0x1000000 + (a@[1] as int) * 0x10000 + (a@[2] as int) * 256 + (a@[3] as int)
}

/// Whether a Master yields to an advertisement: strictly higher priority
/// wins, and on equal priority the numerically larger source address
/// wins over the local primary address (RFC 3768 §6.4.3) — the sole
/// tie-breaker.
pub open spec fn master_steps_down(local_prio: u8, local_primary: [u8; 4], adv_prio: u8, src: [u8; 4]) -> bool {
    ||| adv_prio > local_prio
    ||| (adv_prio == local_prio && ip_val(src) > ip_val(local_primary))
}

/// Whether `ip` is among the addresses `addrs`.
pub open spec fn owns_ip(addrs: Seq<[u8; 4]>, ip: Seq<u8>) -> bool {
    exists|i: int| 0 <= i < addrs.len() && addrs[i]@ == ip
}

/// Well-formedness of parameters, established at construction.
pub open spec fn params_wf(p: Parameters) -> bool {
    &&& p.vrid >= 1
    &&& p.prio >= 1
    &&& p.adverint >= 1
    &&& p.ipaddrs@.len() >= 1
    &&& (p.prio == 255 <==> owns_ip(p.ipaddrs@, p.vip@))
    &&& (p.authtype == 0 || p.authtype == 1 || p.authtype == 250 || p.authtype == 251)
}

/// The whole transition table of RFC 3768 §6.4: next state and the side
/// effects, in the order the worker must perform them.
pub open spec fn transition_spec(
    s: States,
    prio: u8,
    adverint: u8,
    preempt: bool,
    primary: [u8; 4],
    e: Event,
) -> (States, Seq<Action>) {
    let advert_ticks = (256 * (adverint as int)) as u32;
    let mdi_ticks = master_down_interval256_spec(adverint, prio) as u32;
    let skew_ticks = skew_time256_spec(prio) as u32;
    match (s, e) {
        (States::Init, Event::Startup) => if prio == 255 {
            (
                States::Master,
                seq![
                    Action::SendAdvert(255u8),
                    Action::SendGratuitousArp,
                    Action::ArmAdvert(advert_ticks),
                ],
            )
        } else {
            (States::Backup, seq![Action::ArmMasterDown(mdi_ticks)])
        },
        (States::Backup, Event::Timer(TimerKind::MasterDown)) => (
            States::Master,
            seq![
                Action::SendAdvert(prio),
                Action::SendGratuitousArp,
                Action::InstallVip,
                Action::InstallRoutes,
                Action::CancelMasterDown,
                Action::ArmAdvert(advert_ticks),
            ],
        ),
        (States::Backup, Event::Advert(_src, adv_prio)) => if adv_prio == 0 {
            (States::Backup, seq![Action::ArmMasterDown(skew_ticks)])
        } else if !preempt || adv_prio >= prio {
            (States::Backup, seq![Action::ArmMasterDown(mdi_ticks)])
        } else {
            (States::Backup, Seq::empty())
        },
        (States::Backup, Event::Shutdown) => (
            States::Init,
            seq![Action::CancelAdvert, Action::CancelMasterDown],
        ),
        (States::Master, Event::Timer(TimerKind::Advert)) => (
            States::Master,
            seq![Action::SendAdvert(prio), Action::ArmAdvert(advert_ticks)],
        ),
        (States::Master, Event::Advert(src, adv_prio)) => if adv_prio == 0 {
            (
                States::Master,
                seq![Action::SendAdvert(prio), Action::ArmAdvert(advert_ticks)],
            )
        } else if master_steps_down(prio, primary, adv_prio, src) {
            (
                States::Backup,
                seq![
                    Action::CancelAdvert,
                    Action::ArmMasterDown(mdi_ticks),
                    Action::WithdrawVip,
                    Action::WithdrawRoutes,
                ],
            )
        } else {
            (States::Master, Seq::empty())
        },
        (States::Master, Event::Shutdown) => (
            States::Init,
            seq![
                Action::SendAdvert(0u8),
                Action::WithdrawVip,
                Action::WithdrawRoutes,
                Action::CancelAdvert,
                Action::CancelMasterDown,
            ],
        ),
        _ => (s, Seq::empty()),
    }
}

/// How the side effects of one transition leave the VIP binding.
pub open spec fn vip_after(before: bool, acts: Seq<Action>) -> bool {
    if acts.contains(Action::InstallVip) {
        true
    } else if acts.contains(Action::WithdrawVip) {
        false
    } else {
        before
    }
}

/// The tie-break is total: of two speakers with equal priority and
/// distinct primary addresses, exactly one yields to the other's
/// advertisement — the one with the numerically smaller address.
pub proof fn lemma_tiebreak_total(prio: u8, a: [u8; 4], b: [u8; 4])
    requires
        ip_val(a) != ip_val(b),
    ensures
        master_steps_down(prio, a, prio, b) != master_steps_down(prio, b, prio, a),
        master_steps_down(prio, a, prio, b) <==> ip_val(b) > ip_val(a),
{
}

/// A Backup that hears the Master resign — an advertisement with
/// priority zero — re-arms Master_Down with the short skew time alone,
/// not the full master down interval.
pub proof fn lemma_resignation_short_circuit(
    prio: u8,
    adverint: u8,
    preempt: bool,
    primary: [u8; 4],
    src: [u8; 4],
)
    ensures
        transition_spec(States::Backup, prio, adverint, preempt, primary, Event::Advert(src, 0))
            == (States::Backup, seq![Action::ArmMasterDown(skew_time256_spec(prio) as u32)]),
{
}

} // verus!
