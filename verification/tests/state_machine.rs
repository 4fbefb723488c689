//! State machine scenarios and timer discipline.

use rvrrpd::config::ConfigError;
use rvrrpd::fsm::{Action, Event, States, TimerKind};
use rvrrpd::timers::Timers;
use rvrrpd::VirtualRouter;

const VIP: [u8; 4] = [10, 0, 0, 1];

fn make_vr(vrid: u8, prio: u8, preempt: bool, own_addr: [u8; 4], owner: bool) -> VirtualRouter {
    let mut addrs = vec![own_addr];
    if owner {
        addrs.push(VIP);
    }
    VirtualRouter::new(
        vrid,
        "eth0".to_string(),
        prio,
        VIP,
        1,
        preempt,
        true,
        0,
        None,
        7,
        addrs,
        vec![[255, 255, 255, 0]],
    )
    .expect("well-formed settings")
}

#[test]
fn construction_owner_requires_vip_ownership() {
    // priority 255 succeeds exactly when the VIP is a real address
    let ok = VirtualRouter::new(
        1,
        "eth0".to_string(),
        255,
        VIP,
        1,
        false,
        true,
        0,
        None,
        7,
        vec![[10, 0, 0, 2], VIP],
        vec![[255, 255, 255, 0]],
    );
    assert!(ok.is_ok());
    let err = VirtualRouter::new(
        1,
        "eth0".to_string(),
        255,
        VIP,
        1,
        false,
        true,
        0,
        None,
        7,
        vec![[10, 0, 0, 2]],
        vec![[255, 255, 255, 0]],
    );
    assert_eq!(err.err(), Some(ConfigError::OwnerWithoutVip));
    // and a non-owner must not hold the VIP
    let err2 = VirtualRouter::new(
        1,
        "eth0".to_string(),
        100,
        VIP,
        1,
        false,
        true,
        0,
        None,
        7,
        vec![VIP],
        vec![[255, 255, 255, 0]],
    );
    assert_eq!(err2.err(), Some(ConfigError::NonOwnerWithVip));
}

#[test]
fn construction_error_variants() {
    let mk = |vrid: u8, prio: u8, adv: u8, at: u8, addrs: Vec<[u8; 4]>| {
        VirtualRouter::new(
            vrid,
            "eth0".to_string(),
            prio,
            VIP,
            adv,
            false,
            true,
            at,
            None,
            7,
            addrs,
            vec![[255, 255, 255, 0]],
        )
        .err()
    };
    assert_eq!(mk(1, 100, 1, 0, vec![]), Some(ConfigError::NoIpOnInterface));
    assert_eq!(mk(0, 100, 1, 0, vec![[10, 0, 0, 2]]), Some(ConfigError::BadVrid));
    assert_eq!(mk(1, 0, 1, 0, vec![[10, 0, 0, 2]]), Some(ConfigError::BadPriority));
    assert_eq!(mk(1, 100, 0, 0, vec![[10, 0, 0, 2]]), Some(ConfigError::BadAdvertInt));
    assert_eq!(mk(1, 100, 1, 7, vec![[10, 0, 0, 2]]), Some(ConfigError::UnsupportedAuthType));
}

#[test]
fn master_down_interval_formula() {
    // 3 * advert_int + (256 - priority)/256 seconds, in 1/256 s ticks
    let vr = make_vr(5, 100, false, [10, 0, 0, 2], false);
    assert_eq!(vr.parameters.master_down_interval256(), 3 * 256 + 156);
    assert_eq!(vr.parameters.skew_time256(), 156);
}

#[test]
fn owner_election() {
    // A owns the VIP with priority 255; B is an ordinary backup
    let mut a = make_vr(1, 255, false, [10, 0, 0, 2], true);
    let mut b = make_vr(1, 100, false, [10, 0, 0, 3], false);
    let acts_a = a.handle_event(Event::Startup);
    assert_eq!(a.states, States::Master);
    assert_eq!(
        acts_a,
        vec![
            Action::SendAdvert(255),
            Action::SendGratuitousArp,
            Action::ArmAdvert(256),
        ]
    );
    let acts_b = b.handle_event(Event::Startup);
    assert_eq!(b.states, States::Backup);
    assert_eq!(acts_b, vec![Action::ArmMasterDown(3 * 256 + 156)]);
    // B hears A's advertisement and stays Backup, never installing the VIP
    let acts = b.handle_event(Event::Advert([10, 0, 0, 2], 255));
    assert_eq!(b.states, States::Backup);
    assert_eq!(acts, vec![Action::ArmMasterDown(3 * 256 + 156)]);
    assert!(!b.flags.vip_installed);
    assert!(a.flags.vip_installed);
}

#[test]
fn backup_promotion_on_master_death() {
    // B waits out the master down interval, then takes over
    let mut b = make_vr(5, 100, false, [10, 0, 0, 3], false);
    b.handle_event(Event::Startup);
    assert_eq!(b.states, States::Backup);
    let acts = b.handle_event(Event::Timer(TimerKind::MasterDown));
    assert_eq!(b.states, States::Master);
    assert_eq!(
        acts,
        vec![
            Action::SendAdvert(100),
            Action::SendGratuitousArp,
            Action::InstallVip,
            Action::InstallRoutes,
            Action::CancelMasterDown,
            Action::ArmAdvert(256),
        ]
    );
    assert!(b.flags.vip_installed);
}

#[test]
fn master_resignation_short_circuits_master_down() {
    // priority zero re-arms Master_Down with the skew time alone
    let mut b = make_vr(5, 100, false, [10, 0, 0, 3], false);
    b.handle_event(Event::Startup);
    let acts = b.handle_event(Event::Advert([10, 0, 0, 2], 0));
    assert_eq!(b.states, States::Backup);
    assert_eq!(acts, vec![Action::ArmMasterDown(156)]);
}

#[test]
fn preemption_disabled_keeps_backup() {
    // B outranks A but preemption is off, so B stays Backup
    let mut b = make_vr(5, 200, false, [10, 0, 0, 3], false);
    b.handle_event(Event::Startup);
    let acts = b.handle_event(Event::Advert([10, 0, 0, 2], 100));
    assert_eq!(b.states, States::Backup);
    assert_eq!(acts, vec![Action::ArmMasterDown(3 * 256 + 56)]);
    // with preemption on, the same advertisement is discarded instead
    let mut c = make_vr(5, 200, true, [10, 0, 0, 3], false);
    c.handle_event(Event::Startup);
    let acts_c = c.handle_event(Event::Advert([10, 0, 0, 2], 100));
    assert_eq!(c.states, States::Backup);
    assert!(acts_c.is_empty());
}

#[test]
fn equal_priority_tiebreak_is_total() {
    // both claim Master with equal priority; the larger address wins
    let mut a = make_vr(5, 100, false, [10, 0, 0, 2], false);
    let mut b = make_vr(5, 100, false, [10, 0, 0, 3], false);
    a.handle_event(Event::Startup);
    a.handle_event(Event::Timer(TimerKind::MasterDown));
    b.handle_event(Event::Startup);
    b.handle_event(Event::Timer(TimerKind::MasterDown));
    assert_eq!(a.states, States::Master);
    assert_eq!(b.states, States::Master);
    let acts_a = a.handle_event(Event::Advert([10, 0, 0, 3], 100));
    let acts_b = b.handle_event(Event::Advert([10, 0, 0, 2], 100));
    // exactly one yields: the speaker with the smaller primary address
    assert_eq!(a.states, States::Backup);
    assert_eq!(b.states, States::Master);
    assert!(acts_a.contains(&Action::WithdrawVip));
    assert!(acts_b.is_empty());
    assert!(!a.flags.vip_installed);
    assert!(b.flags.vip_installed);
}

#[test]
fn master_advert_zero_answers_immediately() {
    let mut m = make_vr(5, 150, false, [10, 0, 0, 2], false);
    m.handle_event(Event::Startup);
    m.handle_event(Event::Timer(TimerKind::MasterDown));
    let acts = m.handle_event(Event::Advert([10, 0, 0, 3], 0));
    assert_eq!(m.states, States::Master);
    assert_eq!(acts, vec![Action::SendAdvert(150), Action::ArmAdvert(256)]);
}

#[test]
fn master_shutdown_resigns_and_withdraws() {
    let mut m = make_vr(5, 150, false, [10, 0, 0, 2], false);
    m.handle_event(Event::Startup);
    m.handle_event(Event::Timer(TimerKind::MasterDown));
    assert!(m.flags.vip_installed);
    let acts = m.handle_event(Event::Shutdown);
    assert_eq!(m.states, States::Init);
    assert_eq!(
        acts,
        vec![
            Action::SendAdvert(0),
            Action::WithdrawVip,
            Action::WithdrawRoutes,
            Action::CancelAdvert,
            Action::CancelMasterDown,
        ]
    );
    assert!(!m.flags.vip_installed);
}

#[test]
fn master_advert_timer_resends() {
    let mut m = make_vr(5, 150, false, [10, 0, 0, 2], false);
    m.handle_event(Event::Startup);
    m.handle_event(Event::Timer(TimerKind::MasterDown));
    let acts = m.handle_event(Event::Timer(TimerKind::Advert));
    assert_eq!(m.states, States::Master);
    assert_eq!(acts, vec![Action::SendAdvert(150), Action::ArmAdvert(256)]);
}

#[test]
fn timers_set_cancel_next_expiry() {
    let mut t = Timers::new();
    assert!(t.next_expiry().is_none());
    t.set(TimerKind::MasterDown, 900);
    t.set(TimerKind::Advert, 1000);
    assert_eq!(t.next_expiry(), Some((TimerKind::MasterDown, 900)));
    t.cancel(TimerKind::MasterDown);
    assert_eq!(t.next_expiry(), Some((TimerKind::Advert, 1000)));
    // on a tie the Advertisement timer is reported first
    t.set(TimerKind::MasterDown, 1000);
    assert_eq!(t.next_expiry(), Some((TimerKind::Advert, 1000)));
    t.cancel(TimerKind::Advert);
    t.cancel(TimerKind::MasterDown);
    assert!(t.next_expiry().is_none());
}

#[test]
fn is_owner_vip_reports_ownership() {
    let a = make_vr(1, 255, false, [10, 0, 0, 2], true);
    assert!(a.is_owner_vip(&VIP));
    let b = make_vr(1, 100, false, [10, 0, 0, 3], false);
    assert!(!b.is_owner_vip(&VIP));
}
