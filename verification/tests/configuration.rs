//! Configuration defaults and validation.

use rvrrpd::config::{CConfig, CfgType, ConfigError, Static, Timers, VRConfig};
use rvrrpd::Config;

fn empty_cconfig() -> CConfig {
    CConfig {
        verbose: None,
        debug: None,
        pid: None,
        working_dir: None,
        main_log: None,
        error_log: None,
        vrouter: None,
        protocols: None,
    }
}

fn empty_vrconfig() -> VRConfig {
    VRConfig {
        group: 1,
        interface: "eth0".to_string(),
        vip: Some([10, 0, 0, 1]),
        priority: None,
        preemption: None,
        auth_type: None,
        auth_secret: None,
        timers: None,
        rfc3768: None,
    }
}

#[test]
fn cconfig_defaults() {
    let c = empty_cconfig();
    assert_eq!(c.debug(), 0);
    assert_eq!(c.pid(), "/var/run/rvrrpd.pid");
    assert_eq!(c.working_dir(), "/tmp");
    assert_eq!(c.main_log(), "/var/log/rvrrpd.log");
    assert_eq!(c.error_log(), "/var/log/rvrrpd-error.log");
    assert_eq!(c._verbose(), None);
    let mut c2 = empty_cconfig();
    c2.debug = Some(5);
    c2.pid = Some("/run/x.pid".to_string());
    assert_eq!(c2.debug(), 5);
    assert_eq!(c2.pid(), "/run/x.pid");
}

#[test]
fn vrconfig_defaults_and_limits() {
    let v = empty_vrconfig();
    assert_eq!(v.group(), Ok(1));
    assert_eq!(v.interface(), "eth0");
    assert_eq!(v.vip(), Ok([10, 0, 0, 1]));
    assert_eq!(v.priority(), Ok(100));
    assert_eq!(v.timer_advert(), 1);
    assert!(!v.preemption());
    assert_eq!(v.auth_type(), Ok(0));
    assert!(v.rfc3768());
    let mut w = empty_vrconfig();
    w.group = 0;
    assert_eq!(w.group(), Err(ConfigError::BadVrid));
    w.group = 1;
    w.vip = None;
    assert_eq!(w.vip(), Err(ConfigError::MissingVip));
    w.priority = Some(0);
    assert_eq!(w.priority(), Err(ConfigError::BadPriority));
    // 255 configures the address owner
    w.priority = Some(255);
    assert_eq!(w.priority(), Ok(255));
    w.priority = Some(254);
    assert_eq!(w.priority(), Ok(254));
    w.auth_type = Some(2);
    assert_eq!(w.auth_type(), Err(ConfigError::UnsupportedAuthType));
    w.auth_type = Some(251);
    assert_eq!(w.auth_type(), Ok(251));
    w.timers = Some(Timers { advert: 5 });
    assert_eq!(w.timer_advert(), 5);
    w.preemption = Some(true);
    assert!(w.preemption());
    w.rfc3768 = Some(false);
    assert!(!w.rfc3768());
}

#[test]
fn timers_default_is_one_second() {
    let t: Timers = Default::default();
    assert_eq!(t.advert, 1);
}

#[test]
fn static_route_getters() {
    let s = Static {
        route: [10, 1, 0, 0],
        mask: [255, 255, 0, 0],
        nh: [10, 0, 0, 254],
        metric: None,
        mtu: None,
    };
    assert_eq!(s.route(), [10, 1, 0, 0]);
    assert_eq!(s.mask(), [255, 255, 0, 0]);
    assert_eq!(s.nh(), [10, 0, 0, 254]);
    assert_eq!(s.metric(), 0);
    assert_eq!(s.mtu(), 0);
    let t = Static { metric: Some(20), mtu: Some(1400), ..s };
    assert_eq!(t.metric(), 20);
    assert_eq!(t.mtu(), 1400);
}

#[test]
fn library_config_getters() {
    let c = Config::new(Some("eth1".to_string()), 1, None, Some(3), None);
    assert_eq!(c.iface(), "eth1");
    assert_eq!(*c.mode(), 1);
    assert_eq!(c.conf(), "/etc/rvrrpd/rvrrpd.conf");
    assert_eq!(c.debug(), Some(3));
    assert_eq!(c.cfg_format(), CfgType::Toml);
    let j = Config::new(None, 0, Some("/tmp/x.conf".to_string()), None, Some("json".to_string()));
    assert_eq!(j.iface(), "");
    assert_eq!(j.conf(), "/tmp/x.conf");
    assert_eq!(j.cfg_format(), CfgType::Json);
    let t = Config::new(None, 0, None, None, Some("toml".to_string()));
    assert_eq!(t.cfg_format(), CfgType::Toml);
}
