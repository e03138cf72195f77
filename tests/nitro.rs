use nitro::actuator::Actuator;
use nitro::actuator::Step;
use nitro::actuator::UNPLUG_SETTLE_MS;
use nitro::broadcast::Broadcaster;
use nitro::config::ConfigOverrides;
use nitro::config::NitroConfig;
use nitro::config::ProfileConfig;
use nitro::config::ProfileOverrides;
use nitro::control::tick;
use nitro::profile::default_profile;
use nitro::profile::DaemonCommand;
use nitro::profile::Profile;
use nitro::session::Session;
use nitro::session::SessionEvent;
use nitro::session::SessionPhase;
use nitro::session::SharedTarget;
use std::sync::Arc;
use std::sync::Mutex;

fn defaults_actuator() -> Actuator {
    Actuator::new(NitroConfig::defaults())
}

#[test]
fn default_limits() {
    let c = NitroConfig::load(&ConfigOverrides::none());
    assert_eq!(c, NitroConfig::defaults());
    assert_eq!(
        c.monk,
        ProfileConfig { stapm_limit: 5000, fast_limit: 8000, slow_limit: 5000, tctl_temp: None }
    );
    assert_eq!(
        c.eco,
        ProfileConfig { stapm_limit: 8000, fast_limit: 15000, slow_limit: 8000, tctl_temp: Some(85) }
    );
    assert_eq!(
        c.pro,
        ProfileConfig { stapm_limit: 25000, fast_limit: 35000, slow_limit: 25000, tctl_temp: None }
    );
}

#[test]
fn load_overrides_only_given_values() {
    let mut o = ConfigOverrides::none();
    o.eco.fast_limit = Some(12000);
    o.eco.tctl_temp = Some(70);
    o.pro = ProfileOverrides { stapm_limit: Some(30000), fast_limit: None, slow_limit: None, tctl_temp: None };
    let c = NitroConfig::load(&o);
    assert_eq!(c.eco.fast_limit, 12000);
    assert_eq!(c.eco.slow_limit, 8000);
    assert_eq!(c.eco.tctl_temp, Some(70));
    assert_eq!(c.pro.stapm_limit, 30000);
    assert_eq!(c.pro.fast_limit, 35000);
    assert_eq!(c.monk, NitroConfig::defaults().monk);
}

#[test]
fn limit_args_of_each_profile() {
    let a = defaults_actuator();
    assert_eq!(
        a.limit_args(&Profile::Monk),
        vec!["--slow-limit=5000", "--fast-limit=8000", "--stapm-limit=5000"]
    );
    assert_eq!(
        a.limit_args(&Profile::Eco),
        vec!["--slow-limit=8000", "--fast-limit=15000", "--stapm-limit=8000", "--tctl-temp=85"]
    );
    assert_eq!(
        a.limit_args(&Profile::Pro),
        vec!["--slow-limit=25000", "--fast-limit=35000", "--stapm-limit=25000"]
    );
}

#[test]
fn limit_args_temperature_ceiling() {
    let mut o = ConfigOverrides::none();
    o.monk.tctl_temp = Some(60);
    o.pro.tctl_temp = Some(95);
    o.monk.slow_limit = Some(0);
    let a = Actuator::new(NitroConfig::load(&o));
    assert_eq!(
        a.limit_args(&Profile::Monk),
        vec!["--slow-limit=0", "--fast-limit=8000", "--stapm-limit=5000", "--tctl-temp=60"]
    );
    assert_eq!(a.limit_args(&Profile::Pro).len(), 3);
}

#[test]
fn limit_args_largest_value() {
    let mut o = ConfigOverrides::none();
    o.eco.stapm_limit = Some(u32::MAX);
    let a = Actuator::new(NitroConfig::load(&o));
    assert_eq!(a.limit_args(&Profile::Eco)[2], "--stapm-limit=4294967295");
}

#[test]
fn plugged_in_forces_pro() {
    for p in [Profile::Monk, Profile::Eco, Profile::Pro] {
        let mut a = defaults_actuator();
        assert_eq!(a.apply_profile(&p, true), vec![Step::Enforce(Profile::Pro)]);
        assert_eq!(a.apply_profile(&p, true), vec![Step::Enforce(Profile::Pro)]);
    }
}

#[test]
fn unplugged_follows_request() {
    for p in [Profile::Monk, Profile::Eco, Profile::Pro] {
        let mut a = defaults_actuator();
        assert_eq!(a.apply_profile(&p, false), vec![Step::Enforce(p)]);
    }
}

#[test]
fn unplug_enforces_twice() {
    let mut a = defaults_actuator();
    assert_eq!(a.apply_profile(&Profile::Monk, true), vec![Step::Enforce(Profile::Pro)]);
    assert_eq!(
        a.apply_profile(&Profile::Monk, false),
        vec![Step::Enforce(Profile::Monk), Step::Pause(100), Step::Enforce(Profile::Monk)]
    );
    assert_eq!(UNPLUG_SETTLE_MS, 100);
    assert_eq!(a.apply_profile(&Profile::Monk, false), vec![Step::Enforce(Profile::Monk)]);
}

#[test]
fn steady_source_enforces_every_tick() {
    let mut a = defaults_actuator();
    a.apply_profile(&Profile::Eco, false);
    assert_eq!(a.apply_profile(&Profile::Eco, false), vec![Step::Enforce(Profile::Eco)]);
    assert_eq!(a.apply_profile(&Profile::Eco, false), vec![Step::Enforce(Profile::Eco)]);
    a.apply_profile(&Profile::Eco, true);
    assert_eq!(a.apply_profile(&Profile::Eco, true), vec![Step::Enforce(Profile::Pro)]);
}

#[test]
fn exit_forces_pro_once() {
    let mut a = defaults_actuator();
    assert_eq!(a.apply_profile(&Profile::Pro, false), vec![Step::Enforce(Profile::Pro)]);
}

#[test]
fn new_subscriber_sees_current() {
    let mut b = Broadcaster::new(7u32);
    b.publish(8);
    let mut s = b.subscribe();
    assert!(b.has_update(&s));
    assert_eq!(b.poll(&mut s), Some(&8));
    assert_eq!(b.poll(&mut s), None);
    assert!(!b.has_update(&s));
}

#[test]
fn slow_subscriber_skips_to_latest() {
    let mut b = Broadcaster::new(1u32);
    let mut s = b.subscribe();
    assert_eq!(b.poll(&mut s), Some(&1));
    b.publish(2);
    b.publish(3);
    assert_eq!(b.poll(&mut s), Some(&3));
    assert_eq!(b.poll(&mut s), None);
    assert!(b.can_publish());
}

#[test]
fn shared_target_starts_balanced() {
    let t = SharedTarget::new();
    assert_eq!(t.get(), Profile::Eco);
    assert_eq!(default_profile(), Profile::Eco);
}

#[test]
fn malformed_line_then_valid_command() {
    let mut t = SharedTarget::new();
    let mut s = Session::new();
    assert!(s.on_event(&mut t, SessionEvent::Line(None)));
    assert!(s.on_event(&mut t, SessionEvent::Line(Some(DaemonCommand::SetProfile(Profile::Monk)))));
    assert_eq!(t.get(), Profile::Monk);
    assert_eq!(s.phase, SessionPhase::Streaming);
}

#[test]
fn radio_toggles_are_accepted_and_change_nothing() {
    let mut t = SharedTarget::new();
    let mut s = Session::new();
    assert!(s.on_event(&mut t, SessionEvent::Line(Some(DaemonCommand::ToggleWifi))));
    assert!(s.on_event(&mut t, SessionEvent::Line(Some(DaemonCommand::ToggleBluetooth))));
    assert_eq!(t.get(), Profile::Eco);
}

#[test]
fn either_direction_ending_closes_session() {
    let mut t = SharedTarget::new();
    let mut s = Session::new();
    assert!(!s.on_event(&mut t, SessionEvent::OutboundEnded));
    assert!(!s.on_event(&mut t, SessionEvent::Line(Some(DaemonCommand::SetProfile(Profile::Pro)))));
    assert_eq!(t.get(), Profile::Eco);
    let mut s2 = Session::new();
    assert!(!s2.on_event(&mut t, SessionEvent::InboundEnded));
    assert_eq!(s2.phase, SessionPhase::Closed);
}

#[test]
fn concurrent_writers_leave_one_value() {
    let t = Arc::new(Mutex::new(SharedTarget::new()));
    let writers = [t.clone(), t.clone(), t.clone()];
    let requests = [Profile::Monk, Profile::Pro, Profile::Monk];
    for round in 0..10 {
        for (i, w) in writers.iter().enumerate() {
            let p = requests[(i + round) % 3];
            w.lock().unwrap().handle_line(Some(DaemonCommand::SetProfile(p)));
            let v = t.lock().unwrap().get();
            assert_eq!(v, p);
        }
    }
    let v = t.lock().unwrap().get();
    assert!(v == Profile::Monk || v == Profile::Pro);
}

#[test]
fn last_write_wins() {
    let mut t = SharedTarget::new();
    t.set(Profile::Pro);
    t.set(Profile::Monk);
    assert_eq!(t.get(), Profile::Monk);
}

#[test]
fn request_reaches_next_snapshot() {
    let mut target = SharedTarget::new();
    let mut a = defaults_actuator();
    let mut b = Broadcaster::new(Profile::Eco);
    let mut sub = b.subscribe();
    let first = tick(&mut a, &target, false);
    assert_eq!(first.profile, Profile::Eco);
    assert_eq!(first.steps, vec![Step::Enforce(Profile::Eco)]);
    b.publish(first.profile);
    assert_eq!(b.poll(&mut sub), Some(&Profile::Eco));
    let mut s = Session::new();
    s.on_event(&mut target, SessionEvent::Line(Some(DaemonCommand::SetProfile(Profile::Pro))));
    let next = tick(&mut a, &target, false);
    assert_eq!(next.profile, Profile::Pro);
    b.publish(next.profile);
    assert_eq!(b.poll(&mut sub), Some(&Profile::Pro));
}

#[test]
fn tick_while_plugged_reports_request() {
    let mut target = SharedTarget::new();
    target.set(Profile::Monk);
    let mut a = defaults_actuator();
    let out = tick(&mut a, &target, true);
    assert_eq!(out.profile, Profile::Monk);
    assert_eq!(out.steps, vec![Step::Enforce(Profile::Pro)]);
}
