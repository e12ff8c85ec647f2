use omt_obs_plugin::clock::{obs_ns_to_omt_ticks, omt_ticks_to_obs_ns};

#[test]
fn clock_roundtrip() {
    let ns = 33_333_333u64;
    let ticks = obs_ns_to_omt_ticks(ns);
    assert_eq!(omt_ticks_to_obs_ns(ticks), 33_333_300);
}

#[test]
fn negative_ticks_become_zero() {
    assert_eq!(omt_ticks_to_obs_ns(-1), 0);
}

#[test]
fn clock_edges() {
    assert_eq!(omt_ticks_to_obs_ns(0), 0);
    assert_eq!(omt_ticks_to_obs_ns(1), 100);
    assert_eq!(omt_ticks_to_obs_ns(i64::MIN), 0);
    assert_eq!(omt_ticks_to_obs_ns(i64::MAX), u64::MAX);
    assert_eq!(obs_ns_to_omt_ticks(99), 0);
    assert_eq!(obs_ns_to_omt_ticks(u64::MAX), (u64::MAX / 100) as i64);
    assert_eq!(omt_ticks_to_obs_ns(obs_ns_to_omt_ticks(250)), 200);
}
