use omt_obs_plugin::bandwidth::BandwidthPolicy;

#[test]
fn bandwidth_roundtrip() {
    assert_eq!(BandwidthPolicy::from_i64(0), BandwidthPolicy::Never);
    assert_eq!(BandwidthPolicy::from_i64(1).as_i64(), 1);
    assert_eq!(
        BandwidthPolicy::from_i64(2),
        BandwidthPolicy::NotOnPreviewProgram
    );
    assert_eq!(BandwidthPolicy::from_i64(3), BandwidthPolicy::Always);
    assert_eq!(BandwidthPolicy::from_i64(99), BandwidthPolicy::Never);
    assert_eq!(
        BandwidthPolicy::from_settings(None, true),
        BandwidthPolicy::Always
    );
    assert_eq!(
        BandwidthPolicy::from_settings(None, false),
        BandwidthPolicy::Never
    );
    assert_eq!(
        BandwidthPolicy::from_settings(Some(1), true),
        BandwidthPolicy::NotOnProgram
    );
}

#[test]
fn use_preview_matrix() {
    let cases = [
        (BandwidthPolicy::Always, false, false, true),
        (BandwidthPolicy::Always, true, true, true),
        (BandwidthPolicy::Never, false, false, false),
        (BandwidthPolicy::Never, true, true, false),
        (BandwidthPolicy::NotOnProgram, false, false, true),
        (BandwidthPolicy::NotOnProgram, false, true, true),
        (BandwidthPolicy::NotOnProgram, true, true, false),
        (BandwidthPolicy::NotOnPreviewProgram, false, false, true),
        (BandwidthPolicy::NotOnPreviewProgram, false, true, false),
        (BandwidthPolicy::NotOnPreviewProgram, true, true, false),
    ];
    for (policy, active, showing, want) in cases {
        assert_eq!(
            policy.use_preview(active, showing),
            want,
            "{policy:?} active={active} showing={showing}"
        );
    }
}

#[test]
fn bandwidth_every_policy_roundtrips_through_its_code() {
    for p in [
        BandwidthPolicy::Never,
        BandwidthPolicy::NotOnProgram,
        BandwidthPolicy::NotOnPreviewProgram,
        BandwidthPolicy::Always,
    ] {
        assert_eq!(BandwidthPolicy::from_i64(p.as_i64()), p);
    }
    assert_eq!(BandwidthPolicy::from_i64(-1), BandwidthPolicy::Never);
    assert_eq!(BandwidthPolicy::from_i64(4), BandwidthPolicy::Never);
    assert_eq!(BandwidthPolicy::default(), BandwidthPolicy::Never);
    assert_eq!(
        BandwidthPolicy::from_settings(Some(0), true),
        BandwidthPolicy::Never
    );
}
