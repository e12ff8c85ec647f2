use omt_obs_plugin::ids::{
    CONFIG_FILE, DEFAULT_FILTER_NAME, DEFAULT_OUTPUT_NAME, DEFAULT_PREVIEW_NAME,
    FALLBACK_FILTER_NAME, FILTER_ID, FILTER_TOKEN, OUTPUT_ID, PROP_BANDWIDTH_POLICY,
    PROP_COLOR_SPACE, PROP_ENABLED, PROP_FILTER_MODE, PROP_FILTER_NAME, PROP_NAME,
    PROP_OFFICIAL_URL, PROP_PREVIEW, PROP_PREVIEW_ENABLED, PROP_PREVIEW_MODE, PROP_PREVIEW_NAME,
    PROP_PROGRAM_MODE, PROP_QUALITY, PROP_SOURCE, SETTINGS_ID, SOURCE_ID, SOURCE_TOKEN,
};

const OFFICIAL_IDS: &[&str] = &["omtsource", "omtoutput", "omtoutputsettings", "omt_filter"];
const OFFICIAL_KEYS: &[&str] = &[
    "sourceProperty",
    "qualityProperty",
    "csProperty",
    "previewProperty",
    "enabledProperty",
    "nameProperty",
    "previewEnabledProperty",
    "previewNameProperty",
    "filterNameProperty",
    "programModeProperty",
    "previewModeProperty",
    "filterModeProperty",
    "bandwidthPolicyProperty",
];

#[test]
fn ids_do_not_collide_with_official_omtplugin() {
    for id in [SOURCE_ID, OUTPUT_ID, SETTINGS_ID, FILTER_ID] {
        assert!(
            !OFFICIAL_IDS.contains(&id),
            "OBS id {id} collides with official omtplugin"
        );
    }
    assert_ne!(CONFIG_FILE, "omtplugin.json");
    assert_ne!(DEFAULT_OUTPUT_NAME, "OBS Output");
    assert_ne!(DEFAULT_PREVIEW_NAME, "OBS Preview");
}

#[test]
fn property_keys_do_not_collide_with_official_omtplugin() {
    for key in [
        PROP_SOURCE,
        PROP_QUALITY,
        PROP_COLOR_SPACE,
        PROP_PREVIEW,
        PROP_BANDWIDTH_POLICY,
        PROP_ENABLED,
        PROP_NAME,
        PROP_PREVIEW_ENABLED,
        PROP_PREVIEW_NAME,
        PROP_FILTER_NAME,
        PROP_PROGRAM_MODE,
        PROP_PREVIEW_MODE,
        PROP_FILTER_MODE,
        PROP_OFFICIAL_URL,
    ] {
        assert!(
            !OFFICIAL_KEYS.contains(&key),
            "settings key {key} collides with official omtplugin"
        );
    }
}

#[test]
fn fallback_filter_name_is_default_template_with_placeholders_filled() {
    let expected = DEFAULT_FILTER_NAME
        .replace(SOURCE_TOKEN, "OMT Filter")
        .replace(FILTER_TOKEN, "OMT Filter");
    assert_eq!(FALLBACK_FILTER_NAME, expected);
}
