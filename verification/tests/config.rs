use omt_obs_plugin::config::{OutputConfig, OutputSettingsData};
use omt_obs_plugin::media_mode::MediaMode;
use omt_obs_plugin::text::trimmed_nonempty;

#[test]
fn default_config_values() {
    let c = OutputConfig::default();
    assert!(!c.enabled);
    assert_eq!(c.name, "OBS Output (Rust)");
    assert_eq!(c.program_mode, MediaMode::Embedded);
    assert!(!c.preview_enabled);
    assert_eq!(c.preview_name, "OBS Preview (Rust)");
}

#[test]
fn from_data_reads_present_entries_and_keeps_defaults() {
    let empty = OutputSettingsData::empty();
    assert_eq!(OutputConfig::from_data(&empty), OutputConfig::default());
    let data = OutputSettingsData {
        enabled: Some(true),
        name: Some("  Studio A \t".to_string()),
        program_mode: Some(2),
        preview_enabled: None,
        preview_name: Some("   ".to_string()),
    };
    let c = OutputConfig::from_data(&data);
    assert!(c.enabled);
    assert_eq!(c.name, "Studio A");
    assert_eq!(c.program_mode, MediaMode::Audio);
    assert!(!c.preview_enabled);
    assert_eq!(c.preview_name, "OBS Preview (Rust)");
}

#[test]
fn write_then_read_roundtrip() {
    let c = OutputConfig {
        enabled: true,
        name: "Main".to_string(),
        program_mode: MediaMode::Video,
        preview_enabled: true,
        preview_name: "Side".to_string(),
    };
    let mut data = OutputSettingsData::empty();
    c.write_to(&mut data);
    assert_eq!(data.program_mode, Some(1));
    assert_eq!(data.name.as_deref(), Some("Main"));
    assert_eq!(OutputConfig::from_data(&data), c);
    assert!(c.same_as(&c.copied()));
    assert!(!c.same_as(&OutputConfig::default()));
}

#[test]
fn trimmed_nonempty_trims_unicode_white_space() {
    assert_eq!(trimmed_nonempty("  x y \n"), Some("x y".to_string()));
    assert_eq!(trimmed_nonempty("\u{3000}name\u{a0}"), Some("name".to_string()));
    assert_eq!(trimmed_nonempty(" \t\r\n"), None);
    assert_eq!(trimmed_nonempty(""), None);
}
