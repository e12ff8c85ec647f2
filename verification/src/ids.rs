//! OBS / OMT identifier constants.
//!
//! IDs, property keys, config filename, and default sender names are intentionally
//! distinct from the official C# `omtplugin`, so both plugins can load in the same OBS
//! process.

use vstd::prelude::*;

verus! {

pub const SOURCE_ID: &'static str = "omtobs_source";
pub const OUTPUT_ID: &'static str = "omtobs_output";
pub const SETTINGS_ID: &'static str = "omtobs_output_settings";
pub const FILTER_ID: &'static str = "omtobs_filter";

pub const CONFIG_FILE: &'static str = "omt-obs-plugin.json";
pub const OFFICIAL_PLUGIN_URL: &'static str = "https://github.com/openmediatransport/omtplugin";

pub const PROP_SOURCE: &'static str = "omtobs_source_url";
pub const PROP_QUALITY: &'static str = "omtobs_quality";
pub const PROP_COLOR_SPACE: &'static str = "omtobs_color_space";
pub const PROP_PREVIEW: &'static str = "omtobs_preview";
pub const PROP_BANDWIDTH_POLICY: &'static str = "omtobs_bandwidth_policy";
pub const PROP_ENABLED: &'static str = "omtobs_enabled";
pub const PROP_NAME: &'static str = "omtobs_name";
pub const PROP_PREVIEW_ENABLED: &'static str = "omtobs_preview_enabled";
pub const PROP_PREVIEW_NAME: &'static str = "omtobs_preview_name";
pub const PROP_FILTER_NAME: &'static str = "omtobs_filter_name";
pub const PROP_PROGRAM_MODE: &'static str = "omtobs_program_mode";
pub const PROP_PREVIEW_MODE: &'static str = "omtobs_preview_mode";
pub const PROP_FILTER_MODE: &'static str = "omtobs_filter_mode";
pub const PROP_OFFICIAL_URL: &'static str = "omtobs_official_url";

pub const DEFAULT_OUTPUT_NAME: &'static str = "OBS Output (Rust)";
pub const DEFAULT_PREVIEW_NAME: &'static str = "OBS Preview (Rust)";
pub const DEFAULT_FILTER_NAME: &'static str = "${source}";

/// Placeholder in a filter's sender name for the name of the filtered source.
pub const SOURCE_TOKEN: &'static str = "${source}";
/// Placeholder in a filter's sender name for the filter's own name.
pub const FILTER_TOKEN: &'static str = "${filter}";
/// Sender name used where a filter's name cannot be resolved: the default template with
/// each placeholder replaced by this same text.
pub const FALLBACK_FILTER_NAME: &'static str = "OMT Filter";

} // verus!
