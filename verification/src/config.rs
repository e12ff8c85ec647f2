//! Persistent OMT output settings.

use vstd::prelude::*;

use crate::ids::{DEFAULT_OUTPUT_NAME, DEFAULT_PREVIEW_NAME};
use crate::media_mode::{mode_code, mode_of_code, MediaMode};
use crate::text::{is_trimmed_nonempty, trimmed_nonempty, trimmed_nonempty_spec};

verus! {

/// Program and preview sender settings.
#[derive(Debug, Clone, PartialEq, Eq)]
pub struct OutputConfig {
    pub enabled: bool,
    pub name: String,
    pub program_mode: MediaMode,
    pub preview_enabled: bool,
    pub preview_name: String,
}

/// The abstract value of an [`OutputConfig`].
pub struct OutputConfigView {
    pub enabled: bool,
    pub name: Seq<char>,
    pub program_mode: MediaMode,
    pub preview_enabled: bool,
    pub preview_name: Seq<char>,
}

impl View for OutputConfig {
    type V = OutputConfigView;

    open spec fn view(&self) -> OutputConfigView {
        OutputConfigView {
            enabled: self.enabled,
            name: self.name@,
            program_mode: self.program_mode,
            preview_enabled: self.preview_enabled,
            preview_name: self.preview_name@,
        }
    }
}

/// The settings entries an output configuration is stored under, each present or not
/// (`omtobs_enabled`, `omtobs_name`, `omtobs_program_mode`, `omtobs_preview_enabled`,
/// `omtobs_preview_name`).
#[derive(Debug, Clone, PartialEq, Eq)]
pub struct OutputSettingsData {
    pub enabled: Option<bool>,
    pub name: Option<String>,
    pub program_mode: Option<i64>,
    pub preview_enabled: Option<bool>,
    pub preview_name: Option<String>,
}

pub struct OutputSettingsDataView {
    pub enabled: Option<bool>,
    pub name: Option<Seq<char>>,
    pub program_mode: Option<int>,
    pub preview_enabled: Option<bool>,
    pub preview_name: Option<Seq<char>>,
}

pub open spec fn opt_string_view(s: Option<String>) -> Option<Seq<char>> {
    match s {
        Some(t) => Some(t@),
        None => None,
    }
}

impl View for OutputSettingsData {
    type V = OutputSettingsDataView;

    open spec fn view(&self) -> OutputSettingsDataView {
        OutputSettingsDataView {
            enabled: self.enabled,
            name: opt_string_view(self.name),
            program_mode: match self.program_mode {
                Some(v) => Some(v as int),
                None => None,
            },
            preview_enabled: self.preview_enabled,
            preview_name: opt_string_view(self.preview_name),
        }
    }
}

/// The configuration used where nothing is stored: both senders off, embedded media,
/// the default sender names.
pub open spec fn default_config() -> OutputConfigView {
    OutputConfigView {
        enabled: false,
        name: DEFAULT_OUTPUT_NAME@,
        program_mode: MediaMode::Embedded,
        preview_enabled: false,
        preview_name: DEFAULT_PREVIEW_NAME@,
    }
}

/// A stored name, trimmed, where it is present and not blank; otherwise `fallback`.
pub open spec fn stored_name(s: Option<Seq<char>>, fallback: Seq<char>) -> Seq<char> {
    match s {
        Some(t) => match trimmed_nonempty_spec(t) {
            Some(u) => u,
            None => fallback,
        },
        None => fallback,
    }
}

/// The configuration that stored settings describe: each entry that is present overrides
/// the default; a name counts as present only where it is not blank.
pub open spec fn config_from_data(d: OutputSettingsDataView) -> OutputConfigView {
    let def = default_config();
    OutputConfigView {
        enabled: match d.enabled {
            Some(v) => v,
            None => def.enabled,
        },
        name: stored_name(d.name, def.name),
        program_mode: match d.program_mode {
            Some(v) => mode_of_code(v),
            None => def.program_mode,
        },
        preview_enabled: match d.preview_enabled {
            Some(v) => v,
            None => def.preview_enabled,
        },
        preview_name: stored_name(d.preview_name, def.preview_name),
    }
}

/// The settings entries that storing `c` writes: every entry, holding `c`'s values.
pub open spec fn data_from_config(c: OutputConfigView) -> OutputSettingsDataView {
    OutputSettingsDataView {
        enabled: Some(c.enabled),
        name: Some(c.name),
        program_mode: Some(mode_code(c.program_mode)),
        preview_enabled: Some(c.preview_enabled),
        preview_name: Some(c.preview_name),
    }
}

fn read_name(s: &Option<String>, fallback: &str) -> (r: String)
    ensures
        r@ == stored_name(opt_string_view(*s), fallback@),
{
    match s {
        Some(t) => match trimmed_nonempty(t.as_str()) {
            Some(u) => u,
            None => fallback.to_owned(),
        },
        None => fallback.to_owned(),
    }
}

impl OutputConfig {
    /// A copy of this configuration.
    pub fn copied(&self) -> (r: Self)
        ensures
            r@ == self@,
    {
        OutputConfig {
            enabled: self.enabled,
            name: self.name.clone(),
            program_mode: self.program_mode,
            preview_enabled: self.preview_enabled,
            preview_name: self.preview_name.clone(),
        }
    }

    /// Whether two configurations hold the same values.
    pub fn same_as(&self, other: &Self) -> (r: bool)
        ensures
            r == (self@ == other@),
    {
        let r = self.enabled == other.enabled && self.name == other.name && self.program_mode
            == other.program_mode && self.preview_enabled == other.preview_enabled
            && self.preview_name == other.preview_name;
        proof {
            if r {
                assert(self@ == other@);
            }
        }
        r
    }

    /// Read a configuration from its settings entries, starting from the defaults.
    pub fn from_data(data: &OutputSettingsData) -> (cfg: Self)
        ensures
            cfg@ == config_from_data(data@),
    {
        let enabled = match data.enabled {
            Some(v) => v,
            None => false,
        };
        let name = read_name(&data.name, DEFAULT_OUTPUT_NAME);
        let program_mode = match data.program_mode {
            Some(v) => MediaMode::from_i64(v),
            None => MediaMode::Embedded,
        };
        let preview_enabled = match data.preview_enabled {
            Some(v) => v,
            None => false,
        };
        let preview_name = read_name(&data.preview_name, DEFAULT_PREVIEW_NAME);
        OutputConfig { enabled, name, program_mode, preview_enabled, preview_name }
    }

    /// Write every entry of this configuration into `data`.
    pub fn write_to(&self, data: &mut OutputSettingsData)
        ensures
            final(data)@ == data_from_config(self@),
    {
        data.enabled = Some(self.enabled);
        data.name = Some(self.name.clone());
        data.program_mode = Some(self.program_mode.as_i64());
        data.preview_enabled = Some(self.preview_enabled);
        data.preview_name = Some(self.preview_name.clone());
    }
}

impl OutputSettingsData {
    /// Settings with no entry stored.
    pub fn empty() -> (d: Self)
        ensures
            d.enabled is None,
            d.name is None,
            d.program_mode is None,
            d.preview_enabled is None,
            d.preview_name is None,
    {
        OutputSettingsData {
            enabled: None,
            name: None,
            program_mode: None,
            preview_enabled: None,
            preview_name: None,
        }
    }
}

impl Default for OutputConfig {
    fn default() -> (cfg: Self)
        ensures
            cfg@ == default_config(),
    {
        OutputConfig {
            enabled: false,
            name: DEFAULT_OUTPUT_NAME.to_owned(),
            program_mode: MediaMode::Embedded,
            preview_enabled: false,
            preview_name: DEFAULT_PREVIEW_NAME.to_owned(),
        }
    }
}

/// Reading back what was written gives the same configuration, for every configuration
/// whose sender names are trimmed and not empty.
pub proof fn lemma_write_then_read(c: OutputConfigView)
    requires
        is_trimmed_nonempty(c.name),
        is_trimmed_nonempty(c.preview_name),
    ensures
        config_from_data(data_from_config(c)) == c,
{
    crate::media_mode::lemma_mode_code_roundtrip(c.program_mode);
}

/// Stored settings that are read and written again read back as the same configuration.
pub proof fn lemma_read_write_read(d: OutputSettingsDataView)
    ensures
        config_from_data(data_from_config(config_from_data(d))) == config_from_data(d),
{
    let c = config_from_data(d);
    crate::media_mode::lemma_mode_code_roundtrip(c.program_mode);
    lemma_default_names_trimmed();
    lemma_stored_name_canonical(d.name, DEFAULT_OUTPUT_NAME@);
    lemma_stored_name_canonical(d.preview_name, DEFAULT_PREVIEW_NAME@);
}

/// The default sender names are trimmed and not empty.
pub proof fn lemma_default_names_trimmed()
    ensures
        is_trimmed_nonempty(DEFAULT_OUTPUT_NAME@),
        is_trimmed_nonempty(DEFAULT_PREVIEW_NAME@),
{
    reveal_strlit("OBS Output (Rust)");
    reveal_strlit("OBS Preview (Rust)");
    crate::text::lemma_trim_start_fixed(DEFAULT_OUTPUT_NAME@);
    crate::text::lemma_trim_end_fixed(DEFAULT_OUTPUT_NAME@);
    crate::text::lemma_trim_start_fixed(DEFAULT_PREVIEW_NAME@);
    crate::text::lemma_trim_end_fixed(DEFAULT_PREVIEW_NAME@);
}

/// A name read from storage is read back unchanged, whether it came from storage or was
/// the trimmed fallback.
proof fn lemma_stored_name_canonical(s: Option<Seq<char>>, fallback: Seq<char>)
    requires
        is_trimmed_nonempty(fallback),
    ensures
        is_trimmed_nonempty(stored_name(s, fallback)),
        stored_name(Some(stored_name(s, fallback)), fallback) == stored_name(s, fallback),
{
    match s {
        Some(t) => {
            crate::text::lemma_trim_idempotent(t);
        },
        None => {},
    }
}

} // verus!
