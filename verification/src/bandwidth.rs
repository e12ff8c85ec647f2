//! Dynamic receive bandwidth policy.

use vstd::prelude::*;

verus! {

/// When the OMT source should request the sender's low-bandwidth preview stream.
#[derive(Debug, Clone, Copy, PartialEq, Eq, Structural)]
pub enum BandwidthPolicy {
    /// Always use the configured suggested quality (full).
    Never,
    /// Preview unless the source is on Program.
    NotOnProgram,
    /// Preview unless the source is shown anywhere.
    NotOnPreviewProgram,
    /// Always request preview (1/8) video.
    Always,
}

/// The stored integer of each policy.
pub open spec fn policy_code(p: BandwidthPolicy) -> int {
    match p {
        BandwidthPolicy::Never => 0,
        BandwidthPolicy::NotOnProgram => 1,
        BandwidthPolicy::NotOnPreviewProgram => 2,
        BandwidthPolicy::Always => 3,
    }
}

/// The policy that a stored integer selects: codes 1..=3 name a policy, anything else is `Never`.
pub open spec fn policy_of_code(v: int) -> BandwidthPolicy {
    if v == 1 {
        BandwidthPolicy::NotOnProgram
    } else if v == 2 {
        BandwidthPolicy::NotOnPreviewProgram
    } else if v == 3 {
        BandwidthPolicy::Always
    } else {
        BandwidthPolicy::Never
    }
}

/// The policy stored settings select: the policy code where one is stored, otherwise
/// `Always` where the legacy preview flag is set and `Never` where it is not.
pub open spec fn settings_policy(policy: Option<int>, legacy_preview: bool) -> BandwidthPolicy {
    match policy {
        Some(v) => policy_of_code(v),
        None => if legacy_preview {
            BandwidthPolicy::Always
        } else {
            BandwidthPolicy::Never
        },
    }
}

/// Whether the preview stream is wanted under `p` for the given OBS visibility.
pub open spec fn wants_preview(p: BandwidthPolicy, active: bool, showing: bool) -> bool {
    match p {
        BandwidthPolicy::Always => true,
        BandwidthPolicy::NotOnProgram => !active,
        BandwidthPolicy::NotOnPreviewProgram => !showing,
        BandwidthPolicy::Never => false,
    }
}

impl BandwidthPolicy {
    pub fn from_i64(v: i64) -> (p: Self)
        ensures
            p == policy_of_code(v as int),
    {
        match v {
            1 => BandwidthPolicy::NotOnProgram,
            2 => BandwidthPolicy::NotOnPreviewProgram,
            3 => BandwidthPolicy::Always,
            _ => BandwidthPolicy::Never,
        }
    }

    pub fn as_i64(self) -> (v: i64)
        ensures
            v as int == policy_code(self),
    {
        match self {
            BandwidthPolicy::Never => 0,
            BandwidthPolicy::NotOnProgram => 1,
            BandwidthPolicy::NotOnPreviewProgram => 2,
            BandwidthPolicy::Always => 3,
        }
    }

    /// Resolve the policy from the new key, falling back to the legacy preview flag.
    pub fn from_settings(policy: Option<i64>, legacy_preview: bool) -> (p: Self)
        ensures
            p == settings_policy(
                match policy {
                    Some(v) => Some(v as int),
                    None => None,
                },
                legacy_preview,
            ),
    {
        match policy {
            Some(v) => Self::from_i64(v),
            None => {
                if legacy_preview {
                    BandwidthPolicy::Always
                } else {
                    BandwidthPolicy::Never
                }
            },
        }
    }

    /// Whether the receiver should request OMT preview given OBS visibility.
    ///
    /// Nested scenes are already reflected in `active` / `showing`. Multiview
    /// and projectors increment `showing` but not `active`.
    pub fn use_preview(self, active: bool, showing: bool) -> (r: bool)
        ensures
            r == wants_preview(self, active, showing),
    {
        match self {
            BandwidthPolicy::Always => true,
            BandwidthPolicy::NotOnProgram => !active,
            BandwidthPolicy::NotOnPreviewProgram => !showing,
            BandwidthPolicy::Never => false,
        }
    }
}

impl Default for BandwidthPolicy {
    fn default() -> (p: Self)
        ensures
            p == BandwidthPolicy::Never,
    {
        BandwidthPolicy::Never
    }
}

/// A stored policy code reads back as the policy that wrote it.
pub proof fn lemma_policy_code_roundtrip(p: BandwidthPolicy)
    ensures
        policy_of_code(policy_code(p)) == p,
{
}

/// Settings written for a policy (its code and the legacy flag, set for `Always`) read
/// back as that policy; and where only the legacy flag survives they read back as the
/// policy whenever it is `Always` or `Never`.
pub proof fn lemma_persisted_policy_reads_back(p: BandwidthPolicy)
    ensures
        settings_policy(Some(policy_code(p)), p == BandwidthPolicy::Always) == p,
        (p == BandwidthPolicy::Always || p == BandwidthPolicy::Never) ==> settings_policy(
            None,
            p == BandwidthPolicy::Always,
        ) == p,
{
}

/// Codes 0..=3 are exactly the stored codes; every other integer reads as `Never`.
pub proof fn lemma_policy_code_canonical(v: int)
    ensures
        0 <= v <= 3 ==> policy_code(policy_of_code(v)) == v,
        !(0 <= v <= 3) ==> policy_of_code(v) == BandwidthPolicy::Never,
{
}

/// The `Always` policy wants preview whatever the visibility, `Never` never does, and
/// whenever `NotOnPreviewProgram` wants preview so does `NotOnProgram`
/// (a source on Program is also showing).
pub proof fn lemma_preview_policies_ordered(active: bool, showing: bool)
    requires
        active ==> showing,
    ensures
        wants_preview(BandwidthPolicy::Always, active, showing),
        !wants_preview(BandwidthPolicy::Never, active, showing),
        wants_preview(BandwidthPolicy::NotOnPreviewProgram, active, showing)
            ==> wants_preview(BandwidthPolicy::NotOnProgram, active, showing),
{
}

/// What each policy's preview request depends on: `Always` and `Never` on nothing,
/// `NotOnProgram` only on whether the source is on Program (and never while it is),
/// `NotOnPreviewProgram` only on whether it is shown (and never while it is).
pub proof fn lemma_policy_dependencies(a1: bool, s1: bool, a2: bool, s2: bool)
    ensures
        wants_preview(BandwidthPolicy::Always, a1, s1) == wants_preview(BandwidthPolicy::Always, a2, s2),
        wants_preview(BandwidthPolicy::Never, a1, s1) == wants_preview(BandwidthPolicy::Never, a2, s2),
        a1 == a2 ==> wants_preview(BandwidthPolicy::NotOnProgram, a1, s1) == wants_preview(
            BandwidthPolicy::NotOnProgram,
            a2,
            s2,
        ),
        a1 ==> !wants_preview(BandwidthPolicy::NotOnProgram, a1, s1),
        !a1 ==> wants_preview(BandwidthPolicy::NotOnProgram, a1, s1),
        s1 == s2 ==> wants_preview(BandwidthPolicy::NotOnPreviewProgram, a1, s1) == wants_preview(
            BandwidthPolicy::NotOnPreviewProgram,
            a2,
            s2,
        ),
        s1 ==> !wants_preview(BandwidthPolicy::NotOnPreviewProgram, a1, s1),
        !s1 ==> wants_preview(BandwidthPolicy::NotOnPreviewProgram, a1, s1),
{
}

} // verus!
