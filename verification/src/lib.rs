//! Selection of platform window backdrop effects.
//!
//! A desktop application may dress its windows with a compositor-rendered
//! translucency effect. Which effect is available depends on the host
//! platform and, on Windows, on the running OS version. This crate holds
//! the decision logic: given a platform and (for Windows) a version triple,
//! it picks the effect configuration to request from the windowing toolkit.
//! Reading the OS version and talking to the compositor are left to the
//! host application; the library works on plain values and is verified.

use vstd::prelude::*;

verus! {

/// A compositor backdrop effect that a window can request.
#[derive(Clone, Copy, Debug, PartialEq, Eq, Structural)]
pub enum Effect {
    /// Legacy Windows blur-behind.
    Blur,
    /// Windows 10 acrylic backdrop.
    Acrylic,
    /// Windows 11 mica backdrop.
    Mica,
    /// macOS popover-style vibrancy.
    Popover,
}

/// The activation state attached to a macOS vibrancy effect.
#[derive(Clone, Copy, Debug, PartialEq, Eq, Structural)]
pub enum EffectState {
    /// Render the effect as if the window were active.
    Active,
    /// Render the effect as if the window were inactive.
    Inactive,
}

/// The host platform, detected by the application at startup.
#[derive(Clone, Copy, Debug, PartialEq, Eq, Structural)]
pub enum Platform {
    MacOs,
    Windows,
    /// Any platform without compositor backdrop effects.
    Other,
}

/// An operating system version triple, as reported by the host at run time.
#[derive(Clone, Copy, Debug, PartialEq, Eq, Structural)]
pub struct OsVersion {
    pub major: u32,
    pub minor: u32,
    pub build: u32,
}

/// What to ask the windowing toolkit for: one effect, with an activation
/// state where the platform takes one.
#[derive(Clone, Copy, Debug, PartialEq, Eq)]
pub struct EffectConfig {
    pub effect: Effect,
    pub state: Option<EffectState>,
}

/// The effect that suits a given Windows version.
///
/// Mica exists from Windows 11 on (reported as major 10, minor 22000 and
/// up), acrylic on earlier Windows 10 builds, and older systems only offer
/// the classic blur.
pub open spec fn windows_effect_spec(v: OsVersion) -> Effect {
    if v.major > 10 || (v.major == 10 && v.minor >= 22000) {
        Effect::Mica
    } else if v.major == 10 {
        Effect::Acrylic
    } else {
        Effect::Blur
    }
}

/// Picks the backdrop effect for a window on the given Windows version.
pub fn windows_effect(v: OsVersion) -> (e: Effect)
    ensures
        e == windows_effect_spec(v),
{
    if v.major > 10 || (v.major == 10 && v.minor >= 22000) {
        Effect::Mica
    } else if v.major == 10 {
        Effect::Acrylic
    } else {
        Effect::Blur
    }
}

/// On any Windows from 11 on — major above 10, or major 10 with minor at
/// least 22000 — the selected effect is mica.
pub proof fn lemma_mica_on_modern_windows(v: OsVersion)
    requires
        v.major > 10 || (v.major == 10 && v.minor >= 22000),
    ensures
        windows_effect_spec(v) == Effect::Mica,
{
}

/// On Windows 10 below build line 22000, whatever the minor version, the
/// selected effect is acrylic.
pub proof fn lemma_acrylic_on_windows_ten(v: OsVersion)
    requires
        v.major == 10 && v.minor < 22000,
    ensures
        windows_effect_spec(v) == Effect::Acrylic,
{
}

/// On any Windows older than 10, whatever the minor version, the selected
/// effect is the classic blur.
pub proof fn lemma_blur_on_legacy_windows(v: OsVersion)
    requires
        v.major < 10,
    ensures
        windows_effect_spec(v) == Effect::Blur,
{
}

/// The effect configuration for macOS: popover vibrancy in the active
/// state, whatever the OS version.
pub open spec fn mac_config_spec() -> EffectConfig {
    (EffectConfig { effect: Effect::Popover, state: Some(EffectState::Active) })
}

/// The effect configuration for Windows: the version-appropriate backdrop,
/// with no activation state.
pub open spec fn windows_config_spec(v: OsVersion) -> EffectConfig {
    (EffectConfig { effect: windows_effect_spec(v), state: None })
}

/// The effect configuration to request on the given platform, or `None`
/// where the platform offers no backdrop effects. `version` is the running
/// OS version; only the Windows branch reads it.
pub open spec fn select_effects_spec(platform: Platform, version: OsVersion) -> Option<
    EffectConfig,
> {
    match platform {
        Platform::MacOs => Some(mac_config_spec()),
        Platform::Windows => Some(windows_config_spec(version)),
        Platform::Other => None,
    }
}

/// Picks the effect configuration for a window on the given platform and
/// OS version. Returns `None` exactly on platforms without backdrop
/// effects, where applying effects is a no-op.
pub fn select_effects(platform: Platform, version: OsVersion) -> (r: Option<EffectConfig>)
    ensures
        r == select_effects_spec(platform, version),
        platform is MacOs ==> r == Some(mac_config_spec()),
        platform is Windows ==> r == Some(windows_config_spec(version)),
        platform is Other ==> r is None,
{
    match platform {
        Platform::MacOs => Some(
            EffectConfig { effect: Effect::Popover, state: Some(EffectState::Active) },
        ),
        Platform::Windows => Some(EffectConfig { effect: windows_effect(version), state: None }),
        Platform::Other => None,
    }
}

/// On macOS the selection is always popover vibrancy in the active state,
/// whatever OS version the host reports.
pub proof fn lemma_mac_selection_ignores_version(version: OsVersion)
    ensures
        select_effects_spec(Platform::MacOs, version) == Some(mac_config_spec()),
{
}

/// On a platform without backdrop effects the selection is always empty,
/// whatever OS version the host reports: applying effects is a no-op there.
pub proof fn lemma_no_selection_elsewhere(version: OsVersion)
    ensures
        select_effects_spec(Platform::Other, version) is None,
{
}

/// Why the windowing toolkit declined to apply an effect.
#[derive(Clone, Copy, Debug, PartialEq, Eq, Structural)]
pub enum EffectApplicationError {
    /// The compositor rejected the request.
    CompositorRejected,
    /// The running OS build does not support the requested effect.
    UnsupportedOsBuild,
}

/// What becomes of a window after an attempt to decorate it. Applying an
/// effect is best-effort: a failure is recorded, never escalated.
#[derive(Clone, Copy, Debug, PartialEq, Eq, Structural)]
pub enum EffectOutcome {
    /// The effect was applied.
    Applied,
    /// The effect was not applied; the window stays usable, undecorated.
    Skipped(EffectApplicationError),
}

/// Normalizes the result of an effect-application attempt. Every failure
/// becomes a `Skipped` outcome for the caller to log; none is fatal, so a
/// missing decoration can never take the window or the process down.
pub fn settle_outcome(r: Result<(), EffectApplicationError>) -> (outcome: EffectOutcome)
    ensures
        outcome is Applied <==> r is Ok,
        r matches Err(e) ==> outcome == EffectOutcome::Skipped(e),
{
    match r {
        Ok(()) => EffectOutcome::Applied,
        Err(e) => EffectOutcome::Skipped(e),
    }
}

} // verus!
