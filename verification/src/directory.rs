//! Platform-appropriate default locations for the launcher roots.
//!
//! The values are best-effort guesses and may not exist; callers decide how
//! to react to non-existence.  The base directory is the caller's
//! platform-specific anchor: the application-data directory on Windows, the
//! home directory elsewhere.

use vstd::prelude::*;

verus! {

/// The operating-system family a default path is shaped for.
#[derive(Debug, Clone, Copy, PartialEq, Eq)]
pub enum Platform {
    Windows,
    MacOs,
    Linux,
}

/// The default destination (MultiMC-style) instances root under the given
/// base directory.
pub open spec fn sp_default_mmc_dir(platform: Platform, base: Seq<char>) -> Seq<char> {
    match platform {
        Platform::Windows => base + "\\MultiMC\\minecraft\\Instances"@,
        Platform::MacOs => base + "/.local/share/MultiMC/minecraft/Instances"@,
        Platform::Linux => base + "/.local/share/MultiMC/minecraft/Instances"@,
    }
}

/// The default source (CurseForge-style) instances root under the given
/// base directory.
pub open spec fn sp_default_cf_dir(platform: Platform, base: Seq<char>) -> Seq<char> {
    match platform {
        Platform::Windows => base + "\\curseforge\\minecraft\\Instances"@,
        Platform::MacOs => base + "/Documents/curseforge/minecraft/Instances"@,
        Platform::Linux => base + "/curseforge/minecraft/Instances"@,
    }
}

/// Builds the default destination root for the platform.
pub fn default_mmc_dir(platform: &Platform, base: &str) -> (r: String)
    ensures
        r@ == sp_default_mmc_dir(*platform, base@),
{
    match platform {
        Platform::Windows => String::from_str(base).concat("\\MultiMC\\minecraft\\Instances"),
        Platform::MacOs => String::from_str(base).concat(
            "/.local/share/MultiMC/minecraft/Instances",
        ),
        Platform::Linux => String::from_str(base).concat(
            "/.local/share/MultiMC/minecraft/Instances",
        ),
    }
}

/// Builds the default source root for the platform.
pub fn default_cf_dir(platform: &Platform, base: &str) -> (r: String)
    ensures
        r@ == sp_default_cf_dir(*platform, base@),
{
    match platform {
        Platform::Windows => String::from_str(base).concat("\\curseforge\\minecraft\\Instances"),
        Platform::MacOs => String::from_str(base).concat(
            "/Documents/curseforge/minecraft/Instances",
        ),
        Platform::Linux => String::from_str(base).concat("/curseforge/minecraft/Instances"),
    }
}

} // verus!
