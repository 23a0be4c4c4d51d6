use vstd::prelude::*;

use crate::text::{join_path, join_path_exec};

verus! {

/// Which of the tools that the launcher relies on were found on the system.
#[derive(Debug, Clone, PartialEq, Eq, Structural)]
pub struct DiagnosticsResult {
    pub wine: bool,
    pub winetricks: bool,
    pub mangohud: bool,
    pub gamemode: bool,
}

impl DiagnosticsResult {
    /// Builds the result from the probes for `wine`, `winetricks`,
    /// `mangohud`, `gamemoded` and `gamemoderun`.
    pub fn perform(
        has_wine: bool,
        has_winetricks: bool,
        has_mangohud: bool,
        has_gamemoded: bool,
        has_gamemoderun: bool,
    ) -> (r: Self)
        ensures
            r.wine == has_wine,
            r.winetricks == has_winetricks,
            r.mangohud == has_mangohud,
            r.gamemode == (has_gamemoded || has_gamemoderun),
    {
        DiagnosticsResult {
            wine: has_wine,
            winetricks: has_winetricks,
            mangohud: has_mangohud,
            gamemode: has_gamemoded || has_gamemoderun,
        }
    }

    pub open spec fn spec_has_missing(&self) -> bool {
        !self.wine || !self.winetricks || !self.mangohud || !self.gamemode
    }

    /// Whether any of the tools is missing.
    pub fn has_missing(&self) -> (r: bool)
        ensures
            r == self.spec_has_missing(),
    {
        !self.wine || !self.winetricks || !self.mangohud || !self.gamemode
    }
}

/// The screen of the first-start assistant.
#[derive(Debug, Clone, PartialEq, Eq)]
pub enum OnboardingStep {
    Welcome,
    ScanResult(DiagnosticsResult),
    Installing { logs: Vec<String>, completed: bool, success: bool },
}

/// The first-start assistant: its screen and the answer under the cursor.
#[derive(Debug, Clone, PartialEq, Eq)]
pub struct OnboardingState {
    pub step: OnboardingStep,
    pub selected_yes: bool,
}

/// Whether the first-start assistant is to be shown: it never is.
pub fn needs_onboarding() -> (r: bool)
    ensures
        !r,
{
    false
}

/// The settings file in which finishing the assistant is noted, under the
/// home directory `home`.
pub fn onboarding_config_path(home: &str) -> (r: String)
    ensures
        r@ == join_path(home@, ".config/lgui/config.toml"@),
{
    join_path_exec(home, ".config/lgui/config.toml")
}

/// What the settings file holds once the assistant is finished.
pub fn onboarding_config_text() -> (r: &'static str)
    ensures
        r@ == "onboarding_completed = true\n"@,
{
    "onboarding_completed = true\n"
}

} // verus!
