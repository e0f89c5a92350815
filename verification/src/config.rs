//! Build-time switches of the shell, as values.

use vstd::prelude::*;

verus! {

/// The kind of platform the shell was built for.
#[derive(Clone, Copy, Debug, PartialEq, Eq, Structural)]
pub enum Platform {
    /// A desktop system: the shell owns a titled window and the backend process.
    Desktop,
    /// A mobile system: no window title, no backend process.
    Mobile,
}

/// The two independent switches a build is made with.
#[derive(Clone, Copy, Debug, PartialEq, Eq, Structural)]
pub struct BuildConfig {
    /// Gates the window and backend-process logic.
    pub platform: Platform,
    /// Gates the command that toggles the inspector panel.
    pub debug_tools: bool,
    /// Whether the custom URL scheme is registered at startup.
    pub deep_link: bool,
}

impl BuildConfig {
    /// A configuration with the given switches.
    pub fn new(platform: Platform, debug_tools: bool, deep_link: bool) -> (config: Self)
        ensures
            config.platform == platform,
            config.debug_tools == debug_tools,
            config.deep_link == deep_link,
    {
        BuildConfig { platform, debug_tools, deep_link }
    }

    /// Whether the window and backend-process logic applies.
    pub open spec fn spec_is_desktop(&self) -> bool {
        self.platform == Platform::Desktop
    }

    /// Whether the window and backend-process logic applies.
    #[verifier::when_used_as_spec(spec_is_desktop)]
    pub fn is_desktop(&self) -> (desktop: bool)
        ensures
            desktop == self.spec_is_desktop(),
    {
        match self.platform {
            Platform::Desktop => true,
            Platform::Mobile => false,
        }
    }
}

} // verus!
