//! Build profiles, target environments and what a crate's manifest
//! configures for each profile.

use vstd::prelude::*;

verus! {

/// The build profile that the crate was compiled with.
#[derive(Clone, Copy, Debug, PartialEq, Eq, Structural)]
pub enum BuildProfile {
    /// Optimised, without debug information.
    Release,
    /// Optimised, with debug information kept for profilers.
    Profiling,
    /// Not optimised, for development.
    Dev,
}

/// The environment that the generated bindings are shaped for.
#[derive(Clone, Copy, Debug, PartialEq, Eq, Structural)]
pub enum Target {
    /// CommonJS modules for Node.js.
    Nodejs,
    /// A script that defines a global, for use without a module system.
    NoModules,
    /// Native ES modules, loaded by a browser directly.
    Web,
    /// ES modules that a bundler consumes.
    Bundler,
}

/// What one profile configures for the bindings generator.
#[derive(Clone, Copy, Debug, PartialEq, Eq, Structural)]
pub struct ProfileConfig {
    /// Emit JS glue with extra runtime checks.
    pub debug_js_glue: bool,
    /// Keep the demangled symbol names in the name section.
    pub demangle_name_section: bool,
    /// Keep the DWARF debug information in the output.
    pub dwarf_debug_info: bool,
}

/// What the build needs to know of the crate: where cargo puts its
/// artifacts, what the crate is called, and the configuration of each
/// profile.
#[derive(Debug, PartialEq, Eq)]
pub struct CrateData {
    /// The root of cargo's target directory.
    pub target_directory: String,
    /// The crate's name as it appears in file names.
    pub crate_name: String,
    /// The configuration of the `dev` profile.
    pub dev: ProfileConfig,
    /// The configuration of the `profiling` profile.
    pub profiling: ProfileConfig,
    /// The configuration of the `release` profile.
    pub release: ProfileConfig,
}

impl CrateData {
    /// The configuration that applies under `profile`.
    pub open spec fn profile_config(self, profile: BuildProfile) -> ProfileConfig {
        match profile {
            BuildProfile::Dev => self.dev,
            BuildProfile::Profiling => self.profiling,
            BuildProfile::Release => self.release,
        }
    }

    /// The configuration that applies under `profile`.
    pub fn configured_profile(&self, profile: BuildProfile) -> (config: ProfileConfig)
        ensures
            config == self.profile_config(profile),
    {
        match profile {
            BuildProfile::Dev => self.dev,
            BuildProfile::Profiling => self.profiling,
            BuildProfile::Release => self.release,
        }
    }
}

} // verus!
