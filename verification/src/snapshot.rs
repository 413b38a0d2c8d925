//! A snapshot of the process and environment state that the two diagnostic
//! renderings consult.
//!
//! Rendering stays deterministic and testable because the state is an
//! explicit parameter: the caller captures it once (outside this library)
//! and hands it to the render call.

use vstd::prelude::*;

verus! {

/// What the diagnostic renderings read of the current process: its
/// executable path and invocation arguments, and whether the environment
/// variable marking a WSL distribution is present.
pub struct EnvSnapshot {
    /// Path of the current executable, if it could be determined.
    pub exe: Option<String>,
    /// The invocation arguments after the program name.
    pub args: Vec<String>,
    /// Whether `WSL_DISTRO_NAME` is set in the environment.
    pub wsl_distro_set: bool,
}

impl EnvSnapshot {
    /// A snapshot with nothing known of the process: no executable path, no
    /// arguments, and no WSL marker.
    pub fn unknown() -> (r: EnvSnapshot)
        ensures
            r.exe is None,
            r.args@.len() == 0,
            !r.wsl_distro_set,
    {
        EnvSnapshot { exe: None, args: Vec::new(), wsl_distro_set: false }
    }
}

} // verus!
