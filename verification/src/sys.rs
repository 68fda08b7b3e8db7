//! Calls into the surrounding system: CPU count, executable lookup, and
//! the user's configuration directory. All three answers depend on the
//! machine and environment, so nothing is promised of their values; the
//! callers state what holds whatever came back.

use vstd::prelude::*;

use crate::error::CompressError;

verus! {

/// Relies on num_cpus::get: the number of logical CPUs of this system.
/// The value depends on the machine, so nothing is promised of it.
#[verifier::external_body]
pub(crate) fn detected_cpus() -> usize {
    num_cpus::get()
}

/// Relies on which::which: whether an executable of that name can be
/// found on the search path. The answer depends on the environment, so
/// nothing is promised of it.
#[verifier::external_body]
pub fn check_command_available(command: &str) -> bool {
    which::which(command).is_ok()
}

/// Relies on dirs::config_dir: the user's configuration directory, when
/// the platform defines one and the path is valid Unicode. The answer
/// depends on the environment, so nothing is promised of it.
#[verifier::external_body]
pub(crate) fn user_config_dir() -> Option<String> {
    match dirs::config_dir() {
        Some(p) => p.into_os_string().into_string().ok(),
        None => None,
    }
}

/// Decides on the encoder's availability: video work may proceed exactly
/// when the encoder was found, and a missing encoder is reported as the
/// `ffmpeg` dependency.
pub fn require_ffmpeg(available: bool) -> (r: Result<(), CompressError>)
    ensures
        r is Ok <==> available,
        !available ==> (r matches Err(e)
            && e matches CompressError::MissingDependency { dependency: d }
            && d@ == "ffmpeg"@),
{
    if !available {
        return Err(CompressError::missing_dependency("ffmpeg"));
    }
    Ok(())
}

/// Checks that the external encoder is installed before any video work
/// is attempted. The lookup's answer depends on the environment; the
/// decision taken from it is `require_ffmpeg`.
pub fn check_ffmpeg_dependency() -> (r: Result<(), CompressError>)
    ensures
        r matches Err(e) ==> (e matches CompressError::MissingDependency { dependency: d }
            && d@ == "ffmpeg"@),
{
    require_ffmpeg(check_command_available("ffmpeg"))
}

} // verus!
