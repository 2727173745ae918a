use vstd::prelude::*;
use vstd::string::StringExecFns;

use crate::config::{BuildMode, TargetPlatform};
use crate::version::{OpenGLVersion, spec_supports_debug_message_log};

verus! {

/// How driver errors are looked for after each call into the graphics API.
#[derive(Debug, Clone, Copy, PartialEq, Eq, Structural)]
pub enum ValidationMode {
    /// No check at all.
    Off,
    /// Drain the error-flag queue.
    Basic,
    /// Drain the structured debug message log.
    Advanced,
    /// Decide between `Basic` and `Advanced` from the driver's version.
    Dynamic,
}

impl ValidationMode {
    /// Equality usable where no trait call is wanted.
    pub fn equals(self, rhs: ValidationMode) -> (r: bool)
        ensures
            r == (self == rhs),
    {
        match (self, rhs) {
            (ValidationMode::Off, ValidationMode::Off) => true,
            (ValidationMode::Basic, ValidationMode::Basic) => true,
            (ValidationMode::Advanced, ValidationMode::Advanced) => true,
            (ValidationMode::Dynamic, ValidationMode::Dynamic) => true,
            _ => false,
        }
    }
}

pub open spec fn spec_validation_mode(build: BuildMode, platform: TargetPlatform) -> ValidationMode {
    if build == BuildMode::Release {
        ValidationMode::Off
    } else if platform == TargetPlatform::Windows {
        ValidationMode::Advanced
    } else if platform == TargetPlatform::Mac {
        ValidationMode::Basic
    } else {
        ValidationMode::Dynamic
    }
}

/// Returns the validation mode based on platform and build configuration.
pub fn validation_mode(build: BuildMode, platform: TargetPlatform) -> (r: ValidationMode)
    ensures
        r == spec_validation_mode(build, platform),
{
    if build.equals(BuildMode::Release) {
        ValidationMode::Off
    } else if platform.equals(TargetPlatform::Windows) {
        ValidationMode::Advanced
    } else if platform.equals(TargetPlatform::Mac) {
        ValidationMode::Basic
    } else {
        ValidationMode::Dynamic
    }
}

/// Whether calls are checked at all in this configuration.
pub fn should_validate(build: BuildMode, platform: TargetPlatform) -> (r: bool)
    ensures
        r == (spec_validation_mode(build, platform) != ValidationMode::Off),
{
    !validation_mode(build, platform).equals(ValidationMode::Off)
}

/// The check to run after a driver call.
#[derive(Debug, Clone, Copy, PartialEq, Eq, Structural)]
pub enum ErrorCheck {
    Skip,
    Basic,
    Advanced,
}

/// The check for a mode; in `Dynamic` mode the driver's version decides,
/// and without a known version the plain error queue is used.
pub open spec fn spec_error_check(mode: ValidationMode, version: Option<OpenGLVersion>) -> ErrorCheck {
    match mode {
        ValidationMode::Off => ErrorCheck::Skip,
        ValidationMode::Basic => ErrorCheck::Basic,
        ValidationMode::Advanced => ErrorCheck::Advanced,
        ValidationMode::Dynamic => match version {
            Some(v) => if spec_supports_debug_message_log(v) {
                ErrorCheck::Advanced
            } else {
                ErrorCheck::Basic
            },
            None => ErrorCheck::Basic,
        },
    }
}

/// The check for a mode, given the driver's version (if known).
pub fn error_check_for(mode: ValidationMode, version: Option<OpenGLVersion>) -> (r: ErrorCheck)
    ensures
        r == spec_error_check(mode, version),
{
    match mode {
        ValidationMode::Off => ErrorCheck::Skip,
        ValidationMode::Basic => ErrorCheck::Basic,
        ValidationMode::Advanced => ErrorCheck::Advanced,
        ValidationMode::Dynamic => match version {
            Some(v) => if v.supports_debug_message_log() {
                ErrorCheck::Advanced
            } else {
                ErrorCheck::Basic
            },
            None => ErrorCheck::Basic,
        },
    }
}

/// Chooses the check to run after a driver call. `version` is asked only in
/// `Dynamic` mode.
pub fn check_for_errors<F: FnOnce() -> Option<OpenGLVersion>>(mode: ValidationMode, version: F) -> (r:
    ErrorCheck)
    requires
        mode == ValidationMode::Dynamic ==> version.requires(()),
    ensures
        mode != ValidationMode::Dynamic ==> r == spec_error_check(mode, None),
        mode == ValidationMode::Dynamic ==> exists|v: Option<OpenGLVersion>|
            #[trigger] version.ensures((), v) && r == spec_error_check(mode, v),
{
    if mode.equals(ValidationMode::Dynamic) {
        let v = version();
        error_check_for(mode, v)
    } else {
        error_check_for(mode, None)
    }
}

} // verus!
