//! The configuration file of the launcher, in three stages.
//!
//! 1. [`raw::RawConfig`]: the values as the file holds them; no invariant
//!    across fields is enforced yet.
//! 2. [`processed::ProcessedConfig`]: the checked values, with defaults
//!    filled in; building it from a raw configuration can fail.
//! 3. [`ray::RayConfig`]: the same cluster in Ray's schema; a plain mapping
//!    that cannot fail.

pub mod custom;
pub mod defaults;
pub mod processable_option;
pub mod processed;
pub mod raw;
pub mod ray;

use vstd::prelude::*;
use crate::config::processed::{
    is_process_error_of, is_processed_config_of, passes_checks, ProcessError, ProcessedConfig,
};
use crate::config::ray::{is_ray_config_of, RayConfig};
use crate::config::raw::{RawConfig, VersionBundle};
use crate::versions::{semver_matches, SemanticVersion};

verus! {

/// A text that is not one of the offered options.
#[derive(Debug, Clone, PartialEq, Eq)]
pub struct UnknownOption(pub String);

/// A choice offered to the user as a list of texts.
pub trait Selectable {
    type Parsed;

    /// The texts offered.
    spec fn option_texts() -> Seq<Seq<char>>;

    /// The texts offered, in order.
    fn to_options() -> (r: Vec<&'static str>)
        ensures
            r@.len() == Self::option_texts().len(),
            forall|i: int| 0 <= i < r@.len() ==> (#[trigger] r@[i])@ == Self::option_texts()[i],
    ;

    /// The choice named by a text; exactly the offered texts are accepted.
    fn parse(s: &str) -> (r: Result<Self::Parsed, UnknownOption>)
        ensures
            r is Ok <==> Self::option_texts().contains(s@),
            r matches Err(e) ==> e.0@ == s@,
    ;
}

/// The ways in which a configuration file can be refused.
pub enum ReadError<E> {
    /// The configuration fails its checks.
    Process(ProcessError<E>),
    /// The launcher's version does not meet the file's requirement.
    VersionMismatch { required: String, current: String },
}

/// The entry point for configuration files: checks a configuration read from
/// a file (see [`ProcessedConfig::try_from_raw`]), checks that the running
/// launcher's version `current` meets the file's requirement, and gives the
/// checked configuration together with its Ray form.
pub fn read<FP, FR, E>(raw: RawConfig, current: &SemanticVersion, detect_python: FP, detect_ray: FR) -> (r:
    Result<(ProcessedConfig, RayConfig), ReadError<E>>) where
    FP: FnOnce() -> Result<VersionBundle, E>,
    FR: FnOnce() -> Result<VersionBundle, E>,
    requires
        raw.package.python_version is None ==> call_requires(detect_python, ()),
        raw.package.ray_version is None ==> call_requires(detect_ray, ()),
    ensures
        r matches Ok((p, ray)) ==> {
            &&& passes_checks(raw)
            &&& is_processed_config_of(raw, detect_python, detect_ray, p)
            &&& semver_matches(raw.package.daft_launcher_version@, current@)
            &&& is_ray_config_of(ray, p)
        },
        r matches Err(ReadError::VersionMismatch { required, current: c }) ==> !semver_matches(
            raw.package.daft_launcher_version@,
            current@,
        ) && required@ == raw.package.daft_launcher_version@ && c@ == current@,
        r matches Err(ReadError::Process(e)) ==> is_process_error_of(raw, detect_python, detect_ray, e),
        passes_checks(raw) && semver_matches(raw.package.daft_launcher_version@, current@) ==> (r is Ok
            || (r matches Err(ReadError::Process(e)) && e is Detection)),
        !passes_checks(raw) ==> r matches Err(ReadError::Process(_)),
{
    let processed_config = match ProcessedConfig::try_from_raw(raw, detect_python, detect_ray) {
        Ok(p) => p,
        Err(e) => {
            return Err(ReadError::Process(e));
        },
    };
    if !processed_config.package.daft_launcher_version.matches(current) {
        return Err(
            ReadError::VersionMismatch {
                required: processed_config.package.daft_launcher_version.as_str().to_owned(),
                current: current.as_str().to_owned(),
            },
        );
    }
    let ray_config = RayConfig::from_processed(&processed_config);
    Ok((processed_config, ray_config))
}

} // verus!
