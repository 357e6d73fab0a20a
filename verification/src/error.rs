//! Failures of the configuration store.

use crate::text::join2;
use std::path::PathBuf;
use vstd::prelude::*;
use vstd::string::*;

verus! {

#[verifier::external_type_specification]
#[verifier::external_body]
pub struct ExPathBuf(PathBuf);

#[verifier::external_type_specification]
#[verifier::external_body]
pub struct ExIoError(std::io::Error);

#[verifier::external_type_specification]
#[verifier::external_body]
pub struct ExJsonError(serde_json::Error);

/// Why the configuration could not be found, read or written.
#[derive(Debug)]
pub enum CoreError {
    /// The platform names no directory to keep the configuration in.
    NoConfigDir,
    CreateConfigDir { path: PathBuf, source: std::io::Error },
    ReadConfig { path: PathBuf, source: std::io::Error },
    ParseConfig { path: PathBuf, source: serde_json::Error },
    WriteConfig { path: PathBuf, source: std::io::Error },
    SerializeConfig { source: serde_json::Error },
}

/// A path as `Path::display` shows it.
pub uninterp spec fn path_text(path: PathBuf) -> Seq<char>;

/// `Path::display` of the standard library, collected into a string: the
/// path as people read it.
#[verifier::external_body]
fn shown(path: &PathBuf) -> (text: String)
    ensures
        text@ == path_text(*path),
{
    path.display().to_string()
}

/// The message of an error: a fixed beginning and, where the error names a
/// path, the path.
pub open spec fn core_error_text(e: CoreError) -> Seq<char> {
    match e {
        CoreError::NoConfigDir => "Could not determine a config directory for this platform"@,
        CoreError::CreateConfigDir { path, .. } => "Failed to create config directory: "@
            + path_text(path),
        CoreError::ReadConfig { path, .. } => "Failed to read config file: "@ + path_text(path),
        CoreError::ParseConfig { path, .. } => "Config file is not valid JSON: "@ + path_text(
            path,
        ),
        CoreError::WriteConfig { path, .. } => "Failed to write config file: "@ + path_text(path),
        CoreError::SerializeConfig { .. } => "Failed to serialize config as JSON"@,
    }
}

impl CoreError {
    /// The message shown to people.
    pub fn message(&self) -> (text: String)
        ensures
            text@ == core_error_text(*self),
    {
        match self {
            CoreError::NoConfigDir => "Could not determine a config directory for this platform".to_owned(),
            CoreError::CreateConfigDir { path, .. } => join2(
                "Failed to create config directory: ",
                shown(path).as_str(),
            ),
            CoreError::ReadConfig { path, .. } => join2(
                "Failed to read config file: ",
                shown(path).as_str(),
            ),
            CoreError::ParseConfig { path, .. } => join2(
                "Config file is not valid JSON: ",
                shown(path).as_str(),
            ),
            CoreError::WriteConfig { path, .. } => join2(
                "Failed to write config file: ",
                shown(path).as_str(),
            ),
            CoreError::SerializeConfig { .. } => "Failed to serialize config as JSON".to_owned(),
        }
    }
}

} // verus!
