//! Getting the age secret key out of 1Password: which reference to read, and
//! what the output of `op read` must look like to be taken as a key.

use vstd::prelude::*;

use crate::config::{config_error_text, ConfigError, SopsConfig};
use crate::op::CommandOutput;
use crate::text::{has_prefix, starts_with, trim_text, trimmed};

verus! {

/// The literal that every age secret key starts with.
pub open spec fn secret_key_prefix() -> Seq<char> {
    "AGE-SECRET-KEY-"@
}

/// Why no age key could be had.
#[derive(Clone, Debug, PartialEq, Eq)]
pub enum KeyError {
    /// The configuration could not be read.
    Config(ConfigError),
    /// The configuration assigns no 1Password reference.
    ReferenceMissing,
    /// `op` could not be started; the reason.
    LaunchFailed(String),
    /// `op` failed; what it wrote to standard error.
    CommandFailed(String),
    /// What `op` printed is not an age secret key.
    InvalidFormat,
}

pub open spec fn key_error_text(e: KeyError) -> Seq<char> {
    match e {
        KeyError::Config(c) => "Failed to read SOPS config: "@ + config_error_text(c),
        KeyError::ReferenceMissing =>
            "No 1Password reference found in .sops.yaml. Run 'opsops init' to configure."@,
        KeyError::LaunchFailed(m) => "Failed to execute 1Password CLI: "@ + m@,
        KeyError::CommandFailed(m) => "1Password CLI returned an error: "@ + m@,
        KeyError::InvalidFormat =>
            "Retrieved value is not a valid Age key. It should start with 'AGE-SECRET-KEY-'."@,
    }
}

impl KeyError {
    pub fn message(&self) -> (r: String)
        ensures
            r@ == key_error_text(*self),
    {
        match self {
            KeyError::Config(c) => String::from_str("Failed to read SOPS config: ").concat(
                c.message().as_str(),
            ),
            KeyError::ReferenceMissing => String::from_str(
                "No 1Password reference found in .sops.yaml. Run 'opsops init' to configure.",
            ),
            KeyError::LaunchFailed(m) => String::from_str(
                "Failed to execute 1Password CLI: ",
            ).concat(m.as_str()),
            KeyError::CommandFailed(m) => String::from_str(
                "1Password CLI returned an error: ",
            ).concat(m.as_str()),
            KeyError::InvalidFormat => String::from_str(
                "Retrieved value is not a valid Age key. It should start with 'AGE-SECRET-KEY-'.",
            ),
        }
    }
}

/// The 1Password reference to read the key from: the configuration's, where
/// it could be read and assigns one.
pub fn age_key_reference(config: Result<SopsConfig, ConfigError>) -> (r: Result<String, KeyError>)
    ensures
        config matches Err(e) ==> r == Err::<String, KeyError>(KeyError::Config(e)),
        config matches Ok(c) ==> if c.onepassworditem@.len() == 0 {
            r == Err::<String, KeyError>(KeyError::ReferenceMissing)
        } else {
            r matches Ok(s) && s@ == c.onepassworditem@
        },
{
    match config {
        Err(e) => Err(KeyError::Config(e)),
        Ok(c) => {
            if c.onepassworditem.as_str().unicode_len() == 0 {
                Err(KeyError::ReferenceMissing)
            } else {
                Ok(c.onepassworditem)
            }
        },
    }
}

/// Accepts a candidate as an age secret key only if it starts with the
/// secret-key prefix.
pub fn validate_age_key(candidate: String) -> (r: Result<String, KeyError>)
    ensures
        starts_with(candidate@, secret_key_prefix()) ==> (r matches Ok(k) && k@ == candidate@),
        !starts_with(candidate@, secret_key_prefix()) ==> r == Err::<String, KeyError>(
            KeyError::InvalidFormat,
        ),
{
    if has_prefix(candidate.as_str(), "AGE-SECRET-KEY-") {
        Ok(candidate)
    } else {
        Err(KeyError::InvalidFormat)
    }
}

/// The key that `op read` gave: its standard output trimmed, where `op` ran,
/// succeeded, and printed an age secret key.
pub fn age_key_from_output(output: Result<CommandOutput, String>) -> (r: Result<String, KeyError>)
    ensures
        match output {
            Err(e) => r matches Err(KeyError::LaunchFailed(m)) && m@ == e@,
            Ok(o) => if !o.success {
                r matches Err(KeyError::CommandFailed(m)) && m@ == o.stderr@
            } else if starts_with(trimmed(o.stdout@), secret_key_prefix()) {
                r matches Ok(k) && k@ == trimmed(o.stdout@)
            } else {
                r == Err::<String, KeyError>(KeyError::InvalidFormat)
            },
        },
{
    match output {
        Err(e) => Err(KeyError::LaunchFailed(e)),
        Ok(o) => {
            if !o.success {
                Err(KeyError::CommandFailed(o.stderr))
            } else {
                validate_age_key(trim_text(o.stdout.as_str()).to_owned())
            }
        },
    }
}

} // verus!
