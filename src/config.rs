//! The `.sops.yaml` document: its creation rules, the 1Password reference,
//! and how a read of the file becomes a configuration or an error.

use vstd::prelude::*;

use crate::text::{contains, contains_text};

verus! {

/// A group of age public keys.
#[derive(Clone, Debug, PartialEq, Eq)]
pub struct KeyGroup {
    pub age: Vec<String>,
}

/// One rule that selects which keys encrypt which files.
#[derive(Clone, Debug, PartialEq, Eq)]
pub struct CreationRule {
    pub path_regex: Option<String>,
    pub age: Option<String>,
    pub key_groups: Vec<KeyGroup>,
}

/// The whole configuration: the creation rules, in order, and the 1Password
/// reference to the age secret key (empty when none is assigned).
#[derive(Clone, Debug, PartialEq, Eq)]
pub struct SopsConfig {
    pub creation_rules: Vec<CreationRule>,
    pub onepassworditem: String,
}

/// The name of the configuration file at the project root.
pub fn config_file_name() -> (r: &'static str)
    ensures
        r@ == ".sops.yaml"@,
{
    ".sops.yaml"
}

/// The configuration used when no file exists: no rules, no reference.
pub open spec fn is_empty_config(c: SopsConfig) -> bool {
    c.creation_rules@.len() == 0 && c.onepassworditem@.len() == 0
}

pub fn empty_config() -> (r: SopsConfig)
    ensures
        is_empty_config(r),
{
    SopsConfig { creation_rules: Vec::new(), onepassworditem: String::new() }
}

/// The starting configuration that `init` offers: one rule for every path,
/// with no keys yet, and no reference.
pub open spec fn is_basic_config(c: SopsConfig) -> bool {
    &&& c.creation_rules@.len() == 1
    &&& c.creation_rules@[0].path_regex matches Some(p) && p@ == ".*"@
    &&& c.creation_rules@[0].age is None
    &&& c.creation_rules@[0].key_groups@.len() == 0
    &&& c.onepassworditem@.len() == 0
}

pub fn basic_config() -> (r: SopsConfig)
    ensures
        is_basic_config(r),
{
    let rule = CreationRule {
        path_regex: Some(String::from_str(".*")),
        age: None,
        key_groups: Vec::new(),
    };
    SopsConfig { creation_rules: vec![rule], onepassworditem: String::new() }
}

/// The configuration with its reference replaced; the rules stay as they are.
pub fn with_reference(config: SopsConfig, reference: String) -> (r: SopsConfig)
    ensures
        r.creation_rules@ == config.creation_rules@,
        r.onepassworditem@ == reference@,
{
    SopsConfig { creation_rules: config.creation_rules, onepassworditem: reference }
}

/// What the YAML parser says of a document: `missing` when it lacks the reference field.
pub open spec fn missing_reference_message() -> Seq<char> {
    "missing field `onepassworditem`"@
}

/// Whether a parse error says that the document lacks the reference field.
pub fn is_missing_reference_error(message: &str) -> (r: bool)
    ensures
        r == contains(message@, missing_reference_message()),
{
    contains_text(message, "missing field `onepassworditem`")
}

/// What reading the configuration file gave, before any decision is made.
pub enum ConfigSource {
    /// No file at the project root, or no project root.
    Missing,
    /// The file exists and could not be read; the reason.
    Unreadable(String),
    /// The file was read. `full` is the document parsed as a whole configuration;
    /// `rules` is its `creation_rules` alone, an absent field read as no rules.
    Read { full: Result<SopsConfig, String>, rules: Result<Vec<CreationRule>, String> },
}

/// Why the configuration could not be had.
#[derive(Clone, Debug, PartialEq, Eq)]
pub enum ConfigError {
    ReadFailure(String),
    ParseFailure(String),
    PartialParseFailure(String),
}

pub open spec fn config_error_text(e: ConfigError) -> Seq<char> {
    match e {
        ConfigError::ReadFailure(m) => "Failed to read config file: "@ + m@,
        ConfigError::ParseFailure(m) => "Failed to parse YAML: "@ + m@,
        ConfigError::PartialParseFailure(m) => "Failed to parse partial YAML config: "@ + m@,
    }
}

impl ConfigError {
    pub fn message(&self) -> (r: String)
        ensures
            r@ == config_error_text(*self),
    {
        match self {
            ConfigError::ReadFailure(m) => String::from_str("Failed to read config file: ").concat(
                m.as_str(),
            ),
            ConfigError::ParseFailure(m) => String::from_str("Failed to parse YAML: ").concat(
                m.as_str(),
            ),
            ConfigError::PartialParseFailure(m) => String::from_str(
                "Failed to parse partial YAML config: ",
            ).concat(m.as_str()),
        }
    }
}

/// A missing file is an empty configuration; a document that lacks only the
/// reference field keeps its rules and gets an empty reference; any other parse
/// failure is an error.
pub fn read_or_create_config(source: ConfigSource) -> (r: Result<SopsConfig, ConfigError>)
    ensures
        source is Missing ==> (r matches Ok(c) && is_empty_config(c)),
        source matches ConfigSource::Unreadable(e) ==> (r matches Err(ConfigError::ReadFailure(m))
            && m@ == e@),
        source matches ConfigSource::Read { full: Ok(c), .. } ==> r == Ok::<SopsConfig, ConfigError>(c),
        source matches ConfigSource::Read { full: Err(m), rules } ==> {
            if !contains(m@, missing_reference_message()) {
                r matches Err(ConfigError::ParseFailure(e)) && e@ == m@
            } else {
                match rules {
                    Ok(rs) => r matches Ok(c) && c.creation_rules == rs && c.onepassworditem@.len()
                        == 0,
                    Err(m2) => r matches Err(ConfigError::PartialParseFailure(e)) && e@ == m2@,
                }
            }
        },
{
    match source {
        ConfigSource::Missing => Ok(empty_config()),
        ConfigSource::Unreadable(e) => Err(ConfigError::ReadFailure(e)),
        ConfigSource::Read { full, rules } => match full {
            Ok(c) => Ok(c),
            Err(m) => {
                if is_missing_reference_error(m.as_str()) {
                    match rules {
                        Ok(rs) => Ok(SopsConfig { creation_rules: rs, onepassworditem: String::new() }),
                        Err(m2) => Err(ConfigError::PartialParseFailure(m2)),
                    }
                } else {
                    Err(ConfigError::ParseFailure(m))
                }
            },
        },
    }
}

} // verus!
