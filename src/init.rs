//! The decisions of `init`: what to do with the configuration found, and how
//! a chosen 1Password field becomes the configuration's reference.

use vstd::prelude::*;

use crate::config::{
    missing_reference_message, read_or_create_config, with_reference, ConfigError, ConfigSource,
    SopsConfig,
};
use crate::op::{op_reference, reference_of};
use crate::text::contains;

verus! {

/// The next step of `init`.
#[derive(Clone, Debug, PartialEq, Eq)]
pub enum InitPlan {
    /// No file: offer to write the basic configuration, then assign a reference.
    OfferBasicConfig,
    /// The configuration assigns no reference: assign one.
    AssignReference,
    /// The configuration could not be had; why.
    Failed(ConfigError),
    /// The configuration assigns a reference: nothing to do.
    NothingToDo,
}

/// Decides on the configuration as `read_or_create_config` reads it: a
/// document that lacks the reference field, or holds an empty one, gets a
/// reference assigned.
pub fn init_plan(source: ConfigSource) -> (r: InitPlan)
    ensures
        match source {
            ConfigSource::Missing => r == InitPlan::OfferBasicConfig,
            ConfigSource::Unreadable(e) => r matches InitPlan::Failed(ConfigError::ReadFailure(m))
                && m@ == e@,
            ConfigSource::Read { full: Ok(c), .. } => if c.onepassworditem@.len() == 0 {
                r == InitPlan::AssignReference
            } else {
                r == InitPlan::NothingToDo
            },
            ConfigSource::Read { full: Err(m), rules } => if !contains(
                m@,
                missing_reference_message(),
            ) {
                r matches InitPlan::Failed(ConfigError::ParseFailure(e)) && e@ == m@
            } else {
                match rules {
                    Ok(_) => r == InitPlan::AssignReference,
                    Err(m2) => r matches InitPlan::Failed(ConfigError::PartialParseFailure(e))
                        && e@ == m2@,
                }
            },
        },
{
    if let ConfigSource::Missing = source {
        return InitPlan::OfferBasicConfig;
    }
    match read_or_create_config(source) {
        Ok(c) => {
            if c.onepassworditem.as_str().unicode_len() == 0 {
                InitPlan::AssignReference
            } else {
                InitPlan::NothingToDo
            }
        },
        Err(e) => InitPlan::Failed(e),
    }
}

/// The configuration with the chosen field as its reference, the rules kept.
pub fn assign_reference(
    config: Result<SopsConfig, ConfigError>,
    vault: &str,
    item: &str,
    field: &str,
) -> (r: Result<SopsConfig, ConfigError>)
    ensures
        match config {
            Err(e) => r == Err::<SopsConfig, ConfigError>(e),
            Ok(c) => r matches Ok(n) && n.creation_rules@ == c.creation_rules@ && n.onepassworditem@
                == reference_of(vault@, item@, field@),
        },
{
    match config {
        Err(e) => Err(e),
        Ok(c) => Ok(with_reference(c, op_reference(vault, item, field))),
    }
}

} // verus!
