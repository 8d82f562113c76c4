//! Keeps the age key that sops needs in 1Password: configuration rules,
//! project-root discovery, 1Password references and the sops invocation,
//! with their decisions verified.

pub mod config;
pub mod doctor;
pub mod init;
pub mod key;
pub mod op;
pub mod project_root;
pub mod sops;
pub mod text;
