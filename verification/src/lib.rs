//! Installation and lock-state engine of a mod manager: it validates a mod or
//! a pattern, decides what has to be copied or written, and records the
//! outcome in the lock file. The engine never touches the file system itself:
//! each operation is a state machine that asks for one file-system operation
//! at a time and is resumed with the answer.
//!
//! An operation starts with a step: [`manager::Setup::start`],
//! [`install::ModInstall::start`], [`models::LockFile::start_pattern`] or
//! [`replicate::Replicator::start`]. A step either asks, and then carries the
//! state and an [`effects::Request`], or it ends the operation. The driver
//! performs the request and hands the state and the [`effects::Reply`] to
//! the operation's function ([`manager::init`],
//! [`models::LockFile::install_mod`], [`models::LockFile::install_pattern`],
//! [`replicate::copy`]), which gives the next step.
//!
//! The functions are verified against the transition functions of
//! [`manager::SetupView`], [`models::LockView`] and
//! [`replicate::ReplicatorView`]; [`guarantees`] and [`tree`] prove what
//! follows for whole runs.

use vstd::prelude::*;

pub mod document;
pub mod effects;
pub mod error;
pub mod guarantees;
pub mod install;
pub mod manager;
pub mod models;
pub mod nesting;
pub mod parse_internal;
pub mod paths;
pub mod pattern;
pub mod persist;
pub mod replicate;
pub mod text;
pub mod tree;

use crate::error::ParseError;
use crate::models::{Manifest, ModView};
use crate::parse_internal::{
    decode, decoded, encoded, from_json, from_toml, json_decoded, json_encoded, manifest_doc,
    to_json5_string, to_toml_string, toml_encoded, toml_read,
};
use crate::text::same_text;

verus! {

/// Decodes a manifest from `src` in the named format: `"toml"` or `"json"`
/// (JSON5). Any other name is an error.
pub fn deserialize(format: &str, src: &str) -> (r: Result<Manifest, ParseError>)
    ensures
        format@ == "toml"@ ==> decoded(r) == decode(toml_read(src@)),
        format@ != "toml"@ && format@ == "json"@ ==> json_decoded(src@, decoded(r)),
        format@ != "toml"@ && format@ != "json"@ ==> decoded(r) == Err::<ModView, Seq<char>>(
            "Invalid deserialization type"@,
        ),
{
    if same_text(format, "toml") {
        from_toml(src)
    } else if same_text(format, "json") {
        from_json(src)
    } else {
        Err(ParseError::new("Invalid deserialization type"))
    }
}

/// Encodes a manifest in the named format: `"toml"` or `"json"` (JSON5). Any
/// other name is an error.
pub fn serialize(format: &str, manifest: Manifest) -> (r: Result<String, ParseError>)
    ensures
        encoded(r) == if format@ == "toml"@ {
            toml_encoded(manifest_doc(manifest@))
        } else if format@ == "json"@ {
            json_encoded(manifest_doc(manifest@))
        } else {
            Err("Invalid deserialization type"@)
        },
{
    if same_text(format, "toml") {
        to_toml_string(&manifest)
    } else if same_text(format, "json") {
        to_json5_string(&manifest)
    } else {
        Err(ParseError::new("Invalid deserialization type"))
    }
}

} // verus!
