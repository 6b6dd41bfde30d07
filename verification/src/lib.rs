//! A secret-provider adapter for the fly.io platform CLI.
//!
//! The adapter speaks to the `fly` command-line tool in three fixed
//! patterns: list the application's secrets as JSON, set a `name=value`
//! pair, and unset a name. This crate holds the verified half of that
//! exchange: building the argument lists, interpreting what came back
//! from the process (exit status, standard output), parsing the JSON
//! listing, and mapping every failure onto [`FlyIoError`]. Running the
//! process itself is left to the caller, which hands the observed
//! outcome back as a [`CommandEvent`].

mod command;
mod error;
mod json;
mod provider;

pub use command::{command_output, command_output_spec, CommandEvent};
pub use error::{message_spec, FlyIoError};
pub use json::{entry_text, json_object_entries, lookup_result, lookup_secret, object_entries, text_of};
pub use provider::FlyIoProvider;
