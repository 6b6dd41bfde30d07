use vstd::prelude::*;
use vstd::string::StringExecFns;

use crate::command::{command_output, command_output_spec, CommandEvent};
use crate::error::FlyIoError;
use crate::json::{lookup_result, lookup_secret};

verus! {

/// The fly.io secret provider.
///
/// Each operation is one run of the platform CLI. The provider builds
/// the argument list for the run (`get_request`, `put_request`,
/// `delete_request`); the caller runs `fly` with those arguments and
/// hands back what it observed as a [`CommandEvent`], which the
/// matching `_response` method turns into the operation's result.
pub struct FlyIoProvider {}

impl FlyIoProvider {
    pub fn new() -> (r: Self)
        ensures
            r == (FlyIoProvider {  }),
    {
        FlyIoProvider {  }
    }

    /// The arguments of the CLI run that lists the secrets as JSON.
    pub fn get_request(&self) -> (args: Vec<String>)
        ensures
            args@.len() == 3,
            args@[0]@ == "secrets"@,
            args@[1]@ == "list"@,
            args@[2]@ == "--json"@,
    {
        let mut args: Vec<String> = Vec::new();
        args.push("secrets".to_owned());
        args.push("list".to_owned());
        args.push("--json".to_owned());
        args
    }

    /// Reads the secret called `secret_name` out of the outcome of the
    /// listing run.
    ///
    /// A run that failed comes back as its own error; a listing that
    /// does not parse as JSON, and one without an entry under the name,
    /// come back as `SecretNotFound`.
    pub fn get_response(&self, event: CommandEvent, secret_name: &str) -> (r: Result<
        String,
        FlyIoError,
    >)
        ensures
            match r {
                Ok(value) => command_output_spec(event) matches Ok(out) && lookup_result(
                    out,
                    secret_name@,
                ) == Some(value@),
                Err(e) => match command_output_spec(event) {
                    Err(e0) => e == e0,
                    Ok(out) => lookup_result(out, secret_name@) is None && (e
                        matches FlyIoError::SecretNotFound(n) && n@ == secret_name@),
                },
            },
    {
        match command_output(event) {
            Ok(out) => lookup_secret(out.as_str(), secret_name),
            Err(e) => Err(e),
        }
    }

    /// The arguments of the CLI run that sets `secret_name` to
    /// `secret_value`: a single `name=value` pair.
    pub fn put_request(&self, secret_name: &str, secret_value: &str) -> (args: Vec<String>)
        ensures
            args@.len() == 3,
            args@[0]@ == "secrets"@,
            args@[1]@ == "set"@,
            args@[2]@ == secret_name@ + "="@ + secret_value@,
    {
        let mut pair = secret_name.to_owned();
        pair.append("=");
        pair.append(secret_value);
        let mut args: Vec<String> = Vec::new();
        args.push("secrets".to_owned());
        args.push("set".to_owned());
        args.push(pair);
        args
    }

    /// Decides whether the run that set `secret_name` succeeded: any
    /// failure of the run comes back as `SecretNotSet`.
    pub fn put_response(&self, event: CommandEvent, secret_name: &str) -> (r: Result<
        (),
        FlyIoError,
    >)
        ensures
            match r {
                Ok(_) => command_output_spec(event) is Ok,
                Err(e) => command_output_spec(event) is Err && (e
                    matches FlyIoError::SecretNotSet(n) && n@ == secret_name@),
            },
    {
        match command_output(event) {
            Ok(_) => Ok(()),
            Err(_) => Err(FlyIoError::SecretNotSet(secret_name.to_owned())),
        }
    }

    /// The arguments of the CLI run that unsets `secret_name`.
    pub fn delete_request(&self, secret_name: &str) -> (args: Vec<String>)
        ensures
            args@.len() == 3,
            args@[0]@ == "secrets"@,
            args@[1]@ == "unset"@,
            args@[2]@ == secret_name@,
    {
        let mut args: Vec<String> = Vec::new();
        args.push("secrets".to_owned());
        args.push("unset".to_owned());
        args.push(secret_name.to_owned());
        args
    }

    /// Decides whether the run that unset `secret_name` succeeded: any
    /// failure of the run comes back as `SecretNotDeleted`.
    pub fn delete_response(&self, event: CommandEvent, secret_name: &str) -> (r: Result<
        (),
        FlyIoError,
    >)
        ensures
            match r {
                Ok(_) => command_output_spec(event) is Ok,
                Err(e) => command_output_spec(event) is Err && (e
                    matches FlyIoError::SecretNotDeleted(n) && n@ == secret_name@),
            },
    {
        match command_output(event) {
            Ok(_) => Ok(()),
            Err(_) => Err(FlyIoError::SecretNotDeleted(secret_name.to_owned())),
        }
    }
}

} // verus!
