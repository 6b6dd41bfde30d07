use vstd::prelude::*;
use vstd::utf8::{decode_utf8, valid_utf8};

use crate::error::FlyIoError;

verus! {

/// What the caller observed when it ran the platform CLI: either the
/// process could not be started at all, or it finished with an exit
/// status and whatever it printed on standard output.
#[derive(Debug)]
pub enum CommandEvent {
    SpawnFailed,
    Finished { success: bool, stdout: Vec<u8> },
}

/// What a run of the CLI comes to: the decoded standard output of a
/// successful run, `CommandError` for one that could not be started or
/// exited unsuccessfully, and `Utf8Error` for output that is not valid
/// UTF-8.
pub open spec fn command_output_spec(event: CommandEvent) -> Result<Seq<char>, FlyIoError> {
    match event {
        CommandEvent::SpawnFailed => Err(FlyIoError::CommandError),
        CommandEvent::Finished { success, stdout } => if !success {
            Err(FlyIoError::CommandError)
        } else if valid_utf8(stdout@) {
            Ok(decode_utf8(stdout@))
        } else {
            Err(FlyIoError::Utf8Error)
        },
    }
}

/// Relies on str::from_utf8: it returns Ok exactly on valid UTF-8,
/// decoded as the UTF-8 standard says.
#[verifier::external_body]
fn utf8_to_string(bytes: &Vec<u8>) -> (r: Option<String>)
    ensures
        match r {
            Some(s) => valid_utf8(bytes@) && s@ == decode_utf8(bytes@),
            None => !valid_utf8(bytes@),
        },
{
    match std::str::from_utf8(bytes.as_slice()) {
        Ok(s) => Some(s.to_owned()),
        Err(_) => None,
    }
}

/// Turns the observed outcome of a CLI run into its standard output,
/// or the error the run stands for.
pub fn command_output(event: CommandEvent) -> (r: Result<String, FlyIoError>)
    ensures
        match r {
            Ok(s) => command_output_spec(event) == Ok::<Seq<char>, FlyIoError>(s@),
            Err(e) => command_output_spec(event) == Err::<Seq<char>, FlyIoError>(e),
        },
{
    match event {
        CommandEvent::SpawnFailed => Err(FlyIoError::CommandError),
        CommandEvent::Finished { success, stdout } => if !success {
            Err(FlyIoError::CommandError)
        } else {
            match utf8_to_string(&stdout) {
                Some(s) => Ok(s),
                None => Err(FlyIoError::Utf8Error),
            }
        },
    }
}

} // verus!
