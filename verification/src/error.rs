use vstd::prelude::*;
use vstd::string::StringExecFns;

verus! {

/// Everything that can go wrong while getting, setting or deleting a
/// secret through the platform CLI.
///
/// `CommandError` covers both a process that could not be started and
/// one that exited unsuccessfully; `Utf8Error` a listing whose bytes
/// were not valid UTF-8. The three name-carrying variants say which
/// secret the failed operation was about.
#[derive(Debug)]
pub enum FlyIoError {
    CommandError,
    SecretNotFound(String),
    SecretNotSet(String),
    SecretNotDeleted(String),
    Utf8Error,
}

/// The human-readable description of each error, as a sequence of
/// characters.
pub open spec fn message_spec(e: FlyIoError) -> Seq<char> {
    match e {
        FlyIoError::CommandError => "Failed to execute fly command"@,
        FlyIoError::SecretNotFound(name) => "Secret "@ + name@ + " not found or command failed"@,
        FlyIoError::SecretNotSet(name) => "Secret "@ + name@ + " could not be set"@,
        FlyIoError::SecretNotDeleted(name) => "Secret "@ + name@ + " could not be deleted"@,
        FlyIoError::Utf8Error => "Invalid UTF-8 sequence"@,
    }
}

impl FlyIoError {
    /// The human-readable description of the error.
    pub fn message(&self) -> (m: String)
        ensures
            m@ == message_spec(*self),
    {
        match self {
            FlyIoError::CommandError => "Failed to execute fly command".to_owned(),
            FlyIoError::SecretNotFound(name) => {
                let mut m = "Secret ".to_owned();
                m.append(name.as_str());
                m.append(" not found or command failed");
                proof {
                    assert(m@ =~= message_spec(*self));
                }
                m
            },
            FlyIoError::SecretNotSet(name) => {
                let mut m = "Secret ".to_owned();
                m.append(name.as_str());
                m.append(" could not be set");
                proof {
                    assert(m@ =~= message_spec(*self));
                }
                m
            },
            FlyIoError::SecretNotDeleted(name) => {
                let mut m = "Secret ".to_owned();
                m.append(name.as_str());
                m.append(" could not be deleted");
                proof {
                    assert(m@ =~= message_spec(*self));
                }
                m
            },
            FlyIoError::Utf8Error => "Invalid UTF-8 sequence".to_owned(),
        }
    }
}

} // verus!
