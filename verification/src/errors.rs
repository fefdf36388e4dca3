use vstd::prelude::*;
use vstd::string::StringExecFns;

verus! {

/// The ways an operation of this library can fail.
#[derive(Debug)]
pub enum ZkError {
    /// No workspace marker was found where one was required; the caller may
    /// recover by initializing a workspace instead.
    NotFound,
    /// The candidate workspace path could not be canonicalized; fatal for the
    /// operation.
    CannotLocate { detail: String },
    /// A filesystem or child-process step failed; fatal, never retried.
    Io { detail: String },
    /// The marker payload could not be written out in full; initialization
    /// rolls the partly-written marker file back when this arises.
    Serialization { detail: String },
}

/// The description `message` produces for an error, as a sequence of
/// characters.
pub open spec fn message_spec(e: ZkError) -> Seq<char> {
    match e {
        ZkError::NotFound => "Cannot find current zk working directory."@,
        ZkError::CannotLocate { detail } => "Cannot locate workspace: "@ + detail@,
        ZkError::Io { detail } => detail@,
        ZkError::Serialization { detail } => "Serialization error: "@ + detail@,
    }
}

impl ZkError {
    /// A human-readable description of the error.
    pub fn message(&self) -> (r: String)
        ensures
            r@ == message_spec(*self),
    {
        match self {
            ZkError::NotFound => String::from_str("Cannot find current zk working directory."),
            ZkError::CannotLocate { detail } => {
                let mut out = String::from_str("Cannot locate workspace: ");
                out.append(detail.as_str());
                out
            },
            ZkError::Io { detail } => detail.clone(),
            ZkError::Serialization { detail } => {
                let mut out = String::from_str("Serialization error: ");
                out.append(detail.as_str());
                out
            },
        }
    }
}

} // verus!
