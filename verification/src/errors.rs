//! The error taxonomy of the fleet core.  Every failure a verified function
//! can report is one of these kinds; upstream failures of collaborators
//! (store, filesystem, container runtime, lookup service) are wrapped with
//! their origin preserved in the message.

use crate::strutil::dec_rep;
use crate::strutil::dec_u64;
use vstd::prelude::*;

verus! {

use vstd::string::StringExecFns;

#[derive(Clone, Debug)]
pub enum Error {
    /// The registry already holds the full fleet of 99 nodes.
    CapacityExceeded,
    /// No identity in the range 1..=99 is free (defensive: unreachable when
    /// the capacity check precedes allocation).
    IdUnavailable,
    /// A port or directory-name template fails its pattern.
    InvalidTemplate { message: String },
    /// The storage directory derived for a node already exists.
    DirectoryAlreadyExists { path: String },
    /// No node record carries the requested identity.
    NotFound { id: u8 },
    /// No deletion request for the identity is live within the
    /// confirmation window.
    ConfirmationRequired { id: u8 },
    /// A collaborator failed; the message preserves its report.
    Upstream { message: String },
}

/// What `Error::message` returns for each error value.
pub open spec fn error_message(e: Error) -> Seq<char> {
    match e {
        Error::CapacityExceeded => "Max capacity reached"@,
        Error::IdUnavailable => "Unable to get new bee id"@,
        Error::InvalidTemplate { message } => message@,
        Error::DirectoryAlreadyExists { path } => "Directory '"@ + path@ + "' already exists"@,
        Error::NotFound { id } => "Unable to find bee node with id "@ + dec_rep(id as nat) + "."@,
        Error::ConfirmationRequired { id } => "Unable to confirm deletion of bee node with id "@
            + dec_rep(id as nat) + ". No request made in last 30sec."@,
        Error::Upstream { message } => message@,
    }
}

impl Error {
    /// The human-readable report for this error.
    pub fn message(&self) -> (r: String)
        ensures
            r@ == error_message(*self),
    {
        match self {
            Error::CapacityExceeded => "Max capacity reached".to_owned(),
            Error::IdUnavailable => "Unable to get new bee id".to_owned(),
            Error::InvalidTemplate { message } => message.clone(),
            Error::DirectoryAlreadyExists { path } => {
                let mut s = "Directory '".to_owned();
                s.append(path.as_str());
                s.append("' already exists");
                s
            },
            Error::NotFound { id } => {
                let mut s = "Unable to find bee node with id ".to_owned();
                s.append(dec_u64(*id as u64).as_str());
                s.append(".");
                s
            },
            Error::ConfirmationRequired { id } => {
                let mut s = "Unable to confirm deletion of bee node with id ".to_owned();
                s.append(dec_u64(*id as u64).as_str());
                s.append(". No request made in last 30sec.");
                s
            },
            Error::Upstream { message } => message.clone(),
        }
    }
}

} // verus!
