//! The answers of the daemon's D-Bus configuration interface: how the outcome
//! of each outside step becomes the reply the caller receives.

use vstd::prelude::*;
use vstd::string::*;

verus! {

/// An error reply of the configuration interface.
#[derive(Debug)]
pub enum InterfaceError {
    /// The request could not be carried out.
    Failed(String),
    /// The request carried a value that is refused.
    InvalidArgs(String),
}

/// Why writing the configuration file failed.
#[derive(Debug)]
pub enum SaveError {
    /// The file system is mounted read-only (as on NixOS or bootc systems).
    ReadOnlyFilesystem,
    /// Any other failure, with its text.
    Other(String),
}

/// The reply to a request whose last step saved the configuration: success
/// where the file was written or the file system is read-only, else `Failed`
/// with the failure's text.
pub fn save_reply(outcome: Result<(), SaveError>) -> (r: Result<(), InterfaceError>)
    ensures
        outcome is Ok ==> r is Ok,
        outcome matches Err(SaveError::ReadOnlyFilesystem) ==> r is Ok,
        outcome matches Err(SaveError::Other(msg)) ==> (r matches Err(InterfaceError::Failed(m))
            && m@ == msg@),
{
    match outcome {
        Ok(()) => Ok(()),
        Err(SaveError::ReadOnlyFilesystem) => Ok(()),
        Err(SaveError::Other(msg)) => Err(InterfaceError::Failed(msg)),
    }
}

/// The reply to turning the experimental NVIDIA block on or off, after the
/// blocker was told: success, or `Failed` naming the blocker's error.
pub fn nvidia_block_reply(outcome: Result<(), String>) -> (r: Result<(), InterfaceError>)
    ensures
        outcome is Ok ==> r is Ok,
        outcome matches Err(e) ==> (r matches Err(InterfaceError::Failed(m)) && m@
            == "failed to set nvidia block: "@ + e@),
{
    match outcome {
        Ok(()) => Ok(()),
        Err(e) => {
            let mut m = String::from_str("failed to set nvidia block: ");
            m.append(e.as_str());
            Err(InterfaceError::Failed(m))
        },
    }
}

} // verus!
