//! Setting up the daemon's request FIFO: what to do after each outside step.
//!
//! The caller runs `mkfifo` on the path, hands the outcome to
//! [`after_mkfifo`], and when told to, checks whether the existing file is a
//! FIFO and hands that answer to [`after_fifo_check`].

use vstd::prelude::*;
use crate::protocol::REQUEST_FIFO;

verus! {

/// What `mkfifo` did.
#[derive(Debug)]
pub enum MkfifoOutcome {
    /// The FIFO was created.
    Created,
    /// Something already exists at the path (`EEXIST`).
    AlreadyExists,
    /// Any other failure, with the text of its error.
    Failed(String),
}

/// Why the request FIFO could not be set up.
#[derive(Debug)]
pub enum FifoError {
    /// The path exists but is not a FIFO.
    NotAFifo,
    /// `mkfifo` failed for another reason, with the text of its error.
    MkfifoFailed(String),
}

/// The next step after `mkfifo`.
#[derive(Debug)]
pub enum FifoSetup {
    /// The request FIFO is there.
    Ready,
    /// Something exists at the path: check whether it is a FIFO.
    CheckExisting,
    /// Give up with this error.
    Fail(FifoError),
}

/// The text of a setup error. The message names the well-known request FIFO,
/// whatever path was being set up.
pub open spec fn fifo_error_text(e: FifoError) -> Seq<char> {
    match e {
        FifoError::NotAFifo => REQUEST_FIFO@ + " *exists but is not a FIFO"@,
        FifoError::MkfifoFailed(err) => "mkfifo failed: "@ + err@,
    }
}

impl FifoError {
    /// The message shown for the error.
    pub fn message(&self) -> (m: String)
        ensures
            m@ == fifo_error_text(*self),
    {
        match self {
            FifoError::NotAFifo => {
                let mut m = String::from_str(REQUEST_FIFO);
                m.append(" *exists but is not a FIFO");
                m
            },
            FifoError::MkfifoFailed(err) => {
                let mut m = String::from_str("mkfifo failed: ");
                m.append(err.as_str());
                m
            },
        }
    }
}

/// Decides the next step from what `mkfifo` did: a fresh FIFO is ready, an
/// existing file must be checked, any other failure is final.
pub fn after_mkfifo(outcome: MkfifoOutcome) -> (next: FifoSetup)
    ensures
        outcome is Created <==> next is Ready,
        outcome is AlreadyExists <==> next is CheckExisting,
        outcome matches MkfifoOutcome::Failed(err) ==> (next matches FifoSetup::Fail(
            FifoError::MkfifoFailed(e),
        ) && e@ == err@),
{
    match outcome {
        MkfifoOutcome::Created => FifoSetup::Ready,
        MkfifoOutcome::AlreadyExists => FifoSetup::CheckExisting,
        MkfifoOutcome::Failed(err) => FifoSetup::Fail(FifoError::MkfifoFailed(err)),
    }
}

/// Decides the outcome once the existing file has been examined: an existing
/// FIFO is accepted, anything else is refused.
pub fn after_fifo_check(is_fifo: bool) -> (r: Result<(), FifoError>)
    ensures
        r is Ok <==> is_fifo,
        r matches Err(e) ==> e is NotAFifo,
{
    if is_fifo {
        Ok(())
    } else {
        Err(FifoError::NotAFifo)
    }
}

} // verus!
