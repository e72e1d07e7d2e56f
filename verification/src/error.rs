//! Why fetching the fragments of a page failed.

use vstd::prelude::*;

verus! {

/// `fantoccini::error::CmdError`: the browser session's report of a command
/// that failed. It is carried through unopened; nothing is claimed of
/// what it holds.
#[verifier::external_type_specification]
#[verifier::external_body]
pub struct ExCmdError(fantoccini::error::CmdError);

/// `fantoccini::error::NewSessionError`: the browser driver's report of a
/// session that could not be opened. It is carried through unopened;
/// nothing is claimed of what it holds.
#[verifier::external_type_specification]
#[verifier::external_body]
pub struct ExNewSessionError(fantoccini::error::NewSessionError);

/// A failure of the fetch stage. Each one ends the run: nothing is folded
/// or mined from a fetch that failed.
#[derive(Debug)]
pub enum GatherError {
    /// Navigating, locating or reading failed in an open session.
    CmdError(fantoccini::error::CmdError),
    /// No session could be opened.
    NewSessionError(fantoccini::error::NewSessionError),
    /// The session had been closed before it was used.
    SessionDropped(),
}

impl From<fantoccini::error::CmdError> for GatherError {
    fn from(err: fantoccini::error::CmdError) -> (out: GatherError)
        ensures
            out == GatherError::CmdError(err),
    {
        GatherError::CmdError(err)
    }
}

impl vstd::std_specs::convert::FromSpecImpl<fantoccini::error::CmdError> for GatherError {
    open spec fn obeys_from_spec() -> bool {
        true
    }

    open spec fn from_spec(err: fantoccini::error::CmdError) -> GatherError {
        GatherError::CmdError(err)
    }
}

impl From<fantoccini::error::NewSessionError> for GatherError {
    fn from(err: fantoccini::error::NewSessionError) -> (out: GatherError)
        ensures
            out == GatherError::NewSessionError(err),
    {
        GatherError::NewSessionError(err)
    }
}

impl vstd::std_specs::convert::FromSpecImpl<fantoccini::error::NewSessionError> for GatherError {
    open spec fn obeys_from_spec() -> bool {
        true
    }

    open spec fn from_spec(err: fantoccini::error::NewSessionError) -> GatherError {
        GatherError::NewSessionError(err)
    }
}

} // verus!
