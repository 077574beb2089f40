//! What can go wrong in a session.

use crate::retcode::Retcode;
use vstd::prelude::*;

verus! {

/// Why an operation was refused or failed.
///
/// `Engine` is a failure that an engine call reported. All others are found
/// by the session itself, before any engine call is made.
#[derive(Clone, Copy, Debug, PartialEq, Eq, Structural)]
pub enum Error {
    /// An engine call returned this failure.
    Engine(Retcode),
    /// A constraint was given as many variables as it was not given
    /// coefficients.
    LengthMismatch,
    /// A variable's lower bound is not at most its upper bound.
    InvalidBounds,
    /// The default plugins are already included.
    PluginsIncluded,
    /// The context already holds a problem of the other origin: a created
    /// one where a file is to be read, a read one where one is to be created.
    ProblemConflict,
    /// The handle does not belong to the current problem of this context.
    UnknownHandle,
    /// The handle is borrowed: there is no reference to release.
    NotOwned,
    /// The reference was released before.
    AlreadyReleased,
}

} // verus!
