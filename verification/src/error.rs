use vstd::prelude::*;

verus! {

/// Why the article store could not serve a request.
#[derive(Clone, Copy, Debug, PartialEq, Eq)]
pub enum StoreError {
    /// The handle names no stored article.
    NotFound,
    /// The storage could not be reached.
    Io,
}

/// What can go wrong while the controller works. None of these stops the
/// controller: each one ends the operation at hand and nothing else.
#[derive(Clone, Copy, Debug, PartialEq, Eq)]
pub enum PlayerError {
    /// An article could not be resolved from its handle.
    ResolutionFailure(StoreError),
    /// The player state could not be saved or loaded.
    PersistenceFailure(StoreError),
    /// A control value entered by the user is no number that can be used.
    InvalidUserInput,
    /// The device reports no usable position or duration yet.
    DeviceUnconfigured,
}

} // verus!
