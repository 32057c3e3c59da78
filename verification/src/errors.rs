use vstd::prelude::*;

verus! {

/// Errors reported by the session API. Each variant carries the message of
/// the backend exception that caused it.
#[derive(Debug, Clone, PartialEq, Eq)]
pub enum LTError {
    /// the backend could not create a session
    FailedToCreateSession(String),
    /// the backend refused a torrent file
    FailedToAddTorrent(String),
    /// the backend refused a magnet link
    FailedToAddMagnet(String),
}

/// The result type of the session API.
pub type LTResult<T> = Result<T, LTError>;

} // verus!
