//! The decisions of the session operations around their backend calls: the
//! settings handed to the backend, and how the backend's answer becomes the
//! result of the API.

use vstd::prelude::*;
use crate::errors::{LTError, LTResult};
use crate::ffi::{AddTorrentParams, ParamPair};

verus! {

/// The `(key, value)` settings as the backend takes them: one pair for each
/// setting, in the order given.
pub fn param_pairs<'a>(list: &[(&'a str, &'a str)]) -> (pairs: Vec<ParamPair<'a>>)
    ensures
        pairs@.len() == list@.len(),
        forall|i: int|
            0 <= i < list@.len() ==> (#[trigger] pairs@[i]).key == list@[i].0
                && pairs@[i].value == list@[i].1,
{
    let mut pairs: Vec<ParamPair<'a>> = Vec::new();
    let n: usize = list.len();
    let mut i: usize = 0;
    while i < n
        invariant
            n == list@.len(),
            i <= n,
            pairs@.len() == i,
            forall|j: int|
                0 <= j < i ==> (#[trigger] pairs@[j]).key == list@[j].0
                    && pairs@[j].value == list@[j].1,
        decreases n - i,
    {
        let (key, value) = list[i];
        pairs.push(ParamPair { key, value });
        i = i + 1;
    }
    pairs
}

/// The result of creating a session, from what the backend answered: its
/// session, or the message of the exception it threw.
pub fn session_result<S>(outcome: Result<S, String>) -> (r: LTResult<S>)
    ensures
        match outcome {
            Ok(s) => r == Ok::<S, LTError>(s),
            Err(m) => r == Err::<S, LTError>(LTError::FailedToCreateSession(m)),
        },
{
    match outcome {
        Ok(s) => Ok(s),
        Err(m) => Err(LTError::FailedToCreateSession(m)),
    }
}

/// The result of adding a torrent file, from what the backend answered.
pub fn add_torrent_result(outcome: Result<AddTorrentParams, String>) -> (r: LTResult<AddTorrentParams>)
    ensures
        match outcome {
            Ok(p) => r == Ok::<AddTorrentParams, LTError>(p),
            Err(m) => r == Err::<AddTorrentParams, LTError>(LTError::FailedToAddTorrent(m)),
        },
{
    match outcome {
        Ok(p) => Ok(p),
        Err(m) => Err(LTError::FailedToAddTorrent(m)),
    }
}

/// The result of adding a magnet link, from what the backend answered.
pub fn add_magnet_result(outcome: Result<AddTorrentParams, String>) -> (r: LTResult<AddTorrentParams>)
    ensures
        match outcome {
            Ok(p) => r == Ok::<AddTorrentParams, LTError>(p),
            Err(m) => r == Err::<AddTorrentParams, LTError>(LTError::FailedToAddMagnet(m)),
        },
{
    match outcome {
        Ok(p) => Ok(p),
        Err(m) => Err(LTError::FailedToAddMagnet(m)),
    }
}

} // verus!
