//! Verified core of a libtorrent-rasterbar binding: the values exchanged
//! with the libtorrent backend, the error type of the API, and the decisions
//! that the session and torrent-handle operations take around each backend
//! call.

pub mod errors;
pub mod ffi;
pub mod flags;
pub mod handle;
pub mod session;

pub use errors::{LTError, LTResult};
pub use ffi::{
    AddTorrentParams, AnnounceEndpoint, AnnounceEntry, AnnounceInfoHash, BlockInfo, FileEntry,
    InfoHash, Log, ParamPair, PartialPieceInfo, PieceInfo, TorrentInfo, TwoSessionStats,
};
