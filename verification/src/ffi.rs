//! The plain values exchanged with the libtorrent backend.

use vstd::prelude::*;

verus! {

/// One `key = value` setting handed to the backend, borrowed from the caller.
#[derive(Debug)]
pub struct ParamPair<'a> {
    pub key: &'a str,
    pub value: &'a str,
}

/// One file of a torrent.
#[derive(Debug)]
pub struct FileEntry {
    pub file_path: String,
    pub file_name: String,
    pub file_size: u64,
}

/// What a .torrent file describes (libtorrent's `torrent_info`).
#[derive(Debug)]
pub struct TorrentInfo {
    /// the files of the torrent
    pub files: Vec<FileEntry>,
    /// tracker URLs
    pub trackers: Vec<String>,
    /// info-hashes of similar torrents (BEP 38)
    pub similar_torrents: Vec<String>,
    /// collections this torrent belongs to (BEP 38)
    pub collections: Vec<String>,
    /// web seeds (HTTP/URL seeds)
    pub web_seeds: Vec<String>,
    /// DHT nodes, as host name and port
    pub nodes: Vec<String>,
    /// number of bytes the torrent represents, pad files included
    pub total_size: u64,
    /// bytes per piece
    pub piece_length: u32,
    /// number of pieces
    pub num_pieces: u32,
    /// blocks in a typical piece
    pub blocks_per_piece: u32,
    /// the (v1) info-hash
    pub info_hash: String,
    /// number of files
    pub num_files: u32,
    /// UTF-8 name of the torrent
    pub name: String,
    /// posix creation time, 0 when the file has none
    pub creation_date: i64,
    /// creator string, empty when absent
    pub creator: String,
    /// UTF-8 comment, empty when absent
    pub comment: String,
    /// x509 certificate, empty unless an SSL torrent
    pub ssl_cert: String,
    /// a private torrent
    pub is_private: bool,
    /// an i2p torrent
    pub is_i2p: bool,
}

/// The state of one block of a piece.
#[derive(Debug)]
pub struct BlockInfo {
    /// bytes received for this block
    pub bytes_progress: u32,
    /// bytes in this block
    pub block_size: u32,
    /// libtorrent's `block_state_t`: none, requested, writing, finished
    pub state: u8,
    /// peers currently requesting this block
    pub num_peers: u32,
}

/// A piece with outstanding requests or writes.
#[derive(Debug)]
pub struct PartialPieceInfo {
    pub piece_index: i32,
    /// blocks in this piece (the last piece may have fewer)
    pub blocks_in_piece: i32,
    /// blocks in the finished state
    pub finished: i32,
    /// blocks in the writing state
    pub writing: i32,
    /// blocks in the requested state
    pub requested: i32,
    /// one entry per block of the piece
    pub blocks: Vec<BlockInfo>,
}

/// The download queue of a torrent.
#[derive(Debug)]
pub struct PieceInfo {
    pub partial_pieces: Vec<PartialPieceInfo>,
    pub blocks: Vec<BlockInfo>,
}

/// The state of one tracker endpoint for one info-hash.
#[derive(Debug)]
pub struct AnnounceInfoHash {
    /// error or warning message of the tracker
    pub message: String,
    /// message of the last error
    pub last_error: String,
    /// time of the next announce, in seconds
    pub next_announce: i64,
    /// no announce before this time
    pub min_announce: i64,
    /// scrape data, -1 when the tracker sent none
    pub scrape_incomplete: i32,
    pub scrape_complete: i32,
    pub scrape_downloaded: i32,
    /// announces that failed in a row
    pub fails: u8,
    /// waiting for a tracker response
    pub updating: bool,
    /// event=started was acknowledged
    pub start_sent: bool,
    /// event=completed was sent
    pub complete_sent: bool,
    pub triggered_manually: bool,
}

/// One listen socket announcing to one tracker.
#[derive(Debug)]
pub struct AnnounceEndpoint {
    /// local endpoint, as ip:port
    pub local_endpoint: String,
    /// the v1 info-hash state first, then the v2 one
    pub info_hashes: Vec<AnnounceInfoHash>,
    /// whether this endpoint announces
    pub enabled: bool,
}

/// One tracker of a torrent.
#[derive(Debug)]
pub struct AnnounceEntry {
    /// tracker URL as in the torrent file
    pub url: String,
    /// the `&trackerid=` argument, usually empty
    pub trackerid: String,
    /// state per local endpoint
    pub endpoints: Vec<AnnounceEndpoint>,
    /// tier of the tracker
    pub tier: u8,
    /// failures in a row before the tracker is dropped, 0 for no limit
    pub fail_limit: u8,
    /// bitmask of where the tracker came from: torrent file, client,
    /// magnet link, tracker exchange
    pub source: u8,
    /// a valid response has been received
    pub verified: bool,
}

/// One line of the session log.
#[derive(Debug)]
pub struct Log {
    pub message: String,
    pub timestamp: i64,
}

/// Two consecutive samples of the session counters.
#[derive(Debug)]
pub struct TwoSessionStats {
    pub stats: Vec<i64>,
    pub timestamp: i64,
    pub prev_stats: Vec<i64>,
    pub prev_timestamp: i64,
}

/// The v1 and v2 info-hashes of a torrent.
#[derive(Debug)]
pub struct InfoHash {
    pub v1: String,
    pub v2: String,
}

/// What the backend reports of a torrent it has added.
#[derive(Debug)]
pub struct AddTorrentParams {
    pub version: i32,
    pub name: String,
    pub save_path: String,
    pub info_hash: String,
    pub info_hashes: InfoHash,
}

} // verus!
