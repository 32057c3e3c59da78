use vstd::prelude::*;

verus! {

/// libtorrent's `torrent_flags::auto_managed` (bit 5 of the torrent flags):
/// the session's queue logic may pause and resume the torrent.
pub const AUTO_MANAGED: u64 = 0x20;

/// libtorrent's `torrent_handle::graceful_pause` (bit 0 of the pause flags):
/// finish outstanding requests before disconnecting peers.
pub const GRACEFUL_PAUSE: u8 = 0x01;

} // verus!
