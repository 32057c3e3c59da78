# libtorrent_rasterbar

A binding to libtorrent-rasterbar whose decisions are verified with Verus.

- `src/` (verified): the values exchanged with the backend (`ffi`), the
  error type (`errors`), the flag bits the logic uses (`flags`), the
  session decisions (`session`: settings handed to the backend, results
  of creating a session and adding torrents) and the torrent-handle
  decisions (`handle`: the calls that pause and resume make, with laws on
  their effect on the torrent flags).
- `app/`: the C++ bridge (cxx) and the `LTSession` / `LTTorrentHandle`
  objects that own the backend objects, make the calls, and hand the
  answers to `src/`.
- `tests/`: tests of the verified functions.
