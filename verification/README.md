# fozmo

The playback core of a multi-zone music player, with its decisions verified in
Verus.

- `src/protocol` holds the vocabulary that the core, its agents and its clients
  share: sources, zones, sinks, signal paths and commands.
- `src/playback` decides how requests become sound on a zone: request
  sequencing, queues and radio, routing to local players, agents, Sonos
  speakers and UPnP renderers, zone settings, transfers and the status document.
- `src/playback/upnp_dsp` plans what a renderer is given and produces it byte by
  byte: render plans and signatures, WAV, DoP, DSF and FLAC files, and the
  ranges of streams that are generated while they are fetched.
- `src/audio.rs`, `src/bytes.rs`, `src/digest.rs` and `src/text.rs` are what
  the rest is built on.
- `app/` is the unverified side: wire formats, decoding, floating-point signal
  processing, files and network I/O around the library's decisions.

Floating-point numbers pass through the library as bit patterns. What the
library believes of other crates is stated at the functions marked
`external_body`, in `src/digest.rs`, `src/playback/queue.rs` and
`src/playback/upnp_dsp/flac.rs`; what it believes of the standard library
stands in `src/text.rs`.
