# livestream

A library of live-streaming media logic with its behaviour stated in contracts
and proved by Verus: RTP and FLV packet formats, Annex B and AVCC framing, HLS
segmentation and playlists, transcoding, pipeline wiring, demand and delivery
between pads, configuration and its validation. Where work alternates with
decisions (muxing a segment, encoding a frame, opening a demuxer, shutting down),
the library says what comes next and the surroundings do it.

- `src/` is the verified library.
- `tests/` runs it on concrete values.
- `app/` is ordinary Rust around it: FFmpeg, files, async tasks, telemetry.

The library calls `bytes`, `rml_rtmp` (with `rml_amf0`), `crossfire` and tokio's
broadcast channels through declarations whose contracts are believed; each says
what it claims. Everything else is proved.
