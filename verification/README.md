# Telepath

Remote audio recording over the network: a host captures a microphone and
streams it over UDP to a receiver (or a DAW plugin), which plays it into a
device that the DAW records. A TCP control channel carries the handshake,
latency pings and stream statistics.

## Layout

- `src/` — the verified library.
  - `common/` — little-endian byte coding, the UDP audio packet format,
    the control channel's length-prefixed framing, the protocol messages,
    decimal text, the jitter buffer, and the session of the connecting side
    (receiver and plugin) as a state machine.
  - `host/` — the host's shared controls, its session state machine and
    packetizer, and its user interface state.
  - `receiver/` — the receiver's shared controls and user interface state.
  - `plugin/` — the plugin's connection state, settings and editor decisions.
- `app/` — the programs around the library: audio devices (cpal), the
  async network loops (tokio), MessagePack coding (rmp-serde), windows
  (iced) and the plugin glue (nih-plug).
- `tests/` — tests of the library.

Audio samples are carried through the library as the bit patterns of their
`f32` values, which are exactly the bytes that the wire format holds.
