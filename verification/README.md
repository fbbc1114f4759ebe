# rdp_remote

A remote-desktop system whose decision logic is verified with Verus: a
signaling server that authenticates devices and relays their WebRTC
negotiation, an agent that shares its screen, and a client that views it.

## Layout

- `src/` — the verified library.
  - `server.rs`, `server_auth.rs`: the server's handling of a connection
    (authenticate, register, relay) as a state machine, and token
    claims, issue and checking.
  - `session.rs`, `rtc.rs`, `signaling.rs`: the agent's and the client's
    signaling, the pacing of streamed frames, peer states and messages.
  - `adaptive.rs`, `frame_skipper.rs`, `content_detector.rs`, `roi.rs`:
    bandwidth tiers, frame skipping, change detection and changed-tile
    regions.
  - `screen.rs`, `encoder.rs`, `render.rs`, `input.rs`: captured frames and
    their row copy, the encoder interface, the renderer's texture and window
    decisions, and the mapping of remote input to system input.
  - `file_transfer.rs`, `clipboard.rs`, `client_clipboard.rs`,
    `device_auth.rs`, `protocol.rs`: file-transfer state machines, clipboard
    change tracking and tool order, device passwords, encoded frames.
  - `clock.rs`, `text.rs`: durations and the clock; decimal text.
- `tests/` — tests of the library.
- `app/` — the programs around it: `server`, `agent` and `client`
  subcommands with the WebSocket, WebRTC and JSON plumbing.
