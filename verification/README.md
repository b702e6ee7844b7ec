# signaling

The decision logic of a WebRTC signaling server with a selective forwarding
unit (SFU), verified with Verus.

- `src/sfu.rs`: SFU rooms and the registry of rooms (add and remove
  participants; empty rooms are dropped), with laws such as "removing a
  participant just added restores the registry".
- `src/messages.rs`: the client and server messages.
- `src/session.rs`: the authentication handshake on the first frame, what
  later frames lead to, the failure reports, the "publisher left" notice when
  a publisher's connection closes, and the listening address.
- `src/dispatch.rs`: the handling of one client request as a step function
  from (stage, outcome of the last outside call) to (next stage, next action),
  with its full transition relation as the contract; a new publisher is
  announced to the room's other participants.
- `src/sdp.rs`: SDP texts checked by the `webrtc` crate.
- `app/`: the WebSocket server (tokio, tokio-tungstenite), JSON framing
  (serde), the shared SFU behind an async lock, and the drivers that perform
  the actions the library asks for.
