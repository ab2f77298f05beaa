# takeflight

The protocol logic of the TakeFlight drone ground station, verified with
Verus, and the program around it.

- `src/` — the verified library:
  - `tello/` — the Tello binary protocol (CRC-8/CRC-16 framing, command
    packets, stick packets, flight status), the connection state and the
    reassembly of its H.264 video;
  - `drone_pro.rs` — the "Drone Pro" command packets, its RTSP session
    identifier and its RTP/JPEG frame reassembly;
  - `video/` — RTP and RTP/JPEG headers, JPEG image building (RFC 2435),
    NAL header bytes and the video thread's work queue;
  - `network.rs` — the client channel: handshakes, information packets and
    framed images;
  - `server.rs` — the decisions of the event loop;
  - `vision.rs` — hand landmark types.
- `app/` — the program: sockets, threads, logging, image encoding and the
  floating-point helpers, calling the library for every protocol decision.
- `tests/` — tests of the library.

Multi-byte fields that the protocols leave in host order are read and
written little-endian.
