# autodesk

The verified core of a remote-desktop tool made of a signaling server and a
desktop client.

- `src/signaling/`: the signaling server. Hosts register and receive a
  nine-digit connection code and a six-digit password; controllers join a
  session with them; WebRTC session descriptions and ICE candidates are
  relayed between paired clients; a disconnect closes the sessions the client
  hosted and tells its peer. `model.rs` states each transition over
  mathematical maps, `server.rs` implements it, `laws.rs` proves properties
  that span several requests.
- `src/config.rs`, `src/config_laws.rs`: the client configuration, the
  choice and order of signaling servers, start-up and update rules, and the
  error texts.
- `src/input.rs`: remote key names, mouse buttons and wheel events mapped
  onto keyboard and mouse actions.
- `src/capture.rs`: the capture on/off state, the choice of the primary
  monitor, and the encoding of a frame into Base64 JPEG text.
- `src/strmap.rs`: the string-keyed map the server state is kept in.
- `app/`: the programs around the library: the WebSocket server, the
  configuration file and configuration center, the input device, and the
  screen-capture thread.
