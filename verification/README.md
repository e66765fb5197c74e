# zed_web

The protocol logic of Zed's web streaming, verified with Verus.

`src/` is the verified library:

- `wire`: the frame protocol between browser client and streaming server
  (geometry carried as IEEE-754 bit patterns).
- `client`: the frames a client sends (clicks, keys, scrolls, viewport, pongs).
- `remote_view`: the client's view state and its answers to server frames.
- `input`, `keys`: conversion of browser interactions into GPUI platform input.
- `server`: what the streaming server does with each client frame, and the
  round-trip laws from client frame to injected input.
- `inspector`: names and summaries of proto payloads and a listening session's
  bookkeeping.
- `http`: the plain HTTP answers of both servers and the WebSocket-upgrade test.
- `key_equivalents`: macOS keyboard-layout shortcut equivalents.
- `text`: character-level string helpers.

`app/` holds the programs and the browser glue: sockets, async loops, GPUI
rendering, protobuf encoding and everything that computes with floats.
