# matrix-relay

A Matrix relay daemon: it syncs a Matrix room, answers `!help` in chat, and
on a Unix control socket accepts triggers that have a report fetched from a
"generate message" MCP server and posted to the room.

- `src/` is the verified library (Verus):
  - `text` — Unicode white space, trimming and ASCII case folding;
  - `messaging` — chat-command recognition, the reply to a message, the
    content of an outgoing message (Markdown rendered by matrix-sdk) and the
    destination of a one-off message (room ID or alias, parsed by matrix-sdk);
  - `control` — the control socket's request/response protocol and framing;
  - `mcp` — the Markdown listing of the MCP server's tools, and the text of
    a report resource.
- `app/` is the program around it: command line, Matrix and MCP clients,
  socket I/O and JSON encoding.
- `tests/` runs the library against the real outside crates.
