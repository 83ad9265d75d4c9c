# mcp_cli

A small framework for exposing the same command implementation through a CLI
JSON surface and a Model Context Protocol (MCP) stdio server, written in Verus.

## Layout

- `src/` — the verified library.
  - `json.rs`: the JSON document model (`JsonValue`) and its mathematical view
    (`Json`), lookup, copying and decimal numbers.
  - `json_text.rs`: reading and writing JSON text through `serde_json`.
  - `envelope.rs`: error categories, envelope metadata, structured errors and the
    success/error envelope with its JSON form.
  - `tools.rs`: tool metadata, tools, registration rules (non-blank unique names,
    object input schemas) and dispatch.
  - `framing.rs`: newline-delimited framing with a frame-size cap: the
    `FrameReader` decisions between bounded reads, and a reader over a buffer.
  - `protocol.rs`: JSON-RPC request decoding, responses, protocol version
    negotiation, batches, and the `McpServer` that answers frames.
  - `error.rs`: the crate's error type.
  - `laws.rs`: properties proved across inputs (notifications, ids, batches,
    negotiation, dispatch, framing bounds).
- `app/` — ordinary Rust beside the library: serde/JSON Schema copies of the
  library types, typed tool construction over user input/output types with
  panic containment, `write_json_result`, and the stdio transport's I/O loop.
- `tests/` — tests of the library.
