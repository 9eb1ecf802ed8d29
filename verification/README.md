# paper_cli

A command-line client for the MCP server inside Paper Desktop, whose decisions are
verified with Verus.

The `paper` program discovers Paper's live tool catalog, calls any tool, captures
screenshots of nodes, selections and artboards, reads the current file's context, and
upgrades itself and its agent skill.

## Layout

- `src/` is the verified library. Every function states its behaviour in `requires` /
  `ensures` contracts over mathematical models of its data, and Verus proves them; the
  small functions marked `#[verifier::external_body]` that call serde_json, base64 and std
  are trusted, their contracts taken from those libraries' documentation and source.
  - `json.rs`: the model of JSON values and the operations on `serde_json::Value`.
  - `text.rs`, `results.rs`: texts, and reading sequences where the first failure wins.
  - `sse.rs`: the data blocks of a server-sent event stream.
  - `mcp.rs`: JSON-RPC messages, the MCP session, replies, tool calls (Paper's
    instructions are always fetched first), and paging through the tool list.
  - `context.rs`: the active file, page, artboards and selection, and the capture of a
    screenshot one answer of Paper at a time.
  - `output.rs`: what a tool result becomes: JSON, text, or one image for a file.
  - `cli.rs`: the JSON arguments of commands and what the commands print.
  - `upgrade.rs`: the order of an upgrade and its report.
  - `record.rs`: the outside world (Paper's tools, upgrade steps, standard input and
    files) used through `Recorded`, which keeps a ghost record of every exchange; the
    commands that talk to it state their exchanges, in order, over that record.
- `tests/` runs the library on concrete values.
- `app/` is the program around it: argument parsing, HTTP, standard input and output,
  files and processes.
