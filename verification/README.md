# godot_mcp

The verified core of a Model Context Protocol (MCP) server for the Godot engine, written
in Verus.

- `src/` is the library, verified by Verus:
  - `json` — the JSON document model that requests, tool arguments, schemas and editor
    replies carry;
  - `protocol` — JSON-RPC responses and the MCP tool types (`Tool`, `ToolResult`);
  - `error` — the server's error type and its messages;
  - `text` — decimal rendering, white-space trimming, prefix/suffix/infix tests and
    lexicographic order over the `Seq<char>` view of strings;
  - `config` — settings and where the Godot executable is looked for;
  - `bridge` — the editor bridge: its address, command framing and the decision taken on
    each WebSocket message while a command waits for its reply;
  - `cli_runner` — the command lines of headless Godot runs and how their outcomes read;
  - `tools` — the tool catalogue (`tools/list`) and the state machine of a tool call;
  - `server` — how each JSON-RPC request is answered.
- `app/` is the program around it: command line and environment, the WebSocket
  connection, processes, files, and the standard-I/O loop. It performs the work that the
  library's state machines ask for and hands back what happened.
- `tests/` exercises the library on concrete values.
