# replmux_runtime_cli

Replmux keeps named Jupyter kernels alive so that variables, imports and
results survive across calls, and exposes them on the command line, over a
local broker socket and as two MCP tools (`repl` and `repl-manage`).

The library under `src/` is verified with Verus. It holds the decisions and
formats of the tool, each with a contract:

- `kernel`: kernel names and files, the start-up and shut-down steps, PID
  files, the kernel list and its order.
- `kernelspec`: kernelspec lookup, command-line preparation, search
  directories and the connection document.
- `jupyter`, `hex`, `signing`: framing and HMAC-SHA-256 signing of Jupyter
  messages and the checks on a reply (HMAC by the `hmac` and `sha2` crates).
- `broker`: kernel requests and responses, the choice between the broker and
  in-process service, and the broker's answers.
- `mcp`: the JSON-RPC requests the MCP server answers and its tool calls.
- `client`, `models`: the runtime service's URL, endpoints, records and
  update requests (URLs by the `url` crate that `reqwest` re-exports).
- `render`: the lines the command line prints.
- `json`: the JSON members read from replies, bodies and connection files,
  and the small objects sent (parsed and printed by `serde_json`).
- `text`, `paths`: the string and path operations the rest is stated over.

`app/` is the `replmux` program around it: argument parsing, files,
processes, sockets, ZeroMQ, HTTP and JSON.
