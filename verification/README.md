# amule-mcp

An MCP (Model Context Protocol) server that lets a model control an aMule
instance running in Docker. It reads JSON-RPC 2.0 requests from stdin, one per
line, answers `initialize`, `tools/list` and `tools/call`, and runs the tool
calls as `amulecmd` commands through `docker exec`.

- `src/` is the library, verified with Verus: the JSON model, the checks on
  links and priorities, the responses, the tool catalog, the decision of what
  each request comes to, and the laws that hold of the server as a whole.
- `app/main.rs` is the program: it parses and prints JSON with serde_json,
  reads `AMULE_CONTAINER` (default `amule`) and `AMULE_PASSWORD`, and runs
  `docker` with tokio.
- `tests/` runs the library on concrete requests.
