# failure_kit

The decision-making core of the Failure terminal agent's build tools and
remote-MCP bridge, written in Verus and proved against its contracts.

## Layout

- `src/` — the verified library.
  - `ssrf` — the private/link-local/metadata address blocklist.
  - `text`, `shell_quote`, `command_args` — string helpers, shell quoting
    for display (with its round-trip law), argument-vector builders.
  - `git`, `gh_pr`, `browser`, `tool` — the `git_*`, `gh_pr_*` and
    `browser_*` tools: argument vectors, output handling, permission-prompt
    command lines, navigation checks, messages.
  - `mcp_bridge` — the `/mcp` bridge: start/status/stop decisions, access
    token and URLs, the HTTP token check, the tunnel-URL matcher, the MCP
    tool table and call planning, the agent's message handling.
  - `cloudflare_worker` — the `/mcp-worker` credentials: masked status,
    worker-name sanitizing, URL encoding, the steps of `configure`.
  - `slash_commands` — `/mcp`, `/mcp-worker` and `/provider`.
  - `byop_setup` — the provider setup wizard's state machine and screens.
  - `theme` — the Dracula palette.
- `tests/` — tests of the library on concrete values.
- `app/` — the I/O around the library: files under `~/.failure`, DNS,
  `git`/`gh` processes, the headless browser, the HTTP server, MCP service
  and tunnel of the bridge, and the terminal's event and color types.
