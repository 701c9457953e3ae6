# warp_pane_activity

The decision logic behind Warp's pane activity coloring and its local-control
MCP server, as a Verus-verified library.

- `src/activity_status.rs` — which activity status a terminal pane shows,
  from the agent conversation, the CLI agent session and the PTY output
  timing; laws on the order of the sources, the non-rich output gate and the
  rich idle backstop.
- `src/agent_session.rs` — conversation statuses and CLI agent sessions.
- `src/pane_settings.rs` — pane color mode, activity states, activity colors
  and the pane settings group with their TOML paths.
- `src/setting_path.rs` — the table and key of a dotted TOML path.
- `src/pane_view.rs` — content color preservation and agent icon status.
- `src/control.rs` — local-control actions, errors and permission checks.
- `src/blocks.rs` — which blocks a block list or block read selects, and
  output truncation.
- `src/mcp.rs` — MCP tool arguments, instance selection and the control
  parameters each tool sends.
- `src/text.rs` — string comparison, whitespace trimming and decimal
  formatting, and the std integer parsing the library calls, with their
  contracts.

`app/` holds the I/O: the rmcp stdio server, the serde forms of the library's
types and the JSON of terminal blocks.
