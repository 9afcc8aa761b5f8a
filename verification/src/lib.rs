//! Verified core of the Failure Build tool crate: SSRF address filtering,
//! slash-command parsing, the provider-setup wizard, the MCP bridge's
//! decisions, and the command lines of the `git`/`gh`/browser tools.

pub mod ssrf;
pub mod text;
pub mod mcp_bridge;
pub mod cloudflare_worker;
pub mod slash_commands;
pub mod tool;
pub mod shell_quote;
pub mod command_args;
pub mod gh_pr;
pub mod git;
pub mod browser;
pub mod byop_setup;
pub mod theme;
