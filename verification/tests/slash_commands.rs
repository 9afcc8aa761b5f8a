use failure_kit::cloudflare_worker::{CloudflareWorkerConfig, WorkerConfigStore};
use failure_kit::mcp_bridge::{BridgeSlot, McpState, RunningBridge};
use failure_kit::slash_commands::{
    eq_ignore_ascii_case, format_status, is_builtin_provider_preset, Action, CommandResult,
    McpCommand, McpWorkerCommand, ProviderCommand, ProviderPreset,
};
use failure_kit::mcp_bridge::BridgeStatus;

fn preset(id: &str, base_url: Option<&str>, requires_api_key: bool) -> ProviderPreset {
    ProviderPreset {
        id: id.to_owned(),
        display_name: id.to_owned(),
        base_url: base_url.map(|u| u.to_owned()),
        requires_api_key,
    }
}

fn presets() -> Vec<ProviderPreset> {
    vec![
        preset("xai", Some("https://api.x.ai/v1"), true),
        preset("openai", Some("https://api.openai.com/v1"), true),
        preset("anthropic", Some("https://api.anthropic.com/v1"), true),
        preset("openrouter", Some("https://openrouter.ai/api/v1"), true),
        preset("groq", Some("https://api.groq.com/openai/v1"), true),
        preset("ollama", Some("http://localhost:11434/v1"), false),
    ]
}

fn run_mcp(slot: &mut BridgeSlot<()>, args: &str) -> CommandResult {
    McpCommand.run(slot, None, 1, None, args)
}

fn empty_store() -> WorkerConfigStore {
    WorkerConfigStore { config: None, removed: false }
}

// ── /mcp ───────────────────────────────────────────────────────────────────

#[test]
fn mcp_missing_subcommand_errors() {
    let mut slot = BridgeSlot::<()>::new();
    assert!(matches!(run_mcp(&mut slot, ""), CommandResult::Error(_)));
}

#[test]
fn mcp_unknown_subcommand_errors() {
    let mut slot = BridgeSlot::<()>::new();
    assert!(matches!(run_mcp(&mut slot, "launch"), CommandResult::Error(_)));
}

#[test]
fn start_with_no_args_dispatches_action_with_defaults() {
    let mut slot = BridgeSlot::<()>::new();
    match run_mcp(&mut slot, "start") {
        CommandResult::Action(Action::McpBridgeStart { port, token }) => {
            assert_eq!(port, None);
            assert_eq!(token, None);
        }
        other => panic!("expected McpBridgeStart action, got {other:?}"),
    }
}

#[test]
fn start_with_port_and_token_dispatches_action() {
    let mut slot = BridgeSlot::<()>::new();
    match run_mcp(&mut slot, "start 8080 my-secret") {
        CommandResult::Action(Action::McpBridgeStart { port, token }) => {
            assert_eq!(port, Some(8080));
            assert_eq!(token.as_deref(), Some("my-secret"));
        }
        other => panic!("expected McpBridgeStart action, got {other:?}"),
    }
}

#[test]
fn start_with_invalid_port_errors() {
    let mut slot = BridgeSlot::<()>::new();
    assert!(matches!(run_mcp(&mut slot, "start notaport"), CommandResult::Error(_)));
}

#[test]
fn status_returns_message() {
    let mut slot = BridgeSlot::<()>::new();
    assert!(matches!(run_mcp(&mut slot, "status"), CommandResult::Message(_)));
}

#[test]
fn stop_returns_message() {
    let mut slot = BridgeSlot::<()>::new();
    assert!(matches!(run_mcp(&mut slot, "stop"), CommandResult::Message(_)));
}

#[test]
fn mcp_start_token_falls_back_to_environment() {
    let mut slot = BridgeSlot::<()>::new();
    let r = McpCommand.run(&mut slot, None, 1, Some("env-tok".to_owned()), "start 9000");
    match r {
        CommandResult::Action(Action::McpBridgeStart { port, token }) => {
            assert_eq!(port, Some(9000));
            assert_eq!(token.as_deref(), Some("env-tok"));
        }
        other => panic!("expected McpBridgeStart action, got {other:?}"),
    }
}

#[test]
fn mcp_subcommand_is_case_insensitive_and_errors_name_it() {
    let mut slot = BridgeSlot::<()>::new();
    assert!(matches!(run_mcp(&mut slot, "  STOP  "), CommandResult::Message(_)));
    match run_mcp(&mut slot, "LAUNCH") {
        CommandResult::Error(e) => assert_eq!(
            e,
            "Unknown /mcp subcommand 'launch'. Usage: /mcp start [port] [token] | /mcp status | /mcp stop"
        ),
        other => panic!("expected error, got {other:?}"),
    }
    match run_mcp(&mut slot, "start 70000") {
        CommandResult::Error(e) => assert!(e.starts_with("Invalid port '70000'")),
        other => panic!("expected error, got {other:?}"),
    }
}

#[test]
fn mcp_stop_stops_a_running_bridge() {
    let mut slot = BridgeSlot::<()>::new();
    slot.running = Some(RunningBridge {
        resources: (),
        port: 2420,
        token: "tok".to_owned(),
        public_url: None,
    });
    match run_mcp(&mut slot, "status") {
        CommandResult::Message(m) => assert!(m.starts_with(
            "MCP bridge running.\nLocal:  http://127.0.0.1:2420/mcp?token=tok"
        )),
        other => panic!("expected message, got {other:?}"),
    }
    match run_mcp(&mut slot, "stop") {
        CommandResult::Message(m) => assert_eq!(m, "MCP bridge stopped."),
        other => panic!("expected message, got {other:?}"),
    }
    assert!(slot.running.is_none());
    match run_mcp(&mut slot, "stop") {
        CommandResult::Message(m) => assert_eq!(m, "MCP bridge is not running."),
        other => panic!("expected message, got {other:?}"),
    }
}

#[test]
fn mcp_status_reports_bridge_of_another_process() {
    let mut slot = BridgeSlot::<()>::new();
    let state = McpState {
        pid: 77,
        token: "t".to_owned(),
        local_url: "http://127.0.0.1:2420/mcp?token=t".to_owned(),
        public_url: Some("https://x.trycloudflare.com/mcp?token=t".to_owned()),
        started_at: "2024-01-01T00:00:00Z".to_owned(),
    };
    match McpCommand.run(&mut slot, Some(state.clone()), 1, None, "status") {
        CommandResult::Message(m) => assert_eq!(
            m,
            "No MCP bridge running in this process, but ~/.failure/mcp.json reports one from pid 77 \
             (started 2024-01-01T00:00:00Z).\nLocal:  http://127.0.0.1:2420/mcp?token=t\nPublic: \
             https://x.trycloudflare.com/mcp?token=t"
        ),
        other => panic!("expected message, got {other:?}"),
    }
    // The state file written by this very process is ignored.
    match McpCommand.run(&mut slot, Some(state), 77, None, "status") {
        CommandResult::Message(m) => {
            assert_eq!(m, "MCP bridge is not running. Start it with `/mcp start`.")
        }
        other => panic!("expected message, got {other:?}"),
    }
}

#[test]
fn format_status_without_public_url() {
    let st = BridgeStatus {
        running: true,
        local_url: Some("http://127.0.0.1:1/mcp?token=a".to_owned()),
        public_url: None,
    };
    assert_eq!(
        format_status(&st, None),
        "MCP bridge running.\nLocal:  http://127.0.0.1:1/mcp?token=a\nNo public URL (install \
         `cloudflared` for one, or `/mcp-worker configure` for a stable URL)."
    );
}

// ── /mcp-worker ────────────────────────────────────────────────────────────

#[test]
fn mcp_worker_missing_subcommand_errors() {
    let mut store = empty_store();
    assert!(matches!(McpWorkerCommand.run(&mut store, ""), CommandResult::Error(_)));
}

#[test]
fn mcp_worker_unknown_subcommand_errors() {
    let mut store = empty_store();
    assert!(matches!(McpWorkerCommand.run(&mut store, "deploy"), CommandResult::Error(_)));
}

#[test]
fn configure_missing_token_errors() {
    let mut store = empty_store();
    assert!(matches!(McpWorkerCommand.run(&mut store, "configure"), CommandResult::Error(_)));
}

#[test]
fn configure_with_token_only_dispatches_action() {
    let mut store = empty_store();
    let result = McpWorkerCommand.run(&mut store, "configure cf-token-123");
    match result {
        CommandResult::Action(Action::ConfigureMcpWorker { api_token, worker_name, account_id }) => {
            assert_eq!(api_token, "cf-token-123");
            assert_eq!(worker_name, None);
            assert_eq!(account_id, None);
        }
        other => panic!("expected ConfigureMcpWorker action, got {other:?}"),
    }
}

#[test]
fn configure_with_all_args_dispatches_action() {
    let mut store = empty_store();
    let result = McpWorkerCommand.run(&mut store, "configure cf-token-123 my-worker acct-id");
    match result {
        CommandResult::Action(Action::ConfigureMcpWorker { api_token, worker_name, account_id }) => {
            assert_eq!(api_token, "cf-token-123");
            assert_eq!(worker_name.as_deref(), Some("my-worker"));
            assert_eq!(account_id.as_deref(), Some("acct-id"));
        }
        other => panic!("expected ConfigureMcpWorker action, got {other:?}"),
    }
}

#[test]
fn disable_returns_message() {
    let mut store = empty_store();
    assert!(matches!(McpWorkerCommand.run(&mut store, "disable"), CommandResult::Message(_)));
}

#[test]
fn mcp_worker_status_and_disable() {
    let mut store = WorkerConfigStore {
        config: Some(CloudflareWorkerConfig {
            api_token: "abcd1234wxyz9999".to_owned(),
            account_id: "acct".to_owned(),
            worker_name: "failure-mcp".to_owned(),
            enabled: true,
        }),
        removed: false,
    };
    match McpWorkerCommand.run(&mut store, "status") {
        CommandResult::Message(m) => assert!(m.ends_with("API token: abcd...9999")),
        other => panic!("expected message, got {other:?}"),
    }
    match McpWorkerCommand.run(&mut store, "disable") {
        CommandResult::Message(m) => {
            assert_eq!(m, "Cloudflare Worker access disabled and local credentials removed.")
        }
        other => panic!("expected message, got {other:?}"),
    }
    assert!(store.config.is_none());
    assert!(store.removed);
    match McpWorkerCommand.run(&mut store, "status") {
        CommandResult::Message(m) => assert_eq!(m, "Cloudflare Worker access is not configured."),
        other => panic!("expected message, got {other:?}"),
    }
}

// ── /provider ──────────────────────────────────────────────────────────────

#[test]
fn provider_missing_subcommand_errors() {
    assert!(matches!(ProviderCommand.run(&presets(), ""), CommandResult::Error(_)));
}

#[test]
fn provider_unknown_subcommand_errors() {
    assert!(matches!(ProviderCommand.run(&presets(), "remove openai"), CommandResult::Error(_)));
}

#[test]
fn setup_subcommand_opens_wizard() {
    assert!(matches!(
        ProviderCommand.run(&presets(), "setup"),
        CommandResult::Action(Action::StartByopSetup)
    ));
}

#[test]
fn known_preset_without_base_url_is_ok() {
    let result = ProviderCommand.run(&presets(), "add openai sk-test123");
    match result {
        CommandResult::Action(Action::AddProvider { name, api_key, base_url, complete_auth }) => {
            assert_eq!(name, "openai");
            assert_eq!(api_key, "sk-test123");
            assert_eq!(base_url, None);
            assert!(!complete_auth);
        }
        other => panic!("expected AddProvider action, got {other:?}"),
    }
}

#[test]
fn openrouter_preset_without_base_url_is_ok() {
    let result = ProviderCommand.run(&presets(), "add openrouter sk-or-test");
    assert!(matches!(
        result,
        CommandResult::Action(Action::AddProvider { name, .. }) if name == "openrouter"
    ));
}

#[test]
fn custom_name_without_base_url_errors() {
    let result = ProviderCommand.run(&presets(), "add my-custom-thing sk-test123");
    assert!(matches!(result, CommandResult::Error(_)));
}

#[test]
fn custom_name_with_base_url_is_ok() {
    let result = ProviderCommand.run(
        &presets(),
        "add zandy-worker orch_test_abc https://ai-orchestrator-worker.example.dev/v1",
    );
    match result {
        CommandResult::Action(Action::AddProvider { name, api_key, base_url, .. }) => {
            assert_eq!(name, "zandy-worker");
            assert_eq!(api_key, "orch_test_abc");
            assert_eq!(base_url.as_deref(), Some("https://ai-orchestrator-worker.example.dev/v1"));
        }
        other => panic!("expected AddProvider action, got {other:?}"),
    }
}

#[test]
fn provider_error_messages() {
    match ProviderCommand.run(&presets(), "add my-custom-thing sk-test123") {
        CommandResult::Error(e) => assert_eq!(
            e,
            "'my-custom-thing' isn't a built-in provider (xai/openai/anthropic/openrouter/groq/ollama), \
             so a base URL is required. Usage: /provider add <name> <api-key> [base-url]  |  /provider setup"
        ),
        other => panic!("expected error, got {other:?}"),
    }
    match ProviderCommand.run(&presets(), "ADD") {
        CommandResult::Error(e) => assert!(e.starts_with("Missing provider name.")),
        other => panic!("expected error, got {other:?}"),
    }
    match ProviderCommand.run(&presets(), "add openai") {
        CommandResult::Error(e) => assert!(e.starts_with("Missing API key.")),
        other => panic!("expected error, got {other:?}"),
    }
    assert!(matches!(
        ProviderCommand.run(&presets(), "SeTuP"),
        CommandResult::Action(Action::StartByopSetup)
    ));
}

#[test]
fn preset_lookup_and_case_folding() {
    assert!(is_builtin_provider_preset(&presets(), "ollama"));
    assert!(!is_builtin_provider_preset(&presets(), "Ollama"));
    assert!(eq_ignore_ascii_case("SeTuP", "setup"));
    assert!(!eq_ignore_ascii_case("setup", "setups"));
}
