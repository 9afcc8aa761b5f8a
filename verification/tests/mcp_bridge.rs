use failure_kit::mcp_bridge::tools::JsonType;
use failure_kit::shell_quote::shell_single_quote;
use base64::Engine;
use failure_kit::mcp_bridge::agent::{collect_chunk, collect_chunks, prompt_timeout_error};
use failure_kit::mcp_bridge::tools::{plan_tool_call, AgentCall, ToolCallArgs};
use failure_kit::mcp_bridge::agent::{
    auto_respond_to_permissions, handle_bridge_message, BridgeMessage, BridgeReply, PermissionOption,
    PermissionOptionKind,
};
use failure_kit::mcp_bridge::auth::{is_authorized, query_pairs};
use failure_kit::mcp_bridge::tools::{
    chat_cwd, list_sessions_request, rpc_method_allowed, rpc_rejection_message, send_timeout_ms,
    tool_from_name, tool_name_of, tools, unknown_tool_message, BridgeTool, DEFAULT_TIMEOUT_MS,
};
use failure_kit::mcp_bridge::tunnel::find_tunnel_url;
use failure_kit::mcp_bridge::{
    external_state, finish_start, generate_token, local_url, public_url, start_request, status,
    stop, BridgeSlot, McpState, StartPlan, DEFAULT_PORT,
};

fn opt(id: &str, kind: PermissionOptionKind) -> PermissionOption {
    PermissionOption { option_id: id.to_owned(), kind }
}

#[test]
fn bridge_urls() {
    assert_eq!(local_url(2420, "abc"), "http://127.0.0.1:2420/mcp?token=abc");
    assert_eq!(local_url(0, ""), "http://127.0.0.1:0/mcp?token=");
    assert_eq!(
        public_url("https://a-b.trycloudflare.com", "t"),
        "https://a-b.trycloudflare.com/mcp?token=t"
    );
}

#[test]
fn generated_token_is_url_safe_base64_of_24_bytes() {
    let t = generate_token();
    assert_eq!(t.len(), 32);
    assert!(t.chars().all(|c| c.is_ascii_alphanumeric() || c == '-' || c == '_'));
    assert_ne!(t, generate_token());
}

#[test]
fn start_then_status_then_stop() {
    let mut slot = BridgeSlot::<u8>::new();
    match start_request(&slot, None, Some("tok".to_owned())) {
        StartPlan::Launch { port, token } => {
            assert_eq!(port, DEFAULT_PORT);
            assert_eq!(token, "tok");
        }
        StartPlan::AlreadyRunning(_) => panic!("nothing runs yet"),
    }
    match start_request(&slot, Some(9), None) {
        StartPlan::Launch { port, token } => {
            assert_eq!(port, 9);
            assert_eq!(token.len(), 32);
        }
        StartPlan::AlreadyRunning(_) => panic!("nothing runs yet"),
    }
    let (st, record) = finish_start(
        &mut slot,
        7,
        2421,
        "tok".to_owned(),
        Some("https://x.trycloudflare.com".to_owned()),
        42,
        "now".to_owned(),
    );
    assert!(st.running);
    assert_eq!(st.local_url.as_deref(), Some("http://127.0.0.1:2421/mcp?token=tok"));
    assert_eq!(st.public_url.as_deref(), Some("https://x.trycloudflare.com/mcp?token=tok"));
    assert_eq!(record.pid, 42);
    assert_eq!(record.local_url, "http://127.0.0.1:2421/mcp?token=tok");
    assert_eq!(record.public_url, st.public_url);
    assert_eq!(record.started_at, "now");
    let again = status(&slot);
    assert_eq!(again.local_url, st.local_url);
    match start_request(&slot, Some(1), None) {
        StartPlan::AlreadyRunning(s) => assert_eq!(s.local_url, st.local_url),
        StartPlan::Launch { .. } => panic!("a second start reports the running bridge"),
    }
    assert!(stop(&mut slot));
    assert!(!stop(&mut slot));
    let off = status(&slot);
    assert!(!off.running);
    assert!(off.local_url.is_none() && off.public_url.is_none());
}

#[test]
fn external_state_ignores_own_pid() {
    let st = McpState {
        pid: 5,
        token: "t".to_owned(),
        local_url: "u".to_owned(),
        public_url: None,
        started_at: "s".to_owned(),
    };
    assert!(external_state(Some(st.clone()), 5).is_none());
    assert_eq!(external_state(Some(st), 6).map(|s| s.pid), Some(5));
    assert!(external_state(None, 6).is_none());
}

#[test]
fn authorization_by_header_or_query() {
    assert!(is_authorized(Some("Bearer s3cret"), None, "s3cret"));
    assert!(!is_authorized(Some("Bearer wrong"), None, "s3cret"));
    assert!(!is_authorized(Some("s3cret"), None, "s3cret"));
    assert!(is_authorized(None, Some("a=1&token=s3cret"), "s3cret"));
    assert!(is_authorized(None, Some("token=a%2Bb"), "a+b"));
    assert!(!is_authorized(None, Some("tokens=s3cret"), "s3cret"));
    assert!(!is_authorized(None, None, "s3cret"));
    assert!(is_authorized(Some("Bearer x"), Some("token=s3cret"), "s3cret"));
}

#[test]
fn query_pairs_decodes() {
    let p = query_pairs("a=1&b=x+y&c=%41");
    assert_eq!(
        p,
        vec![
            ("a".to_owned(), "1".to_owned()),
            ("b".to_owned(), "x y".to_owned()),
            ("c".to_owned(), "A".to_owned())
        ]
    );
}

#[test]
fn tunnel_url_is_found_in_cloudflared_output() {
    let line = "2024-01-01 INF |  https://quiet-river-12.trycloudflare.com  |";
    assert_eq!(
        find_tunnel_url(line).as_deref(),
        Some("https://quiet-river-12.trycloudflare.com")
    );
    assert_eq!(find_tunnel_url("https://.trycloudflare.com"), None);
    assert_eq!(find_tunnel_url("https://Upper.trycloudflare.com"), None);
    assert_eq!(find_tunnel_url("no url here"), None);
    assert_eq!(
        find_tunnel_url("https://x.example.com https://a.trycloudflare.com https://b.trycloudflare.com")
            .as_deref(),
        Some("https://a.trycloudflare.com")
    );
}

#[test]
fn tool_names_round_trip() {
    for t in [
        BridgeTool::NewChat,
        BridgeTool::ContinueChat,
        BridgeTool::SendMessage,
        BridgeTool::ListSessions,
        BridgeTool::Status,
        BridgeTool::Rpc,
    ] {
        assert_eq!(tool_from_name(tool_name_of(t)), Some(t));
    }
    assert_eq!(tool_from_name("failure_nope"), None);
    assert_eq!(unknown_tool_message("x"), "unknown tool: x");
    let ts = tools();
    assert_eq!(ts.len(), 6);
    assert_eq!(ts[0].name, "failure_new_chat");
    assert_eq!(ts[5].name, "failure_rpc");
}

#[test]
fn tool_call_defaults() {
    assert_eq!(send_timeout_ms(None), DEFAULT_TIMEOUT_MS);
    assert_eq!(DEFAULT_TIMEOUT_MS, 30 * 60 * 1000);
    assert_eq!(send_timeout_ms(Some(5)), 5);
    let home = "/home".to_owned();
    assert_eq!(chat_cwd(None, &home), "/home");
    assert_eq!(chat_cwd(Some("/w".to_owned()), &home), "/w");
    let (m, limit) = list_sessions_request();
    assert_eq!(m, "x.ai/session/list");
    assert_eq!(limit, 100);
}

#[test]
fn rpc_forwards_only_xai_methods() {
    assert!(rpc_method_allowed("x.ai/session/list"));
    assert!(rpc_method_allowed("x.ai/"));
    assert!(!rpc_method_allowed("x.ai"));
    assert!(!rpc_method_allowed("session/new"));
    assert!(rpc_rejection_message("session/new").contains("(got `session/new`)"));
}

#[test]
fn permissions_prefer_allow_once() {
    let opts = vec![
        opt("r", PermissionOptionKind::RejectOnce),
        opt("always", PermissionOptionKind::AllowAlways),
        opt("once", PermissionOptionKind::AllowOnce),
        opt("once2", PermissionOptionKind::AllowOnce),
    ];
    assert_eq!(auto_respond_to_permissions(&opts).as_deref(), Some("once"));
    let opts = vec![
        opt("r", PermissionOptionKind::RejectAlways),
        opt("always", PermissionOptionKind::AllowAlways),
    ];
    assert_eq!(auto_respond_to_permissions(&opts).as_deref(), Some("always"));
    let opts = vec![opt("r", PermissionOptionKind::RejectOnce)];
    assert_eq!(auto_respond_to_permissions(&opts), None);
    assert_eq!(auto_respond_to_permissions(&Vec::new()), None);
}

#[test]
fn bridge_messages_are_answered() {
    let r = handle_bridge_message(BridgeMessage::SessionUpdate {
        session_id: "s1".to_owned(),
        text: Some("hello".to_owned()),
    });
    assert_eq!(r, BridgeReply::Ack { forward: Some(("s1".to_owned(), "hello".to_owned())) });
    let r = handle_bridge_message(BridgeMessage::SessionUpdate {
        session_id: "s1".to_owned(),
        text: Some(String::new()),
    });
    assert_eq!(r, BridgeReply::Ack { forward: None });
    let r = handle_bridge_message(BridgeMessage::SessionUpdate { session_id: "s1".to_owned(), text: None });
    assert_eq!(r, BridgeReply::Ack { forward: None });
    let r = handle_bridge_message(BridgeMessage::RequestPermission {
        options: vec![opt("a", PermissionOptionKind::AllowAlways), opt("o", PermissionOptionKind::AllowOnce)],
    });
    assert_eq!(r, BridgeReply::Permission(Some("o".to_owned())));
    let r = handle_bridge_message(BridgeMessage::RequestPermission {
        options: vec![opt("r", PermissionOptionKind::RejectAlways)],
    });
    assert_eq!(r, BridgeReply::Permission(None));
    assert_eq!(handle_bridge_message(BridgeMessage::ExtNotification), BridgeReply::Ack { forward: None });
    assert_eq!(handle_bridge_message(BridgeMessage::WaitForTerminalExit), BridgeReply::TerminalUnsupported);
    assert_eq!(handle_bridge_message(BridgeMessage::Other), BridgeReply::Ignore);
}

#[test]
fn tool_calls_are_planned() {
    let home = "/home/me".to_owned();
    match plan_tool_call::<()>(ToolCallArgs::NewChat { cwd: None }, &home) {
        AgentCall::NewChat { cwd } => assert_eq!(cwd, "/home/me"),
        _ => panic!("new chat"),
    }
    match plan_tool_call::<()>(
        ToolCallArgs::ContinueChat { session_id: "s".to_owned(), cwd: Some("/w".to_owned()) },
        &home,
    ) {
        AgentCall::ContinueChat { session_id, cwd } => {
            assert_eq!(session_id, "s");
            assert_eq!(cwd, "/w");
        }
        _ => panic!("continue chat"),
    }
    match plan_tool_call::<()>(
        ToolCallArgs::SendMessage { session_id: "s".to_owned(), message: "hi".to_owned(), timeout_ms: None },
        &home,
    ) {
        AgentCall::SendMessage { timeout_ms, message, .. } => {
            assert_eq!(timeout_ms, 1_800_000);
            assert_eq!(message, "hi");
        }
        _ => panic!("send message"),
    }
    match plan_tool_call::<()>(ToolCallArgs::ListSessions, &home) {
        AgentCall::ListSessions { method, cwd, limit } => {
            assert_eq!(method, "x.ai/session/list");
            assert_eq!(cwd, "/home/me");
            assert_eq!(limit, 100);
        }
        _ => panic!("list sessions"),
    }
    match plan_tool_call(ToolCallArgs::Rpc { method: "x.ai/session/rename".to_owned(), params: 7u8 }, &home) {
        AgentCall::Rpc { method, params } => {
            assert_eq!(method, "x.ai/session/rename");
            assert_eq!(params, 7);
        }
        _ => panic!("rpc is forwarded"),
    }
    match plan_tool_call(ToolCallArgs::Rpc { method: "session/prompt".to_owned(), params: 7u8 }, &home) {
        AgentCall::Refuse(e) => assert!(e.starts_with("failure_rpc only forwards `x.ai/*` extension methods")),
        _ => panic!("rpc outside x.ai/ is refused"),
    }
    assert!(matches!(plan_tool_call::<()>(ToolCallArgs::Status, &home), AgentCall::Status { .. }));
}

#[test]
fn handed_out_query_admits_its_token() {
    let token = generate_token();
    let query = format!("token={token}");
    assert!(is_authorized(None, Some(&query), &token));
    assert!(is_authorized(None, Some("token=a=b"), "a=b"));
    // A `+` in the token is read back as a space, so such a token is not
    // admitted through the query string.
    assert!(!is_authorized(None, Some("token=a+b"), "a+b"));
}

#[test]
fn chunks_are_collected_in_order_for_their_session() {
    let fwd = |s: &str, t: &str| BridgeReply::Ack { forward: Some((s.to_owned(), t.to_owned())) };
    let mut acc = String::from(">");
    collect_chunk(&mut acc, "s1", &fwd("s1", "Hel"));
    collect_chunk(&mut acc, "s1", &fwd("s2", "XX"));
    collect_chunk(&mut acc, "s1", &BridgeReply::Ignore);
    collect_chunk(&mut acc, "s1", &BridgeReply::Ack { forward: None });
    assert_eq!(acc, ">Hel");
    let replies = vec![fwd("s1", "lo"), BridgeReply::Permission(None), fwd("s3", "?"), fwd("s1", "!")];
    collect_chunks(&mut acc, "s1", &replies);
    assert_eq!(acc, ">Hello!");
    assert_eq!(prompt_timeout_error(1_800_000), "MCP bridge: prompt timed out after 1800s");
    assert_eq!(prompt_timeout_error(1_500), "MCP bridge: prompt timed out after 1.5s");
}

#[test]
fn generated_token_decodes_to_24_bytes() {
    let token = generate_token();
    let bytes = base64::engine::general_purpose::URL_SAFE_NO_PAD.decode(token.as_bytes()).unwrap();
    assert_eq!(bytes.len(), 24);
}

#[test]
fn every_tool_schema_is_a_closed_object() {
    let ts = tools();
    for t in &ts {
        assert_eq!(t.schema.json_type, JsonType::Object);
        assert!(!t.schema.additional_properties);
        assert_eq!(t.schema.lists_required, !t.args.is_empty());
    }
    assert!(ts[0].schema.lists_required && ts[0].required.is_empty());
    assert!(!ts[3].schema.lists_required && !ts[4].schema.lists_required);
}

#[test]
fn quoted_arguments_are_single_words() {
    for s in ["", "plain", "has space", "it's", "a;b|c", "$(rm -rf /)", "x\ny"] {
        let q = shell_single_quote(s);
        let unquoted_special = {
            let mut inside = false;
            let mut bad = false;
            let mut chars = q.chars();
            while let Some(c) = chars.next() {
                if inside {
                    if c == '\'' {
                        inside = false;
                    }
                } else if c == '\'' {
                    inside = true;
                } else if c == '\\' {
                    chars.next();
                } else if !(c.is_ascii_alphanumeric() || "-_./:@".contains(c)) {
                    bad = true;
                }
            }
            bad || inside
        };
        assert!(!q.is_empty() && !unquoted_special, "{s:?} -> {q:?}");
    }
}
