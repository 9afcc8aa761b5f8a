//! The MCP tools the bridge exposes and the decisions of its tool-call
//! dispatch: which tool a name selects, the defaults of their arguments,
//! and which extension methods `failure_rpc` forwards.
use vstd::prelude::*;
use crate::text::str_eq;

verus! {

/// Default `failure_send_message` timeout: thirty minutes.
pub const DEFAULT_TIMEOUT_MS: u64 = 1_800_000;

/// The tools of the bridge.
#[derive(Debug, Clone, Copy, PartialEq, Eq, Structural)]
pub enum BridgeTool {
    NewChat,
    ContinueChat,
    SendMessage,
    ListSessions,
    Status,
    Rpc,
}

/// The JSON type of one argument of a tool.
#[derive(Debug, Clone, Copy, PartialEq, Eq, Structural)]
pub enum ArgType {
    Text,
    /// An integer between the two bounds, inclusive.
    Integer { minimum: u64, maximum: u64 },
    /// A JSON object with arbitrary members.
    OpenObject,
}

/// One argument of a tool's input schema.
pub struct ToolArg {
    pub name: String,
    pub arg_type: ArgType,
    pub description: Option<String>,
}

/// The JSON type of a tool's input schema.
#[derive(Debug, Clone, Copy, PartialEq, Eq, Structural)]
pub enum JsonType {
    Object,
}

/// What a tool's input schema holds around its arguments: its JSON type,
/// whether members other than the arguments are admitted, and whether it
/// lists the required arguments.
#[derive(Debug, Clone, Copy, PartialEq, Eq, Structural)]
pub struct SchemaEnvelope {
    pub json_type: JsonType,
    pub additional_properties: bool,
    pub lists_required: bool,
}

/// Every input schema is a closed object; it lists the required
/// arguments exactly when the tool takes arguments.
pub open spec fn envelope_for(has_args: bool) -> SchemaEnvelope {
    SchemaEnvelope { json_type: JsonType::Object, additional_properties: false, lists_required: has_args }
}

pub fn schema_envelope(has_args: bool) -> (e: SchemaEnvelope)
    ensures
        e == envelope_for(has_args),
{
    SchemaEnvelope { json_type: JsonType::Object, additional_properties: false, lists_required: has_args }
}

/// A tool as the bridge lists it: its name, description, arguments, the
/// names of the required arguments, and its schema's envelope.
pub struct ToolSpec {
    pub name: String,
    pub description: String,
    pub args: Vec<ToolArg>,
    pub required: Vec<String>,
    pub schema: SchemaEnvelope,
}

pub open spec fn tool_name(t: BridgeTool) -> Seq<char> {
    match t {
        BridgeTool::NewChat => "failure_new_chat"@,
        BridgeTool::ContinueChat => "failure_continue_chat"@,
        BridgeTool::SendMessage => "failure_send_message"@,
        BridgeTool::ListSessions => "failure_list_sessions"@,
        BridgeTool::Status => "failure_status"@,
        BridgeTool::Rpc => "failure_rpc"@,
    }
}

pub fn tool_name_of(t: BridgeTool) -> (n: &'static str)
    ensures
        n@ == tool_name(t),
{
    match t {
        BridgeTool::NewChat => "failure_new_chat",
        BridgeTool::ContinueChat => "failure_continue_chat",
        BridgeTool::SendMessage => "failure_send_message",
        BridgeTool::ListSessions => "failure_list_sessions",
        BridgeTool::Status => "failure_status",
        BridgeTool::Rpc => "failure_rpc",
    }
}

/// The tool a call names, if it is one of the bridge's.
pub open spec fn spec_tool_from_name(name: Seq<char>) -> Option<BridgeTool> {
    if name == tool_name(BridgeTool::NewChat) {
        Some(BridgeTool::NewChat)
    } else if name == tool_name(BridgeTool::ContinueChat) {
        Some(BridgeTool::ContinueChat)
    } else if name == tool_name(BridgeTool::SendMessage) {
        Some(BridgeTool::SendMessage)
    } else if name == tool_name(BridgeTool::ListSessions) {
        Some(BridgeTool::ListSessions)
    } else if name == tool_name(BridgeTool::Status) {
        Some(BridgeTool::Status)
    } else if name == tool_name(BridgeTool::Rpc) {
        Some(BridgeTool::Rpc)
    } else {
        None
    }
}

pub fn tool_from_name(name: &str) -> (t: Option<BridgeTool>)
    ensures
        t == spec_tool_from_name(name@),
{
    if str_eq(name, "failure_new_chat") {
        Some(BridgeTool::NewChat)
    } else if str_eq(name, "failure_continue_chat") {
        Some(BridgeTool::ContinueChat)
    } else if str_eq(name, "failure_send_message") {
        Some(BridgeTool::SendMessage)
    } else if str_eq(name, "failure_list_sessions") {
        Some(BridgeTool::ListSessions)
    } else if str_eq(name, "failure_status") {
        Some(BridgeTool::Status)
    } else if str_eq(name, "failure_rpc") {
        Some(BridgeTool::Rpc)
    } else {
        None
    }
}

/// The error for a call naming no tool of the bridge.
pub fn unknown_tool_message(name: &str) -> (m: String)
    ensures
        m@ == "unknown tool: "@ + name@,
{
    let mut m = "unknown tool: ".to_owned();
    m.append(name);
    m
}

/// The `failure_send_message` timeout in milliseconds.
pub fn send_timeout_ms(requested: Option<u64>) -> (ms: u64)
    ensures
        ms == (match requested {
            Some(t) => t,
            None => DEFAULT_TIMEOUT_MS,
        }),
{
    match requested {
        Some(t) => t,
        None => DEFAULT_TIMEOUT_MS,
    }
}

/// The working directory of a new or continued chat: the one given, else
/// the bridge's own.
pub fn chat_cwd(requested: Option<String>, default_cwd: &String) -> (cwd: String)
    ensures
        cwd@ == (match requested {
            Some(c) => c@,
            None => default_cwd@,
        }),
{
    match requested {
        Some(c) => c,
        None => default_cwd.clone(),
    }
}

/// The extension-method namespace that `failure_rpc` forwards.
pub open spec fn rpc_namespace() -> Seq<char> {
    "x.ai/"@
}

/// `failure_rpc` forwards only `x.ai/*` extension methods; session
/// lifecycle goes through the dedicated tools.
pub fn rpc_method_allowed(method: &str) -> (ok: bool)
    ensures
        ok == (method@.len() >= rpc_namespace().len() && method@.take(rpc_namespace().len() as int)
            == rpc_namespace()),
{
    let v = crate::text::chars_of(method);
    let ns: Vec<char> = vec!['x', '.', 'a', 'i', '/'];
    proof {
        reveal_strlit("x.ai/");
        assert(ns@ =~= rpc_namespace());
    }
    if v.len() < 5 {
        return false;
    }
    let mut i: usize = 0;
    while i < 5
        invariant
            v@ == method@,
            v@.len() >= 5,
            ns@ == rpc_namespace(),
            ns@.len() == 5,
            i <= 5,
            forall|k: int| 0 <= k < i ==> v@[k] == ns@[k],
        decreases 5 - i,
    {
        if v[i] != ns[i] {
            proof {
                assert(method@.take(5)[i as int] != rpc_namespace()[i as int]);
            }
            return false;
        }
        i = i + 1;
    }
    proof {
        assert(method@.take(5) =~= rpc_namespace());
    }
    true
}

pub open spec fn rpc_rejection(method: Seq<char>) -> Seq<char> {
    "failure_rpc only forwards `x.ai/*` extension methods in this bridge (got `"@ + method
        + "`) — use failure_new_chat/failure_continue_chat/failure_send_message for session lifecycle."@
}

/// The tool error for a `failure_rpc` call outside `x.ai/*`.
pub fn rpc_rejection_message(method: &str) -> (m: String)
    ensures
        m@ == rpc_rejection(method@),
{
    let mut m = "failure_rpc only forwards `x.ai/*` extension methods in this bridge (got `".to_owned();
    m.append(method);
    m.append("`) — use failure_new_chat/failure_continue_chat/failure_send_message for session lifecycle.");
    m
}

/// The method and limit of `failure_list_sessions`'s extension call.
pub fn list_sessions_request() -> (r: (&'static str, u32))
    ensures
        r.0@ == "x.ai/session/list"@,
        r.1 == 100,
{
    ("x.ai/session/list", 100)
}

fn text_arg(name: &str, description: Option<&str>) -> (a: ToolArg)
    ensures
        a.name@ == name@,
        a.arg_type == ArgType::Text,
        match description {
            Some(d) => a.description matches Some(ad) && ad@ == d@,
            None => a.description is None,
        },
{
    ToolArg {
        name: name.to_owned(),
        arg_type: ArgType::Text,
        description: match description {
            Some(d) => Some(d.to_owned()),
            None => None,
        },
    }
}

pub open spec fn string_views(v: Seq<String>) -> Seq<Seq<char>> {
    v.map_values(|s: String| s@)
}

pub open spec fn rpc_description() -> Seq<char> {
    "Call a Failure `x.ai/*` extension method directly (e.g. `x.ai/session/list`, `x.ai/session/rename`). Session lifecycle (new/continue/send message) has dedicated tools above — use those instead of trying to reach `session/new`, `session/load`, or `session/prompt` through here."@
}

/// An argument as the schema shows it: name, type, description.
pub open spec fn arg_view(a: ToolArg) -> (Seq<char>, ArgType, Option<Seq<char>>) {
    (a.name@, a.arg_type, match a.description {
        Some(d) => Some(d@),
        None => None,
    })
}

pub open spec fn arg_views(args: Seq<ToolArg>) -> Seq<(Seq<char>, ArgType, Option<Seq<char>>)> {
    args.map_values(|a: ToolArg| arg_view(a))
}

pub open spec fn plain_text_arg(name: Seq<char>) -> (Seq<char>, ArgType, Option<Seq<char>>) {
    (name, ArgType::Text, None)
}

/// The tools the bridge lists, in order, with their arguments.
pub fn tools() -> (ts: Vec<ToolSpec>)
    ensures
        ts@.len() == 6,
        ts@[0].name@ == tool_name(BridgeTool::NewChat),
        ts@[0].description@ == "Create a new persistent Failure chat in a workspace."@,
        arg_views(ts@[0].args@) == seq![
            ("cwd"@, ArgType::Text, Some("Working directory (defaults to the bridge's own cwd)."@)),
        ],
        string_views(ts@[0].required@) == Seq::<Seq<char>>::empty(),
        ts@[1].name@ == tool_name(BridgeTool::ContinueChat),
        ts@[1].description@ == "Load an existing Failure chat by session ID."@,
        arg_views(ts@[1].args@) == seq![plain_text_arg("session_id"@), plain_text_arg("cwd"@)],
        string_views(ts@[1].required@) == seq!["session_id"@],
        ts@[2].name@ == tool_name(BridgeTool::SendMessage),
        ts@[2].description@
            == "Send a message to a Failure chat. The agent can use its normal file, terminal, search, and coding tools."@,
        arg_views(ts@[2].args@) == seq![
            plain_text_arg("session_id"@),
            plain_text_arg("message"@),
            ("timeout_ms"@, ArgType::Integer { minimum: 1, maximum: 3_600_000 }, None),
        ],
        string_views(ts@[2].required@) == seq!["session_id"@, "message"@],
        ts@[3].name@ == tool_name(BridgeTool::ListSessions),
        ts@[3].description@ == "List saved Failure chats and sessions."@,
        ts@[3].args@.len() == 0,
        ts@[3].required@.len() == 0,
        ts@[4].name@ == tool_name(BridgeTool::Status),
        ts@[4].description@ == "Show the remote bridge status."@,
        ts@[4].args@.len() == 0,
        ts@[4].required@.len() == 0,
        ts@[5].name@ == tool_name(BridgeTool::Rpc),
        ts@[5].description@ == rpc_description(),
        arg_views(ts@[5].args@) == seq![plain_text_arg("method"@), ("params"@, ArgType::OpenObject, None)],
        string_views(ts@[5].required@) == seq!["method"@],
        forall|i: int| 0 <= i < 6 ==> (#[trigger] ts@[i]).schema == envelope_for(ts@[i].args@.len() > 0),
{
    let mut ts: Vec<ToolSpec> = Vec::new();
    let new_chat = ToolSpec {
        name: "failure_new_chat".to_owned(),
        description: "Create a new persistent Failure chat in a workspace.".to_owned(),
        args: vec![text_arg("cwd", Some("Working directory (defaults to the bridge's own cwd)."))],
        required: Vec::new(),
        schema: schema_envelope(true),
    };
    proof {
        assert(arg_views(new_chat.args@) =~= seq![("cwd"@, ArgType::Text, Some("Working directory (defaults to the bridge's own cwd)."@))]);
        assert(string_views(new_chat.required@) =~= Seq::<Seq<char>>::empty());
    }
    ts.push(new_chat);
    let cont = ToolSpec {
        name: "failure_continue_chat".to_owned(),
        description: "Load an existing Failure chat by session ID.".to_owned(),
        args: vec![text_arg("session_id", None), text_arg("cwd", None)],
        required: vec!["session_id".to_owned()],
        schema: schema_envelope(true),
    };
    proof {
        assert(arg_views(cont.args@) =~= seq![plain_text_arg("session_id"@), plain_text_arg("cwd"@)]);
        assert(string_views(cont.required@) =~= seq!["session_id"@]);
    }
    ts.push(cont);
    let send = ToolSpec {
        name: "failure_send_message".to_owned(),
        description: "Send a message to a Failure chat. The agent can use its normal file, terminal, search, and coding tools.".to_owned(),
        args: vec![
            text_arg("session_id", None),
            text_arg("message", None),
            ToolArg {
                name: "timeout_ms".to_owned(),
                arg_type: ArgType::Integer { minimum: 1, maximum: 3_600_000 },
                description: None,
            },
        ],
        required: vec!["session_id".to_owned(), "message".to_owned()],
        schema: schema_envelope(true),
    };
    proof {
        assert(arg_views(send.args@) =~= seq![plain_text_arg("session_id"@), plain_text_arg("message"@), ("timeout_ms"@, ArgType::Integer { minimum: 1, maximum: 3_600_000 }, None)]);
        assert(string_views(send.required@) =~= seq!["session_id"@, "message"@]);
    }
    ts.push(send);
    ts.push(ToolSpec {
        name: "failure_list_sessions".to_owned(),
        description: "List saved Failure chats and sessions.".to_owned(),
        args: Vec::new(),
        required: Vec::new(),
        schema: schema_envelope(false),
    });
    ts.push(ToolSpec {
        name: "failure_status".to_owned(),
        description: "Show the remote bridge status.".to_owned(),
        args: Vec::new(),
        required: Vec::new(),
        schema: schema_envelope(false),
    });
    let rpc = ToolSpec {
        name: "failure_rpc".to_owned(),
        description: "Call a Failure `x.ai/*` extension method directly (e.g. `x.ai/session/list`, `x.ai/session/rename`). Session lifecycle (new/continue/send message) has dedicated tools above — use those instead of trying to reach `session/new`, `session/load`, or `session/prompt` through here.".to_owned(),
        args: vec![
            text_arg("method", None),
            ToolArg { name: "params".to_owned(), arg_type: ArgType::OpenObject, description: None },
        ],
        required: vec!["method".to_owned()],
        schema: schema_envelope(true),
    };
    proof {
        assert(arg_views(rpc.args@) =~= seq![plain_text_arg("method"@), ("params"@, ArgType::OpenObject, None)]);
        assert(string_views(rpc.required@) =~= seq!["method"@]);
    }
    ts.push(rpc);
    ts
}


/// The arguments of a tool call, once they were read for the tool its
/// name selects; `P` is the JSON object of `failure_rpc`'s `params`.
pub enum ToolCallArgs<P> {
    NewChat { cwd: Option<String> },
    ContinueChat { session_id: String, cwd: Option<String> },
    SendMessage { session_id: String, message: String, timeout_ms: Option<u64> },
    ListSessions,
    Status,
    Rpc { method: String, params: P },
}

/// What answering a tool call takes.
pub enum AgentCall<P> {
    /// Open a new session in `cwd`.
    NewChat { cwd: String },
    /// Load session `session_id` in `cwd`.
    ContinueChat { session_id: String, cwd: String },
    /// Prompt session `session_id`, waiting at most `timeout_ms`.
    SendMessage { session_id: String, message: String, timeout_ms: u64 },
    /// Call extension method `method` with `{"cwd": cwd, "limit": limit}`.
    ListSessions { method: String, cwd: String, limit: u32 },
    /// Report the bridge's status (agent running, `cwd`).
    Status { cwd: String },
    /// Forward extension method `method` with `params`.
    Rpc { method: String, params: P },
    /// Answer with this tool error, calling nothing.
    Refuse(String),
}

/// The call each tool makes: the bridge's own directory stands in for a
/// missing `cwd`, the default timeout for a missing one, and `failure_rpc`
/// is refused outside `x.ai/*`.
pub open spec fn plan_spec<P>(args: ToolCallArgs<P>, default_cwd: Seq<char>, call: AgentCall<P>) -> bool {
    match args {
        ToolCallArgs::NewChat { cwd } => call matches AgentCall::NewChat { cwd: c } && c@ == (match cwd {
            Some(x) => x@,
            None => default_cwd,
        }),
        ToolCallArgs::ContinueChat { session_id, cwd } => call matches AgentCall::ContinueChat {
            session_id: s,
            cwd: c,
        } && s@ == session_id@ && c@ == (match cwd {
            Some(x) => x@,
            None => default_cwd,
        }),
        ToolCallArgs::SendMessage { session_id, message, timeout_ms } => call matches AgentCall::SendMessage {
            session_id: s,
            message: m,
            timeout_ms: t,
        } && s@ == session_id@ && m@ == message@ && t == (match timeout_ms {
            Some(x) => x,
            None => DEFAULT_TIMEOUT_MS,
        }),
        ToolCallArgs::ListSessions => call matches AgentCall::ListSessions { method, cwd, limit } && method@
            == "x.ai/session/list"@ && cwd@ == default_cwd && limit == 100,
        ToolCallArgs::Status => call matches AgentCall::Status { cwd } && cwd@ == default_cwd,
        ToolCallArgs::Rpc { method, params } => if method@.len() >= rpc_namespace().len() && method@.take(
            rpc_namespace().len() as int,
        ) == rpc_namespace() {
            call matches AgentCall::Rpc { method: m, params: p } && m@ == method@ && p == params
        } else {
            call matches AgentCall::Refuse(e) && e@ == rpc_rejection(method@)
        },
    }
}

pub fn plan_tool_call<P>(args: ToolCallArgs<P>, default_cwd: &String) -> (call: AgentCall<P>)
    ensures
        plan_spec(args, default_cwd@, call),
{
    match args {
        ToolCallArgs::NewChat { cwd } => AgentCall::NewChat { cwd: chat_cwd(cwd, default_cwd) },
        ToolCallArgs::ContinueChat { session_id, cwd } => AgentCall::ContinueChat {
            session_id,
            cwd: chat_cwd(cwd, default_cwd),
        },
        ToolCallArgs::SendMessage { session_id, message, timeout_ms } => AgentCall::SendMessage {
            session_id,
            message,
            timeout_ms: send_timeout_ms(timeout_ms),
        },
        ToolCallArgs::ListSessions => {
            let (method, limit) = list_sessions_request();
            AgentCall::ListSessions { method: method.to_owned(), cwd: default_cwd.clone(), limit }
        },
        ToolCallArgs::Status => AgentCall::Status { cwd: default_cwd.clone() },
        ToolCallArgs::Rpc { method, params } => if rpc_method_allowed(method.as_str()) {
            AgentCall::Rpc { method, params }
        } else {
            AgentCall::Refuse(rpc_rejection_message(method.as_str()))
        },
    }
}

/// Every tool is found again by its name, and distinct tools have
/// distinct names.
pub proof fn law_tool_names_round_trip(t: BridgeTool, u: BridgeTool)
    ensures
        spec_tool_from_name(tool_name(t)) == Some(t),
        t != u ==> tool_name(t) != tool_name(u),
{
    reveal_strlit("failure_new_chat");
    reveal_strlit("failure_continue_chat");
    reveal_strlit("failure_send_message");
    reveal_strlit("failure_list_sessions");
    reveal_strlit("failure_status");
    reveal_strlit("failure_rpc");
    assert("failure_new_chat"@[8] == 'n');
    assert("failure_continue_chat"@[8] == 'c');
    assert("failure_send_message"@[8] == 's' && "failure_send_message"@[9] == 'e');
    assert("failure_list_sessions"@[8] == 'l');
    assert("failure_status"@[8] == 's' && "failure_status"@[9] == 't');
    assert("failure_rpc"@[8] == 'r');
}

} // verus!
