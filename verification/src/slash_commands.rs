//! The `/mcp`, `/mcp-worker` and `/provider` slash commands: argument
//! parsing, validation, and the message or action each one yields.
use vstd::prelude::*;
use crate::text::{
    words, lower_seq, split_whitespace, to_ascii_lowercase, str_eq, parse_u16, parse_u16_str,
    decimal, u64_to_decimal, join, views, join_strings,
};
use crate::mcp_bridge::{
    BridgeSlot, BridgeStatus, McpState, opt_seq, spec_local_url, status, stop, external_state,
};
use crate::cloudflare_worker::{
    WorkerConfigStore, masked_status, spec_status_text, remove_config,
};

verus! {

/// What a command asks the application to do.
#[derive(Debug)]
pub enum Action {
    McpBridgeStart { port: Option<u16>, token: Option<String> },
    ConfigureMcpWorker { api_token: String, worker_name: Option<String>, account_id: Option<String> },
    AddProvider { name: String, api_key: String, base_url: Option<String>, complete_auth: bool },
    StartByopSetup,
}

/// The result of running a slash command.
#[derive(Debug)]
pub enum CommandResult {
    Action(Action),
    Message(String),
    Error(String),
}

/// A built-in provider preset: id, display name, endpoint (when it has a
/// fixed one) and whether it needs an API key.
#[derive(Debug, Clone)]
pub struct ProviderPreset {
    pub id: String,
    pub display_name: String,
    pub base_url: Option<String>,
    pub requires_api_key: bool,
}

pub open spec fn word_at(w: Seq<Seq<char>>, i: int) -> Option<Seq<char>> {
    if 0 <= i < w.len() {
        Some(w[i])
    } else {
        None
    }
}

fn clone_word(ws: &Vec<String>, i: usize) -> (r: Option<String>)
    ensures
        opt_seq(r) == word_at(views(ws@), i as int),
{
    if i < ws.len() {
        Some(ws[i].clone())
    } else {
        None
    }
}

pub open spec fn usage_error(usage: Seq<char>) -> Seq<char> {
    "Usage: "@ + usage
}

// ── /mcp ───────────────────────────────────────────────────────────────────

pub struct McpCommand;

pub open spec fn mcp_usage() -> Seq<char> {
    "/mcp start [port] [token] | /mcp status | /mcp stop"@
}

/// The `/mcp status` text.
pub open spec fn format_status_spec(
    running: bool,
    local_url: Option<Seq<char>>,
    public_url: Option<Seq<char>>,
    external: Option<McpState>,
) -> Seq<char> {
    if !running {
        match external {
            Some(e) => "No MCP bridge running in this process, but ~/.failure/mcp.json reports one from pid "@
                + decimal(e.pid as nat) + " (started "@ + e.started_at@ + ").\nLocal:  "@ + e.local_url@
                + (match opt_seq(e.public_url) {
                Some(u) => "\nPublic: "@ + u,
                None => Seq::empty(),
            }),
            None => "MCP bridge is not running. Start it with `/mcp start`."@,
        }
    } else {
        "MCP bridge running.\nLocal:  "@ + (match local_url {
            Some(u) => u,
            None => "?"@,
        }) + (match public_url {
            Some(p) => "\nPublic: "@ + p,
            None => "\nNo public URL (install `cloudflared` for one, or `/mcp-worker configure` for a stable URL)."@,
        })
    }
}

/// Renders the bridge status; a bridge of another process (from the state
/// file) is reported when none runs in this one.
pub fn format_status(st: &BridgeStatus, external: Option<&McpState>) -> (msg: String)
    ensures
        msg@ == format_status_spec(st.running, opt_seq(st.local_url), opt_seq(st.public_url), match external {
            Some(e) => Some(*e),
            None => None,
        }),
{
    if !st.running {
        match external {
            Some(e) => {
                let mut m = "No MCP bridge running in this process, but ~/.failure/mcp.json reports one from pid ".to_owned();
                let pid = u64_to_decimal(e.pid as u64);
                m.append(pid.as_str());
                m.append(" (started ");
                m.append(e.started_at.as_str());
                m.append(").\nLocal:  ");
                m.append(e.local_url.as_str());
                match &e.public_url {
                    Some(u) => {
                        m.append("\nPublic: ");
                        m.append(u.as_str());
                    },
                    None => {
                        proof {
                            assert(m@ + Seq::<char>::empty() =~= m@);
                        }
                    },
                }
                return m;
            },
            None => {
                return "MCP bridge is not running. Start it with `/mcp start`.".to_owned();
            },
        }
    }
    let mut m = "MCP bridge running.\nLocal:  ".to_owned();
    match &st.local_url {
        Some(u) => m.append(u.as_str()),
        None => m.append("?"),
    }
    match &st.public_url {
        Some(p) => {
            m.append("\nPublic: ");
            m.append(p.as_str());
        },
        None => m.append(
            "\nNo public URL (install `cloudflared` for one, or `/mcp-worker configure` for a stable URL).",
        ),
    }
    m
}

/// The `/mcp status` text for a slot and the state file's record of
/// another process's bridge.
pub open spec fn slot_status_text<H>(slot: BridgeSlot<H>, external: Option<McpState>) -> Seq<char> {
    match slot.running {
        Some(r) => format_status_spec(true, Some(spec_local_url(r.port, r.token@)), opt_seq(r.public_url), None),
        None => format_status_spec(false, None, None, external),
    }
}

pub open spec fn ext_of(state_file: Option<McpState>, own_pid: u32) -> Option<McpState> {
    match state_file {
        Some(st) => if st.pid != own_pid { Some(st) } else { None },
        None => None,
    }
}

impl McpCommand {
    pub fn name(&self) -> (n: &'static str)
        ensures
            n@ == "mcp"@,
    {
        "mcp"
    }

    pub fn description(&self) -> (d: &'static str)
        ensures
            d@ == "Start/stop the native remote MCP bridge (no Node/npm required)"@,
    {
        "Start/stop the native remote MCP bridge (no Node/npm required)"
    }

    pub fn usage(&self) -> (u: &'static str)
        ensures
            u@ == mcp_usage(),
    {
        "/mcp start [port] [token] | /mcp status | /mcp stop"
    }

    pub fn takes_args(&self) -> (b: bool)
        ensures
            b,
    {
        true
    }

    pub fn args_required(&self) -> (b: bool)
        ensures
            b,
    {
        true
    }

    pub fn arg_placeholder(&self) -> (p: Option<&'static str>)
        ensures
            p matches Some(s) && s@ == "start|status|stop"@,
    {
        Some("start|status|stop")
    }

    /// `/mcp start [port] [token]` asks for the bridge to start (the token
    /// defaults to `$FAILURE_MCP_TOKEN`, given here as `env_token`);
    /// `/mcp status` reports the bridge of this process, else one recorded
    /// in the state file by another process; `/mcp stop` stops it.
    pub fn run<H>(
        &self,
        bridge: &mut BridgeSlot<H>,
        state_file: Option<McpState>,
        own_pid: u32,
        env_token: Option<String>,
        args: &str,
    ) -> (r: CommandResult)
        ensures
            ({
                let w = words(args@);
                if w.len() == 0 {
                    &&& r matches CommandResult::Error(e) && e@ == usage_error(mcp_usage())
                    &&& final(bridge).running == old(bridge).running
                } else if lower_seq(w[0]) == "start"@ {
                    &&& final(bridge).running == old(bridge).running
                    &&& if w.len() > 1 && parse_u16(w[1]) is None {
                        r matches CommandResult::Error(e) && e@ == "Invalid port '"@ + w[1] + "'. Usage: "@
                            + mcp_usage()
                    } else {
                        r matches CommandResult::Action(Action::McpBridgeStart { port, token }) && port == (if w.len()
                            > 1 {
                            parse_u16(w[1])
                        } else {
                            None
                        }) && opt_seq(token) == (if w.len() > 2 {
                            Some(w[2])
                        } else {
                            opt_seq(env_token)
                        })
                    }
                } else if lower_seq(w[0]) == "status"@ {
                    &&& r matches CommandResult::Message(m) && m@ == slot_status_text(*old(bridge), ext_of(state_file, own_pid))
                    &&& final(bridge).running == old(bridge).running
                } else if lower_seq(w[0]) == "stop"@ {
                    &&& r matches CommandResult::Message(m) && m@ == (if old(bridge).running is Some {
                        "MCP bridge stopped."@
                    } else {
                        "MCP bridge is not running."@
                    })
                    &&& final(bridge).running is None
                } else {
                    &&& r matches CommandResult::Error(e) && e@ == "Unknown /mcp subcommand '"@ + lower_seq(w[0])
                        + "'. Usage: "@ + mcp_usage()
                    &&& final(bridge).running == old(bridge).running
                }
            }),
    {
        let ws = split_whitespace(args);
        proof {
            assert(views(ws@) == words(args@));
        }
        if ws.len() == 0 {
            let mut e = "Usage: ".to_owned();
            e.append(self.usage());
            return CommandResult::Error(e);
        }
        let sub = to_ascii_lowercase(ws[0].as_str());
        proof {
            assert(ws@[0]@ == words(args@)[0]);
        }
        if str_eq(sub.as_str(), "start") {
            let port = if ws.len() > 1 {
                proof {
                    assert(ws@[1]@ == words(args@)[1]);
                }
                match parse_u16_str(ws[1].as_str()) {
                    Some(p) => Some(p),
                    None => {
                        let mut e = "Invalid port '".to_owned();
                        e.append(ws[1].as_str());
                        e.append("'. Usage: ");
                        e.append(self.usage());
                        return CommandResult::Error(e);
                    },
                }
            } else {
                None
            };
            let token = if ws.len() > 2 {
                proof {
                    assert(ws@[2]@ == words(args@)[2]);
                }
                Some(ws[2].clone())
            } else {
                env_token
            };
            return CommandResult::Action(Action::McpBridgeStart { port, token });
        }
        if str_eq(sub.as_str(), "status") {
            let st = status(bridge);
            let ext = external_state(state_file, own_pid);
            let msg = match &ext {
                Some(e) => format_status(&st, Some(e)),
                None => format_status(&st, None),
            };
            return CommandResult::Message(msg);
        }
        if str_eq(sub.as_str(), "stop") {
            if stop(bridge) {
                return CommandResult::Message("MCP bridge stopped.".to_owned());
            } else {
                return CommandResult::Message("MCP bridge is not running.".to_owned());
            }
        }
        let mut e = "Unknown /mcp subcommand '".to_owned();
        e.append(sub.as_str());
        e.append("'. Usage: ");
        e.append(self.usage());
        CommandResult::Error(e)
    }
}

} // verus!
verus! {

// ── /mcp-worker ────────────────────────────────────────────────────────────

pub struct McpWorkerCommand;

pub open spec fn mcp_worker_usage() -> Seq<char> {
    "/mcp-worker configure <cloudflare-api-token> [worker-name] [account-id]"@
}

impl McpWorkerCommand {
    pub fn name(&self) -> (n: &'static str)
        ensures
            n@ == "mcp-worker"@,
    {
        "mcp-worker"
    }

    pub fn description(&self) -> (d: &'static str)
        ensures
            d@ == "Configure a stable Cloudflare Worker URL for remote MCP access (npm package only)"@,
    {
        "Configure a stable Cloudflare Worker URL for remote MCP access (npm package only)"
    }

    pub fn usage(&self) -> (u: &'static str)
        ensures
            u@ == mcp_worker_usage(),
    {
        "/mcp-worker configure <cloudflare-api-token> [worker-name] [account-id]"
    }

    pub fn takes_args(&self) -> (b: bool)
        ensures
            b,
    {
        true
    }

    pub fn args_required(&self) -> (b: bool)
        ensures
            b,
    {
        true
    }

    pub fn arg_placeholder(&self) -> (p: Option<&'static str>)
        ensures
            p matches Some(s) && s@ == "configure <token> [worker-name] [account-id]"@,
    {
        Some("configure <token> [worker-name] [account-id]")
    }

    /// `/mcp-worker configure <token> [worker-name] [account-id]` asks for
    /// the credentials to be validated and saved; `status` shows the saved
    /// ones with the token masked; `disable` forgets them.
    pub fn run(&self, store: &mut WorkerConfigStore, args: &str) -> (r: CommandResult)
        ensures
            ({
                let w = words(args@);
                if w.len() == 0 {
                    &&& r matches CommandResult::Error(e) && e@ == usage_error(mcp_worker_usage())
                    &&& *final(store) == *old(store)
                } else if lower_seq(w[0]) == "configure"@ {
                    &&& *final(store) == *old(store)
                    &&& if w.len() < 2 {
                        r matches CommandResult::Error(e) && e@ == "Missing Cloudflare API token. Usage: "@
                            + mcp_worker_usage()
                    } else {
                        r matches CommandResult::Action(
                            Action::ConfigureMcpWorker { api_token, worker_name, account_id },
                        ) && api_token@ == w[1] && opt_seq(worker_name) == word_at(w, 2) && opt_seq(account_id)
                            == word_at(w, 3)
                    }
                } else if lower_seq(w[0]) == "status"@ {
                    &&& *final(store) == *old(store)
                    &&& r matches CommandResult::Message(m) && m@ == (match old(store).config {
                        Some(c) => spec_status_text(c),
                        None => "Cloudflare Worker access is not configured."@,
                    })
                } else if lower_seq(w[0]) == "disable"@ {
                    &&& final(store).config is None
                    &&& final(store).removed
                    &&& r matches CommandResult::Message(m) && m@
                        == "Cloudflare Worker access disabled and local credentials removed."@
                } else {
                    &&& *final(store) == *old(store)
                    &&& r matches CommandResult::Error(e) && e@ == "Unknown /mcp-worker subcommand '"@
                        + lower_seq(w[0]) + "'. Usage: "@ + mcp_worker_usage()
                }
            }),
    {
        let ws = split_whitespace(args);
        proof {
            assert(views(ws@) == words(args@));
        }
        if ws.len() == 0 {
            let mut e = "Usage: ".to_owned();
            e.append(self.usage());
            return CommandResult::Error(e);
        }
        let sub = to_ascii_lowercase(ws[0].as_str());
        proof {
            assert(ws@[0]@ == words(args@)[0]);
        }
        if str_eq(sub.as_str(), "configure") {
            if ws.len() < 2 {
                let mut e = "Missing Cloudflare API token. Usage: ".to_owned();
                e.append(self.usage());
                return CommandResult::Error(e);
            }
            proof {
                assert(ws@[1]@ == words(args@)[1]);
            }
            let api_token = ws[1].clone();
            let worker_name = clone_word(&ws, 2);
            let account_id = clone_word(&ws, 3);
            return CommandResult::Action(Action::ConfigureMcpWorker { api_token, worker_name, account_id });
        }
        if str_eq(sub.as_str(), "status") {
            let shown = match &store.config {
                Some(c) => masked_status(Some(c)),
                None => masked_status(None),
            };
            return match shown {
                Some(s) => CommandResult::Message(s),
                None => CommandResult::Message("Cloudflare Worker access is not configured.".to_owned()),
            };
        }
        if str_eq(sub.as_str(), "disable") {
            remove_config(store);
            return CommandResult::Message(
                "Cloudflare Worker access disabled and local credentials removed.".to_owned(),
            );
        }
        let mut e = "Unknown /mcp-worker subcommand '".to_owned();
        e.append(sub.as_str());
        e.append("'. Usage: ");
        e.append(self.usage());
        CommandResult::Error(e)
    }
}

// ── /provider ─────────────────────────────────────────────────────────────

pub struct ProviderCommand;

pub open spec fn provider_usage() -> Seq<char> {
    "/provider add <name> <api-key> [base-url]  |  /provider setup"@
}

pub open spec fn preset_ids(presets: Seq<ProviderPreset>) -> Seq<Seq<char>> {
    presets.map_values(|p: ProviderPreset| p.id@)
}

/// Whether `name` is the id of a built-in preset.
pub open spec fn is_builtin_preset(presets: Seq<ProviderPreset>, name: Seq<char>) -> bool {
    exists|i: int| 0 <= i < presets.len() && #[trigger] presets[i].id@ == name
}

pub fn is_builtin_provider_preset(presets: &Vec<ProviderPreset>, name: &str) -> (b: bool)
    ensures
        b == is_builtin_preset(presets@, name@),
{
    let mut i: usize = 0;
    while i < presets.len()
        invariant
            i <= presets@.len(),
            forall|j: int| 0 <= j < i ==> presets@[j].id@ != name@,
        decreases presets@.len() - i,
    {
        if str_eq(presets[i].id.as_str(), name) {
            return true;
        }
        i = i + 1;
    }
    false
}

/// `str::eq_ignore_ascii_case`.
pub fn eq_ignore_ascii_case(a: &str, b: &str) -> (r: bool)
    ensures
        r == (lower_seq(a@) == lower_seq(b@)),
{
    let la = to_ascii_lowercase(a);
    let lb = to_ascii_lowercase(b);
    la == lb
}

pub open spec fn not_builtin_message(name: Seq<char>, presets: Seq<ProviderPreset>) -> Seq<char> {
    "'"@ + name + "' isn't a built-in provider ("@ + join(preset_ids(presets), "/"@)
        + "), so a base URL is required. Usage: "@ + provider_usage()
}

impl ProviderCommand {
    pub fn name(&self) -> (n: &'static str)
        ensures
            n@ == "provider"@,
    {
        "provider"
    }

    pub fn description(&self) -> (d: &'static str)
        ensures
            d@ == "Configure a custom AI provider (OpenAI, Anthropic, OpenRouter, Groq, …) or run /provider setup"@,
    {
        "Configure a custom AI provider (OpenAI, Anthropic, OpenRouter, Groq, …) or run /provider setup"
    }

    pub fn usage(&self) -> (u: &'static str)
        ensures
            u@ == provider_usage(),
    {
        "/provider add <name> <api-key> [base-url]  |  /provider setup"
    }

    pub fn takes_args(&self) -> (b: bool)
        ensures
            b,
    {
        true
    }

    pub fn args_required(&self) -> (b: bool)
        ensures
            b,
    {
        true
    }

    pub fn arg_placeholder(&self) -> (p: Option<&'static str>)
        ensures
            p matches Some(s) && s@ == "add <name> <api-key> [base-url] | setup"@,
    {
        Some("add <name> <api-key> [base-url] | setup")
    }

    /// `/provider setup` opens the setup wizard; `/provider add <name>
    /// <api-key> [base-url]` adds a provider, and a base URL is required
    /// unless `name` is a built-in preset.
    pub fn run(&self, presets: &Vec<ProviderPreset>, args: &str) -> (r: CommandResult)
        ensures
            ({
                let w = words(args@);
                if w.len() == 0 {
                    r matches CommandResult::Error(e) && e@ == usage_error(provider_usage())
                } else if lower_seq(w[0]) == lower_seq("setup"@) {
                    r matches CommandResult::Action(Action::StartByopSetup)
                } else if lower_seq(w[0]) != lower_seq("add"@) {
                    r matches CommandResult::Error(e) && e@ == "Unknown /provider subcommand '"@ + w[0]
                        + "'. Usage: "@ + provider_usage()
                } else if w.len() < 2 {
                    r matches CommandResult::Error(e) && e@ == "Missing provider name. Usage: "@
                        + provider_usage()
                } else if w.len() < 3 {
                    r matches CommandResult::Error(e) && e@ == "Missing API key. Usage: "@ + provider_usage()
                } else if w.len() < 4 && !is_builtin_preset(presets@, w[1]) {
                    r matches CommandResult::Error(e) && e@ == not_builtin_message(w[1], presets@)
                } else {
                    r matches CommandResult::Action(
                        Action::AddProvider { name, api_key, base_url, complete_auth },
                    ) && name@ == w[1] && api_key@ == w[2] && opt_seq(base_url) == word_at(w, 3)
                        && !complete_auth
                }
            }),
    {
        let ws = split_whitespace(args);
        proof {
            assert(views(ws@) == words(args@));
        }
        if ws.len() == 0 {
            let mut e = "Usage: ".to_owned();
            e.append(self.usage());
            return CommandResult::Error(e);
        }
        proof {
            assert(ws@[0]@ == words(args@)[0]);
        }
        if eq_ignore_ascii_case(ws[0].as_str(), "setup") {
            return CommandResult::Action(Action::StartByopSetup);
        }
        if !eq_ignore_ascii_case(ws[0].as_str(), "add") {
            let mut e = "Unknown /provider subcommand '".to_owned();
            e.append(ws[0].as_str());
            e.append("'. Usage: ");
            e.append(self.usage());
            return CommandResult::Error(e);
        }
        if ws.len() < 2 {
            let mut e = "Missing provider name. Usage: ".to_owned();
            e.append(self.usage());
            return CommandResult::Error(e);
        }
        if ws.len() < 3 {
            let mut e = "Missing API key. Usage: ".to_owned();
            e.append(self.usage());
            return CommandResult::Error(e);
        }
        proof {
            assert(ws@[1]@ == words(args@)[1]);
            assert(ws@[2]@ == words(args@)[2]);
        }
        let base_url = clone_word(&ws, 3);
        if base_url.is_none() && !is_builtin_provider_preset(presets, ws[1].as_str()) {
            let mut ids: Vec<String> = Vec::new();
            let mut i: usize = 0;
            while i < presets.len()
                invariant
                    i <= presets@.len(),
                    views(ids@) == preset_ids(presets@.take(i as int)),
                decreases presets@.len() - i,
            {
                let ghost before = ids@;
                ids.push(presets[i].id.clone());
                proof {
                    assert(views(ids@) =~= views(before).push(presets@[i as int].id@));
                    assert(presets@.take(i + 1) =~= presets@.take(i as int).push(presets@[i as int]));
                    assert(preset_ids(presets@.take(i + 1)) =~= preset_ids(presets@.take(i as int)).push(presets@[i as int].id@));
                }
                i = i + 1;
            }
            proof {
                assert(presets@.take(presets@.len() as int) =~= presets@);
            }
            let known = join_strings(&ids, "/");
            let mut e = "'".to_owned();
            e.append(ws[1].as_str());
            e.append("' isn't a built-in provider (");
            e.append(known.as_str());
            e.append("), so a base URL is required. Usage: ");
            e.append(self.usage());
            return CommandResult::Error(e);
        }
        CommandResult::Action(Action::AddProvider {
            name: ws[1].clone(),
            api_key: ws[2].clone(),
            base_url,
            complete_auth: false,
        })
    }
}

} // verus!

verus! {

/// Every preset of the list is built in, and nothing else is: `/provider
/// add <preset id> <key>` needs no base URL, any other name does.
pub proof fn law_builtin_presets_are_the_list(presets: Seq<ProviderPreset>, name: Seq<char>)
    ensures
        forall|i: int| 0 <= i < presets.len() ==> is_builtin_preset(presets, #[trigger] presets[i].id@),
        is_builtin_preset(presets, name) <==> presets.map_values(|p: ProviderPreset| p.id@).contains(name),
{
    assert forall|i: int| 0 <= i < presets.len() implies is_builtin_preset(presets, #[trigger] presets[i].id@) by {
        assert(presets[i].id@ == presets[i].id@);
    }
    let ids = presets.map_values(|p: ProviderPreset| p.id@);
    if is_builtin_preset(presets, name) {
        let i = choose|i: int| 0 <= i < presets.len() && #[trigger] presets[i].id@ == name;
        assert(ids[i] == name);
    }
    if ids.contains(name) {
        let i = choose|i: int| 0 <= i < ids.len() && ids[i] == name;
        assert(presets[i].id@ == name);
    }
}

pub open spec fn no_public_url_hint() -> Seq<char> {
    "\nNo public URL (install `cloudflared` for one, or `/mcp-worker configure` for a stable URL)."@
}

/// The status of a running bridge starts with its local URL and ends with
/// its public URL when it has one (and then says nothing more), or with
/// the hint on how to get one when it has none.
pub proof fn law_running_status_shows_urls(local: Seq<char>, public: Option<Seq<char>>, external: Option<McpState>)
    ensures
        ({
            let m = format_status_spec(true, Some(local), public, external);
            let head = "MCP bridge running.\nLocal:  "@ + local;
            &&& m.take(head.len() as int) == head
            &&& match public {
                Some(p) => m.len() == head.len() + 9 + p.len() && m.skip(m.len() - p.len() - 9)
                    == "\nPublic: "@ + p,
                None => m.skip(head.len() as int) == no_public_url_hint(),
            }
        }),
{
    let m = format_status_spec(true, Some(local), public, external);
    let head = "MCP bridge running.\nLocal:  "@ + local;
    reveal_strlit("\nPublic: ");
    match public {
        Some(p) => {
            assert(m =~= head + ("\nPublic: "@ + p));
            assert(m.take(head.len() as int) =~= head);
            assert(m.skip(m.len() - p.len() - 9) =~= "\nPublic: "@ + p);
        },
        None => {
            assert(m =~= head + no_public_url_hint());
            assert(m.take(head.len() as int) =~= head);
            assert(m.skip(head.len() as int) =~= no_public_url_hint());
        },
    }
}

/// With no bridge in this process, the status reports the bridge another
/// process recorded (ending with its public URL, else its local URL), or
/// that none runs.
pub proof fn law_stopped_status_reports_other_process(external: Option<McpState>)
    ensures
        ({
            let m = format_status_spec(false, None, None, external);
            match external {
                None => m == "MCP bridge is not running. Start it with `/mcp start`."@,
                Some(e) => match opt_seq(e.public_url) {
                    Some(u) => m.len() >= u.len() + 9 && m.skip(m.len() - u.len() - 9) == "\nPublic: "@ + u,
                    None => m.len() >= e.local_url@.len() + 9 && m.skip(m.len() - e.local_url@.len() - 9)
                        == "\nLocal:  "@ + e.local_url@,
                },
            }
        }),
{
    reveal_strlit("\nPublic: ");
    reveal_strlit("\nLocal:  ");
    reveal_strlit(").");
    reveal_strlit(").\nLocal:  ");
    let m = format_status_spec(false, None, None, external);
    if let Some(e) = external {
        let pre = "No MCP bridge running in this process, but ~/.failure/mcp.json reports one from pid "@
            + decimal(e.pid as nat) + " (started "@ + e.started_at@ + ")."@;
        match opt_seq(e.public_url) {
            Some(u) => {
                assert(m =~= (pre + "\nLocal:  "@ + e.local_url@) + ("\nPublic: "@ + u));
                assert(m.skip(m.len() - u.len() - 9) =~= "\nPublic: "@ + u);
            },
            None => {
                assert(m =~= pre + ("\nLocal:  "@ + e.local_url@));
                assert(m.skip(m.len() - e.local_url@.len() - 9) =~= "\nLocal:  "@ + e.local_url@);
            },
        }
    }
}

} // verus!
