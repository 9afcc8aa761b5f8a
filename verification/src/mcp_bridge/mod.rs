//! Native remote MCP bridge (`/mcp start|status|stop`): the registry of the
//! running bridge, its status report, the `~/.failure/mcp.json` record, and
//! the access token. The HTTP server, the agent and the tunnel process are
//! held by the caller as the bridge's resources.
use vstd::prelude::*;
use crate::text::{decimal, u64_to_decimal};
use base64::Engine;
use rand::RngCore;

pub mod auth;
pub mod tunnel;
pub mod tools;
pub mod agent;

verus! {

pub const DEFAULT_PORT: u16 = 2420;

/// What `/mcp status` reports about the bridge of this process.
#[derive(Debug, Clone)]
pub struct BridgeStatus {
    pub running: bool,
    pub local_url: Option<String>,
    pub public_url: Option<String>,
}

/// `~/.failure/mcp.json`, in the npm bridge's JSON shape.
#[derive(Debug, Clone)]
pub struct McpState {
    pub pid: u32,
    pub token: String,
    pub local_url: String,
    pub public_url: Option<String>,
    pub started_at: String,
}

/// A bridge running in this process: its resources `H` (server handle,
/// agent, tunnel), the port it bound, its token and public URL.
pub struct RunningBridge<H> {
    pub resources: H,
    pub port: u16,
    pub token: String,
    pub public_url: Option<String>,
}

/// The slot holding this process's bridge, if one runs.
pub struct BridgeSlot<H> {
    pub running: Option<RunningBridge<H>>,
}

pub open spec fn opt_seq(o: Option<String>) -> Option<Seq<char>> {
    match o {
        Some(s) => Some(s@),
        None => None,
    }
}

pub fn clone_opt_string(o: &Option<String>) -> (r: Option<String>)
    ensures
        opt_seq(r) == opt_seq(*o),
{
    match o {
        Some(s) => Some(s.clone()),
        None => None,
    }
}

/// `http://127.0.0.1:<port>/mcp?token=<token>`.
pub open spec fn spec_local_url(port: u16, token: Seq<char>) -> Seq<char> {
    "http://127.0.0.1:"@ + decimal(port as nat) + "/mcp?token="@ + token
}

/// `<tunnel base>/mcp?token=<token>`.
pub open spec fn spec_public_url(base: Seq<char>, token: Seq<char>) -> Seq<char> {
    base + "/mcp?token="@ + token
}

pub fn local_url(port: u16, token: &str) -> (u: String)
    ensures
        u@ == spec_local_url(port, token@),
{
    let mut u = "http://127.0.0.1:".to_owned();
    let p = u64_to_decimal(port as u64);
    u.append(p.as_str());
    u.append("/mcp?token=");
    u.append(token);
    u
}

pub fn public_url(base: &str, token: &str) -> (u: String)
    ensures
        u@ == spec_public_url(base@, token@),
{
    let mut u = base.to_owned();
    u.append("/mcp?token=");
    u.append(token);
    u
}

/// The status of a running bridge.
pub open spec fn status_of_spec<H>(r: RunningBridge<H>, st: BridgeStatus) -> bool {
    &&& st.running
    &&& opt_seq(st.local_url) == Some(spec_local_url(r.port, r.token@))
    &&& opt_seq(st.public_url) == opt_seq(r.public_url)
}

/// The status that a slot reports.
pub open spec fn slot_status_spec<H>(slot: BridgeSlot<H>, st: BridgeStatus) -> bool {
    match slot.running {
        Some(r) => status_of_spec(r, st),
        None => !st.running && st.local_url is None && st.public_url is None,
    }
}

pub fn status_of<H>(running: &RunningBridge<H>) -> (st: BridgeStatus)
    ensures
        status_of_spec(*running, st),
{
    BridgeStatus {
        running: true,
        local_url: Some(local_url(running.port, running.token.as_str())),
        public_url: clone_opt_string(&running.public_url),
    }
}

impl<H> BridgeSlot<H> {
    pub fn new() -> (slot: Self)
        ensures
            slot.running is None,
    {
        BridgeSlot { running: None }
    }
}

/// Current bridge status, from this process's own running instance.
pub fn status<H>(slot: &BridgeSlot<H>) -> (st: BridgeStatus)
    ensures
        slot_status_spec(*slot, st),
{
    match &slot.running {
        Some(running) => status_of(running),
        None => BridgeStatus { running: false, local_url: None, public_url: None },
    }
}

/// Stop the bridge: its resources are released and the slot emptied.
/// Returns `true` if one was actually running.
pub fn stop<H>(slot: &mut BridgeSlot<H>) -> (stopped: bool)
    ensures
        stopped == (old(slot).running is Some),
        final(slot).running is None,
{
    match slot.running.take() {
        Some(_running) => true,
        None => false,
    }
}

/// The state file written by a bridge of another process; `None` when
/// there is none or this process wrote it (its in-process status covers
/// that case).
pub fn external_state(read: Option<McpState>, own_pid: u32) -> (ext: Option<McpState>)
    ensures
        ext == (match read {
            Some(st) => if st.pid != own_pid { Some(st) } else { None },
            None => None,
        }),
{
    match read {
        Some(st) => if st.pid != own_pid { Some(st) } else { None },
        None => None,
    }
}

/// The character of index `i` (0 to 63) in the URL-safe base64 alphabet
/// `A-Z a-z 0-9 - _`.
pub open spec fn b64_char(i: int) -> char {
    if i < 26 {
        (65 + i) as char
    } else if i < 52 {
        (97 + (i - 26)) as char
    } else if i < 62 {
        (48 + (i - 52)) as char
    } else if i == 62 {
        '-'
    } else {
        '_'
    }
}

/// URL-safe base64 without padding: every group of three bytes becomes
/// four characters of six bits each, most significant first; a last group
/// of one or two bytes becomes two or three characters.
pub open spec fn base64_url_safe_no_pad(b: Seq<u8>) -> Seq<char>
    decreases b.len(),
{
    if b.len() == 0 {
        Seq::empty()
    } else if b.len() == 1 {
        seq![b64_char(b[0] as int / 4), b64_char((b[0] as int % 4) * 16)]
    } else if b.len() == 2 {
        seq![
            b64_char(b[0] as int / 4),
            b64_char((b[0] as int % 4) * 16 + b[1] as int / 16),
            b64_char((b[1] as int % 16) * 4),
        ]
    } else {
        seq![
            b64_char(b[0] as int / 4),
            b64_char((b[0] as int % 4) * 16 + b[1] as int / 16),
            b64_char((b[1] as int % 16) * 4 + b[2] as int / 64),
            b64_char(b[2] as int % 64),
        ] + base64_url_safe_no_pad(b.skip(3))
    }
}

/// The characters of the URL-safe base64 alphabet: `A-Z a-z 0-9 - _`.
pub open spec fn is_url_safe_b64_char(c: char) -> bool {
    ('A' <= c <= 'Z') || ('a' <= c <= 'z') || ('0' <= c <= '9') || c == '-' || c == '_'
}

proof fn lemma_b64_char(i: int)
    requires
        0 <= i < 64,
    ensures
        is_url_safe_b64_char(b64_char(i)),
{
}

/// The encoding has four characters per three bytes, rounded up, all from
/// the URL-safe alphabet.
pub proof fn lemma_base64_shape(b: Seq<u8>)
    ensures
        base64_url_safe_no_pad(b).len() == (4 * b.len() + 2) / 3,
        forall|i: int| 0 <= i < base64_url_safe_no_pad(b).len() ==> is_url_safe_b64_char(
            #[trigger] base64_url_safe_no_pad(b)[i],
        ),
    decreases b.len(),
{
    let e = base64_url_safe_no_pad(b);
    if b.len() >= 1 {
        lemma_b64_char(b[0] as int / 4);
    }
    if b.len() == 1 {
        lemma_b64_char((b[0] as int % 4) * 16);
    } else if b.len() == 2 {
        lemma_b64_char((b[0] as int % 4) * 16 + b[1] as int / 16);
        lemma_b64_char((b[1] as int % 16) * 4);
    } else if b.len() >= 3 {
        lemma_b64_char((b[0] as int % 4) * 16 + b[1] as int / 16);
        lemma_b64_char((b[1] as int % 16) * 4 + b[2] as int / 64);
        lemma_b64_char(b[2] as int % 64);
        lemma_base64_shape(b.skip(3));
        let rest = base64_url_safe_no_pad(b.skip(3));
        assert forall|i: int| 0 <= i < e.len() implies is_url_safe_b64_char(#[trigger] e[i]) by {
            if i >= 4 {
                assert(e[i] == rest[i - 4]);
            }
        }
    }
}

/// `base64::engine::general_purpose::URL_SAFE_NO_PAD.encode`: the URL-safe
/// base64 encoding of the bytes, without padding. Inputs whose encoded
/// length would overflow `usize` make the call panic and are left out.
#[verifier::external_body]
fn encode_url_safe_no_pad(bytes: &[u8]) -> (s: String)
    requires
        bytes@.len() <= usize::MAX / 2,
    ensures
        s@ == base64_url_safe_no_pad(bytes@),
{
    base64::engine::general_purpose::URL_SAFE_NO_PAD.encode(bytes)
}

/// `rand::rng().fill_bytes`: 24 random bytes; nothing is promised of them.
#[verifier::external_body]
fn random_token_bytes() -> (b: [u8; 24])
{
    let mut bytes = [0u8; 24];
    rand::rng().fill_bytes(&mut bytes);
    bytes
}

/// A fresh access token: 24 random bytes, URL-safe base64 without padding
/// (32 characters, none of which needs escaping in a query string).
pub fn generate_token() -> (token: String)
    ensures
        exists|b: Seq<u8>| b.len() == 24 && token@ == base64_url_safe_no_pad(b),
        token@.len() == 32,
        forall|i: int| 0 <= i < token@.len() ==> is_url_safe_b64_char(#[trigger] token@[i]),
{
    let bytes = random_token_bytes();
    let token = encode_url_safe_no_pad(&bytes);
    proof {
        assert(bytes@.len() == 24);
        lemma_base64_shape(bytes@);
    }
    token
}

/// What `/mcp start` does next.
pub enum StartPlan {
    /// A bridge already runs in this process: report it, start nothing.
    AlreadyRunning(BridgeStatus),
    /// Launch the server on `port` with `token`.
    Launch { port: u16, token: String },
}

/// First step of starting the bridge: a second `/mcp start` is not an
/// error, it reports the running bridge; otherwise the requested port (or
/// [`DEFAULT_PORT`]) and the requested token (or a fresh one) are chosen.
pub fn start_request<H>(slot: &BridgeSlot<H>, port: Option<u16>, token: Option<String>) -> (plan: StartPlan)
    ensures
        match plan {
            StartPlan::AlreadyRunning(st) => slot.running is Some && slot_status_spec(*slot, st),
            StartPlan::Launch { port: p, token: t } => {
                &&& slot.running is None
                &&& p == (match port { Some(q) => q, None => DEFAULT_PORT })
                &&& (token matches Some(tk) ==> t@ == tk@)
                &&& (token is None ==> exists|b: Seq<u8>| b.len() == 24 && t@ == base64_url_safe_no_pad(b))
            },
        },
{
    match &slot.running {
        Some(running) => StartPlan::AlreadyRunning(status_of(running)),
        None => {
            let p = match port {
                Some(q) => q,
                None => DEFAULT_PORT,
            };
            let t = match token {
                Some(tk) => tk,
                None => generate_token(),
            };
            StartPlan::Launch { port: p, token: t }
        },
    }
}

/// Last step of starting the bridge: record it as running on the port the
/// server actually bound, with the tunnel's public URL if a tunnel came up.
/// Returns the status to report and the state-file record to write.
pub fn finish_start<H>(
    slot: &mut BridgeSlot<H>,
    resources: H,
    bound_port: u16,
    token: String,
    tunnel_base_url: Option<String>,
    pid: u32,
    started_at: String,
) -> (res: (BridgeStatus, McpState))
    ensures
        final(slot).running matches Some(r) && r.resources == resources && r.port == bound_port
            && r.token@ == token@,
        slot_status_spec(*final(slot), res.0),
        res.1.pid == pid,
        res.1.token@ == token@,
        res.1.local_url@ == spec_local_url(bound_port, token@),
        opt_seq(res.1.public_url) == (match tunnel_base_url {
            Some(b) => Some(spec_public_url(b@, token@)),
            None => None,
        }),
        res.1.started_at@ == started_at@,
        opt_seq(res.0.public_url) == opt_seq(res.1.public_url),
{
    let public = match &tunnel_base_url {
        Some(b) => Some(public_url(b.as_str(), token.as_str())),
        None => None,
    };
    let record = McpState {
        pid,
        token: token.clone(),
        local_url: local_url(bound_port, token.as_str()),
        public_url: clone_opt_string(&public),
        started_at,
    };
    let running = RunningBridge { resources, port: bound_port, token, public_url: public };
    let reported = status_of(&running);
    slot.running = Some(running);
    (reported, record)
}

} // verus!

verus! {

/// Once a bridge runs, its status reports it running, reachable at
/// `http://127.0.0.1:<port>/mcp?token=<token>` and at its tunnel's public
/// URL if it has one; a second start therefore reports exactly what
/// status reports.
pub proof fn law_running_bridge_status<H>(slot: BridgeSlot<H>, st: BridgeStatus)
    requires
        slot.running is Some,
        slot_status_spec(slot, st),
    ensures
        st.running,
        opt_seq(st.local_url) == Some(spec_local_url(slot.running->0.port, slot.running->0.token@)),
        opt_seq(st.public_url) == opt_seq(slot.running->0.public_url),
{
}

/// Two statuses of the same slot agree: the status is a function of the
/// slot.
pub proof fn law_status_determined<H>(slot: BridgeSlot<H>, a: BridgeStatus, b: BridgeStatus)
    requires
        slot_status_spec(slot, a),
        slot_status_spec(slot, b),
    ensures
        a.running == b.running,
        opt_seq(a.local_url) == opt_seq(b.local_url),
        opt_seq(a.public_url) == opt_seq(b.public_url),
{
}

/// An empty slot (never started, or stopped) reports no bridge, with no
/// URLs.
pub proof fn law_stopped_bridge_status<H>(slot: BridgeSlot<H>, st: BridgeStatus)
    requires
        slot.running is None,
        slot_status_spec(slot, st),
    ensures
        !st.running,
        st.local_url is None,
        st.public_url is None,
{
}

/// The URLs handed out carry the access token: both end in
/// `/mcp?token=<token>`.
pub proof fn law_urls_carry_token(port: u16, base: Seq<char>, token: Seq<char>)
    ensures
        spec_local_url(port, token).len() >= token.len() + 11,
        spec_local_url(port, token).skip(spec_local_url(port, token).len() - token.len() - 11)
            == "/mcp?token="@ + token,
        spec_public_url(base, token).skip(base.len() as int) == "/mcp?token="@ + token,
{
    reveal_strlit("/mcp?token=");
    let l = spec_local_url(port, token);
    let pre = "http://127.0.0.1:"@ + decimal(port as nat);
    assert(l =~= pre + ("/mcp?token="@ + token));
    assert(l.skip(l.len() - token.len() - 11) =~= "/mcp?token="@ + token);
    assert(spec_public_url(base, token) =~= base + ("/mcp?token="@ + token));
    assert(spec_public_url(base, token).skip(base.len() as int) =~= "/mcp?token="@ + token);
}

} // verus!
