//! Cloudflare Worker credentials for the stable remote-MCP URL: the
//! `~/.failure/cloudflare-worker.json` record, its masked status view, the
//! worker-name and URL encodings, and the decisions of `/mcp-worker
//! configure` (token check, account choice, API envelope handling).
use vstd::prelude::*;
use crate::text::{
    ascii_lower, char_is_ascii_alphanumeric, char_to_ascii_lowercase, chars_of, is_ascii_alnum,
    push_char, trim, trim_str, join, join_strings, views, opt_view, string_from_chars,
};

verus! {

pub open spec fn default_worker_name() -> Seq<char> {
    "failure-mcp"@
}

/// The credential record shared with the npm wrapper.
#[derive(Debug, Clone)]
pub struct CloudflareWorkerConfig {
    pub api_token: String,
    pub account_id: String,
    pub worker_name: String,
    pub enabled: bool,
}

/// An account the API token can access.
#[derive(Debug, Clone)]
pub struct CloudflareAccount {
    pub id: String,
    pub name: String,
}

/// Result of a successful `/mcp-worker configure`.
pub struct ConfigureOutcome {
    pub worker_name: String,
    pub account_id: String,
    pub subdomain: String,
}

impl ConfigureOutcome {
    /// `https://<worker>.<subdomain>.workers.dev`.
    pub fn worker_url(&self) -> (u: String)
        ensures
            u@ == "https://"@ + self.worker_name@ + "."@ + self.subdomain@ + ".workers.dev"@,
    {
        let mut u = "https://".to_owned();
        u.append(self.worker_name.as_str());
        u.append(".");
        u.append(self.subdomain.as_str());
        u.append(".workers.dev");
        u
    }
}


/// The token as `/mcp-worker status` shows it: its first and last four
/// characters around `...` when it is longer than eight characters,
/// `(short token)` otherwise.
pub open spec fn masked_token(tok: Seq<char>) -> Seq<char> {
    if tok.len() > 8 {
        tok.take(4) + "..."@ + tok.skip(tok.len() - 4)
    } else {
        "(short token)"@
    }
}

pub open spec fn spec_status_text(cfg: CloudflareWorkerConfig) -> Seq<char> {
    "Worker: "@ + cfg.worker_name@ + "\nAccount: "@ + cfg.account_id@ + "\nAPI token: "@
        + masked_token(cfg.api_token@)
}

fn mask_token(tok: &str) -> (m: String)
    ensures
        m@ == masked_token(tok@),
{
    let v = chars_of(tok);
    let n = v.len();
    if n > 8 {
        let mut m = string_from_chars(&v.as_slice()[0..4]);
        m.append("...");
        let tail = string_from_chars(&v.as_slice()[n - 4..n]);
        m.append(tail.as_str());
        proof {
            assert(v@.subrange(0, 4) =~= tok@.take(4));
            assert(v@.subrange(n - 4, n as int) =~= tok@.skip(n - 4));
        }
        m
    } else {
        "(short token)".to_owned()
    }
}

/// A masked view of the stored config for `/mcp-worker status`: `None`
/// when nothing is configured.
pub fn masked_status(config: Option<&CloudflareWorkerConfig>) -> (status: Option<String>)
    ensures
        match config {
            None => status is None,
            Some(c) => status matches Some(s) && s@ == spec_status_text(*c),
        },
{
    match config {
        None => None,
        Some(cfg) => {
            let masked = mask_token(cfg.api_token.as_str());
            let mut s = "Worker: ".to_owned();
            s.append(cfg.worker_name.as_str());
            s.append("\nAccount: ");
            s.append(cfg.account_id.as_str());
            s.append("\nAPI token: ");
            s.append(masked.as_str());
            Some(s)
        },
    }
}

} // verus!

verus! {

/// An uppercase hexadecimal digit.
pub open spec fn hex_char(n: nat) -> char {
    if n < 10 {
        (('0' as u32) + n) as char
    } else {
        (('A' as u32) + (n - 10)) as char
    }
}

/// Uppercase hexadecimal digits of `n`, without leading zeros.
pub open spec fn hex_digits(n: nat) -> Seq<char>
    decreases n,
{
    if n < 16 {
        seq![hex_char(n)]
    } else {
        hex_digits(n / 16).push(hex_char(n % 16))
    }
}

/// `format!("{:02X}", n)`: uppercase hex, zero-padded to two digits.
pub open spec fn hex2(n: nat) -> Seq<char> {
    if n < 16 {
        seq!['0', hex_char(n)]
    } else {
        hex_digits(n)
    }
}

/// Characters `urlencode` leaves as they are.
pub open spec fn is_unreserved(c: char) -> bool {
    is_ascii_alnum(c) || c == '-' || c == '_' || c == '.' || c == '~'
}

pub open spec fn encode_char(c: char) -> Seq<char> {
    if is_unreserved(c) {
        seq![c]
    } else {
        seq!['%'] + hex2(c as nat)
    }
}

/// Percent-encoding of every character but `[A-Za-z0-9-_.~]`, by its code
/// point in uppercase hex.
pub open spec fn urlencode_spec(s: Seq<char>) -> Seq<char>
    decreases s.len(),
{
    if s.len() == 0 {
        Seq::empty()
    } else {
        urlencode_spec(s.drop_last()) + encode_char(s.last())
    }
}

fn hex_char_exec(n: u32) -> (c: char)
    requires
        n < 16,
    ensures
        c == hex_char(n as nat),
{
    if n < 10 {
        ((n as u8) + 48u8) as char
    } else {
        ((n as u8) + 55u8) as char
    }
}

fn push_hex_digits(out: &mut String, n: u32)
    ensures
        final(out)@ == old(out)@ + hex_digits(n as nat),
    decreases n,
{
    if n < 16 {
        push_char(out, hex_char_exec(n));
    } else {
        push_hex_digits(out, n / 16);
        push_char(out, hex_char_exec(n % 16));
        proof {
            assert(old(out)@ + hex_digits(n as nat) =~= old(out)@ + hex_digits((n / 16) as nat) + seq![hex_char((n % 16) as nat)]);
        }
    }
}

fn push_encoded_char(out: &mut String, c: char)
    ensures
        final(out)@ == old(out)@ + encode_char(c),
{
    if char_is_ascii_alphanumeric(c) || c == '-' || c == '_' || c == '.' || c == '~' {
        push_char(out, c);
        proof {
            assert(old(out)@.push(c) =~= old(out)@ + seq![c]);
        }
    } else {
        let n = c as u32;
        push_char(out, '%');
        if n < 16 {
            push_char(out, '0');
        }
        push_hex_digits(out, n);
        proof {
            assert(final(out)@ =~= old(out)@ + encode_char(c));
        }
    }
}

/// Percent-encodes a path segment for the Cloudflare API.
pub fn urlencode(s: &str) -> (e: String)
    ensures
        e@ == urlencode_spec(s@),
{
    let v = chars_of(s);
    let mut out = String::new();
    let mut i: usize = 0;
    while i < v.len()
        invariant
            v@ == s@,
            i <= v@.len(),
            out@ == urlencode_spec(v@.take(i as int)),
        decreases v@.len() - i,
    {
        proof {
            assert(v@.take(i + 1).drop_last() =~= v@.take(i as int));
        }
        push_encoded_char(&mut out, v[i]);
        i = i + 1;
    }
    proof {
        assert(v@.take(v@.len() as int) =~= v@);
    }
    out
}

/// One character of a sanitized worker name: lowercased, and `-` for
/// anything outside `[a-z0-9-_]`.
pub open spec fn sanitize_char(c: char) -> char {
    let l = ascii_lower(c);
    if is_ascii_alnum(l) || l == '-' || l == '_' {
        l
    } else {
        '-'
    }
}

pub open spec fn sanitize_spec(s: Seq<char>) -> Seq<char> {
    s.map_values(|c: char| sanitize_char(c))
}

/// Sanitizes a worker name the way the npm wrapper does: lowercase, with
/// every character outside `[a-z0-9-_]` replaced by `-`.
pub fn sanitize_worker_name(name: &str) -> (s: String)
    ensures
        s@ == sanitize_spec(name@),
{
    let v = chars_of(name);
    let mut out = String::new();
    let mut i: usize = 0;
    while i < v.len()
        invariant
            v@ == name@,
            i <= v@.len(),
            out@ == sanitize_spec(v@.take(i as int)),
        decreases v@.len() - i,
    {
        let l = char_to_ascii_lowercase(v[i]);
        let c = if char_is_ascii_alphanumeric(l) || l == '-' || l == '_' { l } else { '-' };
        push_char(&mut out, c);
        i = i + 1;
        proof {
            assert(sanitize_spec(v@.take(i as int)) =~= sanitize_spec(v@.take(i - 1)).push(sanitize_char(v@[i - 1])));
        }
    }
    proof {
        assert(v@.take(v@.len() as int) =~= v@);
    }
    out
}

pub open spec fn api_base() -> Seq<char> {
    "https://api.cloudflare.com/client/v4"@
}

/// The full URL of a Cloudflare API path.
pub fn api_url(path: &str) -> (u: String)
    ensures
        u@ == api_base() + path@,
{
    let mut u = "https://api.cloudflare.com/client/v4".to_owned();
    u.append(path);
    u
}

/// The path listing the accounts a token can access.
pub fn accounts_path() -> (p: &'static str)
    ensures
        p@ == "/accounts?per_page=50"@,
{
    "/accounts?per_page=50"
}

/// The path of an account's `workers.dev` subdomain.
pub fn subdomain_path(account_id: &str) -> (p: String)
    ensures
        p@ == "/accounts/"@ + urlencode_spec(account_id@) + "/workers/subdomain"@,
{
    let mut p = "/accounts/".to_owned();
    let enc = urlencode(account_id);
    p.append(enc.as_str());
    p.append("/workers/subdomain");
    p
}

/// What a Cloudflare API envelope yields: its result on success; on
/// failure the error messages joined by `; `, or the HTTP status when
/// there are none; and an error when a successful envelope has no result.
pub fn envelope_result<T>(success: bool, error_messages: &Vec<String>, status: &str, result: Option<T>) -> (r: Result<T, String>)
    ensures
        !success ==> (r matches Err(e) && e@ == "Cloudflare API error: "@ + (if error_messages@.len() == 0 {
            status@
        } else {
            join(views(error_messages@), "; "@)
        })),
        success ==> match result {
            Some(t) => r == Ok::<T, String>(t),
            None => r matches Err(e) && e@ == "Cloudflare API returned no result"@,
        },
{
    if !success {
        let detail = join_strings(error_messages, "; ");
        let mut e = "Cloudflare API error: ".to_owned();
        if error_messages.len() == 0 {
            e.append(status);
        } else {
            e.append(detail.as_str());
        }
        return Err(e);
    }
    match result {
        Some(t) => Ok(t),
        None => Err("Cloudflare API returned no result".to_owned()),
    }
}

/// The first check of `/mcp-worker configure`: a blank token is refused;
/// otherwise the worker name (given, or `failure-mcp`) is sanitized.
pub fn configure_worker_name(api_token: &str, worker_name: Option<&str>) -> (r: Result<String, String>)
    ensures
        trim(api_token@).len() == 0 ==> (r matches Err(e) && e@ == "Cloudflare API token is required."@),
        trim(api_token@).len() > 0 ==> (r matches Ok(n) && n@ == sanitize_spec(match worker_name {
            Some(w) => w@,
            None => default_worker_name(),
        })),
{
    let t = trim_str(api_token);
    if t.as_str().is_empty() {
        return Err("Cloudflare API token is required.".to_owned());
    }
    let name = match worker_name {
        Some(w) => w,
        None => "failure-mcp",
    };
    Ok(sanitize_worker_name(name))
}

/// How an account appears in the "multiple accounts" error: its name (or
/// its id when unnamed), then its id in parentheses.
pub open spec fn account_label(a: CloudflareAccount) -> Seq<char> {
    (if a.name@.len() == 0 { a.id@ } else { a.name@ }) + " ("@ + a.id@ + ")"@
}

pub open spec fn account_labels(accounts: Seq<CloudflareAccount>) -> Seq<Seq<char>> {
    accounts.map_values(|a: CloudflareAccount| account_label(a))
}

pub open spec fn no_account_message() -> Seq<char> {
    "The Cloudflare token cannot access any accounts. Check its account scope and permissions."@
}

pub open spec fn many_accounts_message(accounts: Seq<CloudflareAccount>) -> Seq<char> {
    "This token can access multiple accounts: "@ + join(account_labels(accounts), ", "@)
        + ". Re-run with the account ID as a fourth argument."@
}

/// The account to configure when none was given: the only account the
/// token can see; an error when it sees none, or several (listing them).
pub fn choose_account(accounts: &Vec<CloudflareAccount>) -> (r: Result<String, String>)
    ensures
        accounts@.len() == 0 ==> (r matches Err(e) && e@ == no_account_message()),
        accounts@.len() == 1 ==> (r matches Ok(id) && id@ == accounts@[0].id@),
        accounts@.len() > 1 ==> (r matches Err(e) && e@ == many_accounts_message(accounts@)),
{
    if accounts.len() == 0 {
        return Err("The Cloudflare token cannot access any accounts. Check its account scope and permissions.".to_owned());
    }
    if accounts.len() == 1 {
        return Ok(accounts[0].id.clone());
    }
    let mut labels: Vec<String> = Vec::new();
    let mut i: usize = 0;
    while i < accounts.len()
        invariant
            i <= accounts@.len(),
            views(labels@) == account_labels(accounts@.take(i as int)),
        decreases accounts@.len() - i,
    {
        let a = &accounts[i];
        let mut l = if a.name.as_str().is_empty() { a.id.clone() } else { a.name.clone() };
        l.append(" (");
        l.append(a.id.as_str());
        l.append(")");
        assert(l@ == account_label(accounts@[i as int]));
        let ghost before = labels@;
        labels.push(l);
        proof {
            assert(views(labels@) =~= views(before).push(account_label(accounts@[i as int])));
            assert(accounts@.take(i + 1) =~= accounts@.take(i as int).push(accounts@[i as int]));
            assert(account_labels(accounts@.take(i + 1)) =~= account_labels(accounts@.take(i as int)).push(account_label(accounts@[i as int])));
        }
        i = i + 1;
    }
    proof {
        assert(accounts@.take(accounts@.len() as int) =~= accounts@);
    }
    let list = join_strings(&labels, ", ");
    let mut e = "This token can access multiple accounts: ".to_owned();
    e.append(list.as_str());
    e.append(". Re-run with the account ID as a fourth argument.");
    Err(e)
}

/// The record to save and the outcome to report once the account's
/// subdomain has been confirmed.
pub fn configured(api_token: String, account_id: String, worker_name: String, subdomain: String) -> (r: (CloudflareWorkerConfig, ConfigureOutcome))
    ensures
        r.0.api_token@ == api_token@,
        r.0.account_id@ == account_id@,
        r.0.worker_name@ == worker_name@,
        r.0.enabled,
        r.1.worker_name@ == worker_name@,
        r.1.account_id@ == account_id@,
        r.1.subdomain@ == subdomain@,
{
    let cfg = CloudflareWorkerConfig {
        api_token,
        account_id: account_id.clone(),
        worker_name: worker_name.clone(),
        enabled: true,
    };
    (cfg, ConfigureOutcome { worker_name, account_id, subdomain })
}

/// A `/mcp-worker configure` request that passed the token check: the
/// token and the sanitized worker name.
pub struct ConfigureRequest {
    pub api_token: String,
    pub worker_name: String,
}

/// What `/mcp-worker configure` does next.
pub enum ConfigureStep {
    /// Fetch [`accounts_path`] with the token, then
    /// [`configure_with_accounts`].
    ListAccounts(ConfigureRequest),
    /// Fetch [`subdomain_path`] of the account with the token, then
    /// [`configure_with_subdomain`].
    FetchSubdomain(ConfigureRequest, String),
    /// Save the record, then report the outcome.
    Save(CloudflareWorkerConfig, ConfigureOutcome),
    /// Stop with this error.
    Fail(String),
}

/// The request carries a non-blank token and the sanitized name.
pub open spec fn request_is(r: ConfigureRequest, api_token: Seq<char>, worker_name: Option<Seq<char>>) -> bool {
    &&& r.api_token@ == api_token
    &&& r.worker_name@ == sanitize_spec(match worker_name {
        Some(w) => w,
        None => default_worker_name(),
    })
}

/// Saving `cfg` and reporting `out` configures `api_token`, `account_id`,
/// `worker_name` and `subdomain`, enabled.
pub open spec fn save_is(
    cfg: CloudflareWorkerConfig,
    out: ConfigureOutcome,
    api_token: Seq<char>,
    account_id: Seq<char>,
    worker_name: Seq<char>,
    subdomain: Seq<char>,
) -> bool {
    &&& cfg.api_token@ == api_token && cfg.account_id@ == account_id && cfg.worker_name@ == worker_name
    &&& cfg.enabled
    &&& out.worker_name@ == worker_name && out.account_id@ == account_id && out.subdomain@ == subdomain
}

/// The first step: a blank token is refused; a given account goes straight
/// to its subdomain, otherwise the token's accounts are listed.
pub fn configure_start(api_token: String, worker_name: Option<String>, account_id: Option<String>) -> (step: ConfigureStep)
    ensures
        trim(api_token@).len() == 0 ==> (step matches ConfigureStep::Fail(e) && e@
            == "Cloudflare API token is required."@),
        trim(api_token@).len() > 0 ==> match account_id {
            Some(id) => step matches ConfigureStep::FetchSubdomain(r, a) && a@ == id@ && request_is(
                r,
                api_token@,
                opt_view(worker_name),
            ),
            None => step matches ConfigureStep::ListAccounts(r) && request_is(r, api_token@, opt_view(worker_name)),
        },
{
    let name = match &worker_name {
        Some(w) => configure_worker_name(api_token.as_str(), Some(w.as_str())),
        None => configure_worker_name(api_token.as_str(), None),
    };
    match name {
        Err(e) => ConfigureStep::Fail(e),
        Ok(n) => {
            let req = ConfigureRequest { api_token, worker_name: n };
            match account_id {
                Some(id) => ConfigureStep::FetchSubdomain(req, id),
                None => ConfigureStep::ListAccounts(req),
            }
        },
    }
}

/// After listing the accounts: a failed call stops with its error;
/// otherwise the account is chosen as [`choose_account`] does.
pub fn configure_with_accounts(req: ConfigureRequest, accounts: Result<Vec<CloudflareAccount>, String>) -> (step: ConfigureStep)
    ensures
        match accounts {
            Err(e) => step matches ConfigureStep::Fail(m) && m@ == e@,
            Ok(v) => if v@.len() == 0 {
                step matches ConfigureStep::Fail(m) && m@ == no_account_message()
            } else if v@.len() == 1 {
                step matches ConfigureStep::FetchSubdomain(r, a) && a@ == v@[0].id@ && r == req
            } else {
                step matches ConfigureStep::Fail(m) && m@ == many_accounts_message(v@)
            },
        },
{
    match accounts {
        Err(e) => ConfigureStep::Fail(e),
        Ok(v) => match choose_account(&v) {
            Ok(id) => ConfigureStep::FetchSubdomain(req, id),
            Err(e) => ConfigureStep::Fail(e),
        },
    }
}

/// After fetching the account's subdomain: a failed call stops with its
/// error; otherwise the record is saved, enabled.
pub fn configure_with_subdomain(req: ConfigureRequest, account_id: String, subdomain: Result<String, String>) -> (step: ConfigureStep)
    ensures
        match subdomain {
            Err(e) => step matches ConfigureStep::Fail(m) && m@ == e@,
            Ok(sd) => step matches ConfigureStep::Save(cfg, out) && save_is(
                cfg,
                out,
                req.api_token@,
                account_id@,
                req.worker_name@,
                sd@,
            ),
        },
{
    match subdomain {
        Err(e) => ConfigureStep::Fail(e),
        Ok(sd) => {
            let (cfg, out) = configured(req.api_token, account_id, req.worker_name, sd);
            ConfigureStep::Save(cfg, out)
        },
    }
}

/// The saved credentials as read from disk, and whether they were
/// removed during a command (so the caller deletes the file).
pub struct WorkerConfigStore {
    pub config: Option<CloudflareWorkerConfig>,
    pub removed: bool,
}

/// Forget the saved credentials. Idempotent.
pub fn remove_config(store: &mut WorkerConfigStore)
    ensures
        final(store).config is None,
        final(store).removed,
{
    store.config = None;
    store.removed = true;
}

} // verus!

verus! {

/// A sanitized worker name holds only `[a-z0-9-_]`.
pub open spec fn is_worker_name_char(c: char) -> bool {
    ('a' <= c <= 'z') || ('0' <= c <= '9') || c == '-' || c == '_'
}

proof fn lemma_sanitize_char(c: char)
    ensures
        is_worker_name_char(sanitize_char(c)),
        sanitize_char(sanitize_char(c)) == sanitize_char(c),
{
    let l = ascii_lower(c);
    if 'A' <= c <= 'Z' {
        assert(('a' as u32) <= (c as u32) + 32 <= ('z' as u32));
        assert('a' <= l <= 'z');
    }
}

/// Sanitizing keeps the length, yields only `[a-z0-9-_]`, and a sanitized
/// name is left as it is by a second sanitization.
pub proof fn lemma_sanitize_worker_name(name: Seq<char>)
    ensures
        sanitize_spec(name).len() == name.len(),
        forall|i: int| 0 <= i < name.len() ==> is_worker_name_char(#[trigger] sanitize_spec(name)[i]),
        sanitize_spec(sanitize_spec(name)) == sanitize_spec(name),
{
    assert forall|i: int| 0 <= i < name.len() implies is_worker_name_char(#[trigger] sanitize_spec(name)[i]) by {
        lemma_sanitize_char(name[i]);
    }
    assert forall|i: int| 0 <= i < name.len() implies #[trigger] sanitize_spec(sanitize_spec(name))[i]
        == sanitize_spec(name)[i] by {
        lemma_sanitize_char(name[i]);
    }
    assert(sanitize_spec(sanitize_spec(name)) =~= sanitize_spec(name));
}

/// Characters that need no encoding are left as they are.
pub proof fn lemma_urlencode_unreserved(s: Seq<char>)
    requires
        forall|i: int| 0 <= i < s.len() ==> is_unreserved(#[trigger] s[i]),
    ensures
        urlencode_spec(s) == s,
    decreases s.len(),
{
    if s.len() > 0 {
        lemma_urlencode_unreserved(s.drop_last());
        assert(s.drop_last().push(s.last()) =~= s);
        assert(is_unreserved(s[s.len() - 1]));
        assert(urlencode_spec(s) =~= s);
    }
}

/// The status never shows a token in full, except a token that already
/// reads like a masked one: eleven characters with `...` in the middle.
pub proof fn law_masked_token_hides_token(tok: Seq<char>)
    ensures
        masked_token(tok) == tok ==> tok.len() == 11 && tok.subrange(4, 7) == "..."@,
        tok.len() > 8 ==> masked_token(tok).len() == 11,
{
    reveal_strlit("...");
    reveal_strlit("(short token)");
    if tok.len() > 8 {
        let m = masked_token(tok);
        assert(m.len() == 11);
        if m == tok {
            assert(tok.subrange(4, 7) =~= m.subrange(4, 7));
            assert(m.subrange(4, 7) =~= "..."@);
        }
    }
}

} // verus!
