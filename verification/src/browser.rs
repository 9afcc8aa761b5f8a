//! `browser_*` tools — headless-browser automation. What is decided here:
//! which navigation targets are allowed (http/https only, with a host that
//! does not resolve to a private address), the messages the tools report,
//! and the inputs they take. The browser itself is driven by the caller.
use vstd::prelude::*;
use crate::text::{str_eq, opt_view, truncated, decimal, u64_to_decimal};
use crate::tool::{
    ToolError, ToolErrorKind, ToolKind, ToolNamespace, ToolCapabilities, ToolScope,
    invalid_arguments, custom_error, read_only_capabilities, write_capabilities, truncate,
    MAX_OUTPUT_CHARS,
};

verus! {

#[derive(Debug, Clone)]
pub struct BrowserNavigateInput {
    pub url: String,
}

#[derive(Debug, Clone)]
pub struct BrowserClickInput {
    pub selector: String,
}

#[derive(Debug, Clone)]
pub struct BrowserTypeInput {
    pub selector: String,
    pub text: String,
    pub submit: bool,
}

#[derive(Debug, Clone, Default)]
pub struct BrowserGetTextInput {
    pub selector: Option<String>,
}

#[derive(Debug, Clone, Default)]
pub struct BrowserScreenshotInput {
    pub full_page: bool,
}

#[derive(Debug, Clone, Default)]
pub struct BrowserCloseInput {}

/// A URL as `url::Url` parses it: scheme, host (if any), port (explicit or
/// the scheme's default) and serialization.
#[derive(Debug, Clone)]
pub struct ParsedUrl {
    pub scheme: String,
    pub host: Option<String>,
    pub port: Option<u16>,
    pub serialization: String,
}

pub open spec fn parsed_view(p: ParsedUrl) -> (Seq<char>, Option<Seq<char>>, Option<u16>, Seq<char>) {
    (p.scheme@, opt_view(p.host), p.port, p.serialization@)
}

/// What `url::Url::parse` makes of `raw`: the scheme, `host_str()`,
/// `port_or_known_default()` and `to_string()` of the URL, or the text of
/// the parse error.
pub uninterp spec fn url_parse(raw: Seq<char>) -> Result<(Seq<char>, Option<Seq<char>>, Option<u16>, Seq<char>), Seq<char>>;

/// `url::Url::parse(raw)`, read into a [`ParsedUrl`]; the result is named
/// by `url_parse` of `raw`.
#[verifier::external_body]
pub fn parse_url(raw: &str) -> (r: Result<ParsedUrl, String>)
    ensures
        match r {
            Ok(p) => url_parse(raw@) == Ok::<_, Seq<char>>(parsed_view(p)),
            Err(e) => url_parse(raw@) == Err::<(Seq<char>, Option<Seq<char>>, Option<u16>, Seq<char>), _>(e@),
        },
{
    match url::Url::parse(raw) {
        Ok(u) => Ok(ParsedUrl {
            scheme: u.scheme().to_string(),
            host: u.host_str().map(|h| h.to_string()),
            port: u.port_or_known_default(),
            serialization: u.to_string(),
        }),
        Err(e) => Err(e.to_string()),
    }
}

/// A navigation target that passed the syntactic checks; its host still
/// has to be resolved and checked against the SSRF blocklist.
#[derive(Debug, Clone)]
pub struct NavTarget {
    pub host: String,
    pub port: u16,
    pub url: String,
}

/// The outcome of the syntactic checks on a parse result.
pub open spec fn check_spec(
    raw: Seq<char>,
    parsed: Result<(Seq<char>, Option<Seq<char>>, Option<u16>, Seq<char>), Seq<char>>,
    r: Result<NavTarget, ToolError>,
) -> bool {
    match parsed {
        Err(e) => r matches Err(err) && err.kind == ToolErrorKind::InvalidArguments && err.message@
            == "Invalid URL '"@ + raw + "': "@ + e,
        Ok((scheme, host, port, text)) => if scheme != "http"@ && scheme != "https"@ {
            r matches Err(err) && err.kind == ToolErrorKind::InvalidArguments && err.message@
                == "Unsupported URL scheme '"@ + scheme + "': only http/https are allowed."@
        } else {
            match host {
                None => r matches Err(err) && err.kind == ToolErrorKind::InvalidArguments && err.message@
                    == "URL '"@ + raw + "' has no host"@,
                Some(h) => r matches Ok(t) && t.host@ == h && t.port == (match port {
                    Some(p) => p,
                    None => 443u16,
                }) && t.url@ == text,
            }
        },
    }
}

/// Only `http`/`https` URLs with a host are navigable; the port is the
/// URL's own or its scheme's default (443 if it has none).
pub fn check_parsed_url(raw: &str, parsed: Result<ParsedUrl, String>) -> (r: Result<NavTarget, ToolError>)
    ensures
        check_spec(raw@, match parsed {
            Ok(p) => Ok(parsed_view(p)),
            Err(e) => Err(e@),
        }, r),
{
    match parsed {
        Err(e) => {
            let mut m = "Invalid URL '".to_owned();
            m.append(raw);
            m.append("': ");
            m.append(e.as_str());
            Err(invalid_arguments(m))
        },
        Ok(p) => {
            if !str_eq(p.scheme.as_str(), "http") && !str_eq(p.scheme.as_str(), "https") {
                let mut m = "Unsupported URL scheme '".to_owned();
                m.append(p.scheme.as_str());
                m.append("': only http/https are allowed.");
                return Err(invalid_arguments(m));
            }
            match p.host {
                None => {
                    let mut m = "URL '".to_owned();
                    m.append(raw);
                    m.append("' has no host");
                    Err(invalid_arguments(m))
                },
                Some(h) => {
                    let port = match p.port {
                        Some(q) => q,
                        None => 443,
                    };
                    Ok(NavTarget { host: h, port, url: p.serialization })
                },
            }
        },
    }
}

/// Parses `raw` with the `url` crate and applies [`check_parsed_url`].
pub fn navigation_target(raw: &str) -> (r: Result<NavTarget, ToolError>)
    ensures
        check_spec(raw@, url_parse(raw@), r),
{
    let parsed = parse_url(raw);
    check_parsed_url(raw, parsed)
}

/// The decision once the host has been resolved: the URL is navigable
/// when no address it resolves to is blocked (`Ok(None)`); a blocked
/// address (rendered as text) or a resolution failure refuses it.
pub fn navigation_verdict(target: &NavTarget, resolution: Result<Option<String>, String>) -> (r: Result<String, ToolError>)
    ensures
        match resolution {
            Ok(None) => r matches Ok(u) && u@ == target.url@,
            Ok(Some(ip)) => r matches Err(e) && e.kind == ToolErrorKind::InvalidArguments && e.message@
                == "Refusing to navigate to '"@ + target.host@ + "': resolves to "@ + ip@
                + ", a private/internal address."@,
            Err(msg) => r matches Err(e) && e.kind == ToolErrorKind::InvalidArguments && e.message@
                == "Could not resolve host '"@ + target.host@ + "': "@ + msg@,
        },
{
    match resolution {
        Ok(None) => Ok(target.url.clone()),
        Ok(Some(ip)) => {
            let mut m = "Refusing to navigate to '".to_owned();
            m.append(target.host.as_str());
            m.append("': resolves to ");
            m.append(ip.as_str());
            m.append(", a private/internal address.");
            Err(invalid_arguments(m))
        },
        Err(msg) => {
            let mut m = "Could not resolve host '".to_owned();
            m.append(target.host.as_str());
            m.append("': ");
            m.append(msg.as_str());
            Err(invalid_arguments(m))
        },
    }
}

// ── tool reports ─────────────────────────────────────────────────────────

/// `browser_navigate`'s report of where the tab landed.
pub fn navigate_message(final_url: &str, title: Option<String>) -> (m: String)
    ensures
        m@ == "Navigated to "@ + final_url@ + "\nPage title: "@ + (match title {
            Some(t) => t@,
            None => "(untitled)"@,
        }),
{
    let mut m = "Navigated to ".to_owned();
    m.append(final_url);
    m.append("\nPage title: ");
    match title {
        Some(t) => m.append(t.as_str()),
        None => m.append("(untitled)"),
    }
    m
}

/// After a click, the tab's location has to be checked again unless no
/// page is open or it shows `about:blank`.
pub fn click_needs_recheck(current_url: &Option<String>) -> (b: bool)
    ensures
        b == (current_url matches Some(u) && u@ != "about:blank"@),
{
    match current_url {
        Some(u) => !str_eq(u.as_str(), "about:blank"),
        None => false,
    }
}

pub fn click_message(selector: &str) -> (m: String)
    ensures
        m@ == "Clicked element matching '"@ + selector@ + "'."@,
{
    let mut m = "Clicked element matching '".to_owned();
    m.append(selector);
    m.append("'.");
    m
}

pub fn type_message(selector: &str) -> (m: String)
    ensures
        m@ == "Typed into element matching '"@ + selector@ + "'."@,
{
    let mut m = "Typed into element matching '".to_owned();
    m.append(selector);
    m.append("'.");
    m
}

pub fn close_message(was_running: bool) -> (m: String)
    ensures
        m@ == (if was_running { "Browser closed."@ } else { "No browser was open."@ }),
{
    if was_running {
        "Browser closed.".to_owned()
    } else {
        "No browser was open.".to_owned()
    }
}

/// `browser_get_text` cuts the page text after 20 000 characters.
pub fn page_text(text: String) -> (t: String)
    ensures
        t@ == truncated(text@, MAX_OUTPUT_CHARS as nat),
{
    truncate(text)
}

// ── browser service errors ───────────────────────────────────────────────

/// Navigation may take this many seconds; other actions 15.
pub const NAVIGATE_TIMEOUT_SECS: u64 = 30;
pub const ACTION_TIMEOUT_SECS: u64 = 15;

pub fn timeout_error(action: &str, secs: u64) -> (e: ToolError)
    ensures
        e.kind == ToolErrorKind::Custom,
        e.message@ == "Browser "@ + action@ + " timed out after "@ + decimal(secs as nat) + "s"@,
{
    let mut m = "Browser ".to_owned();
    m.append(action);
    m.append(" timed out after ");
    let n = u64_to_decimal(secs);
    m.append(n.as_str());
    m.append("s");
    custom_error(m)
}

pub fn launch_failed(detail: &str) -> (e: ToolError)
    ensures
        e.kind == ToolErrorKind::Custom,
        e.message@ == "Could not launch a browser — is Google Chrome or Chromium installed? ("@ + detail@ + ")"@,
{
    let mut m = "Could not launch a browser — is Google Chrome or Chromium installed? (".to_owned();
    m.append(detail);
    m.append(")");
    custom_error(m)
}

pub fn cdp_failed(action: &str, detail: &str) -> (e: ToolError)
    ensures
        e.kind == ToolErrorKind::Custom,
        e.message@ == "Browser "@ + action@ + " failed: "@ + detail@,
{
    let mut m = "Browser ".to_owned();
    m.append(action);
    m.append(" failed: ");
    m.append(detail);
    custom_error(m)
}

pub fn no_element_error(selector: &str, detail: &str) -> (e: ToolError)
    ensures
        e.kind == ToolErrorKind::Custom,
        e.message@ == "No element matches selector '"@ + selector@ + "': "@ + detail@,
{
    let mut m = "No element matches selector '".to_owned();
    m.append(selector);
    m.append("': ");
    m.append(detail);
    custom_error(m)
}

} // verus!

verus! {
#[derive(Debug, Default)]
pub struct BrowserNavigateTool;

impl BrowserNavigateTool {
    pub fn id(&self) -> (id: &'static str)
        ensures
            id@ == "browser_navigate"@,
    {
        "browser_navigate"
    }

    pub fn description_template(&self) -> (d: &'static str)
        ensures
            d@ == "Navigate the browser to a URL and wait for the page to load. Launches a headless browser on first use; the same tab is reused for every subsequent browser_* call in this session. Returns the page's final URL (after any redirects) and title."@,
    {
        "Navigate the browser to a URL and wait for the page to load. Launches a headless browser on first use; the same tab is reused for every subsequent browser_* call in this session. Returns the page's final URL (after any redirects) and title."
    }

    pub fn kind(&self) -> (k: ToolKind)
        ensures
            k == ToolKind::Browser,
    {
        ToolKind::Browser
    }

    pub fn tool_namespace(&self) -> (n: ToolNamespace)
        ensures
            n == ToolNamespace::GrokBuild,
    {
        ToolNamespace::GrokBuild
    }

    pub fn capabilities(&self) -> (c: ToolCapabilities)
        ensures
            c == (ToolCapabilities { is_read_only: false, tool_scope: ToolScope::Write }),
    {
        write_capabilities()
    }
}

#[derive(Debug, Default)]
pub struct BrowserClickTool;

impl BrowserClickTool {
    pub fn id(&self) -> (id: &'static str)
        ensures
            id@ == "browser_click"@,
    {
        "browser_click"
    }

    pub fn description_template(&self) -> (d: &'static str)
        ensures
            d@ == "Click the first element on the current page matching a CSS selector. Call browser_navigate first if no page is loaded yet."@,
    {
        "Click the first element on the current page matching a CSS selector. Call browser_navigate first if no page is loaded yet."
    }

    pub fn kind(&self) -> (k: ToolKind)
        ensures
            k == ToolKind::Browser,
    {
        ToolKind::Browser
    }

    pub fn tool_namespace(&self) -> (n: ToolNamespace)
        ensures
            n == ToolNamespace::GrokBuild,
    {
        ToolNamespace::GrokBuild
    }

    pub fn capabilities(&self) -> (c: ToolCapabilities)
        ensures
            c == (ToolCapabilities { is_read_only: false, tool_scope: ToolScope::Write }),
    {
        write_capabilities()
    }
}

#[derive(Debug, Default)]
pub struct BrowserTypeTool;

impl BrowserTypeTool {
    pub fn id(&self) -> (id: &'static str)
        ensures
            id@ == "browser_type"@,
    {
        "browser_type"
    }

    pub fn description_template(&self) -> (d: &'static str)
        ensures
            d@ == "Type text into an input/textarea element on the current page, identified by a CSS selector. Set submit=true to press Enter afterward (e.g. to submit a search box)."@,
    {
        "Type text into an input/textarea element on the current page, identified by a CSS selector. Set submit=true to press Enter afterward (e.g. to submit a search box)."
    }

    pub fn kind(&self) -> (k: ToolKind)
        ensures
            k == ToolKind::Browser,
    {
        ToolKind::Browser
    }

    pub fn tool_namespace(&self) -> (n: ToolNamespace)
        ensures
            n == ToolNamespace::GrokBuild,
    {
        ToolNamespace::GrokBuild
    }

    pub fn capabilities(&self) -> (c: ToolCapabilities)
        ensures
            c == (ToolCapabilities { is_read_only: false, tool_scope: ToolScope::Write }),
    {
        write_capabilities()
    }
}

#[derive(Debug, Default)]
pub struct BrowserGetTextTool;

impl BrowserGetTextTool {
    pub fn id(&self) -> (id: &'static str)
        ensures
            id@ == "browser_get_text"@,
    {
        "browser_get_text"
    }

    pub fn description_template(&self) -> (d: &'static str)
        ensures
            d@ == "Extract the visible text of the current page (or one element, via a CSS selector). Long text is truncated."@,
    {
        "Extract the visible text of the current page (or one element, via a CSS selector). Long text is truncated."
    }

    pub fn kind(&self) -> (k: ToolKind)
        ensures
            k == ToolKind::Browser,
    {
        ToolKind::Browser
    }

    pub fn tool_namespace(&self) -> (n: ToolNamespace)
        ensures
            n == ToolNamespace::GrokBuild,
    {
        ToolNamespace::GrokBuild
    }

    pub fn capabilities(&self) -> (c: ToolCapabilities)
        ensures
            c == (ToolCapabilities { is_read_only: true, tool_scope: ToolScope::Read }),
    {
        read_only_capabilities()
    }
}

#[derive(Debug, Default)]
pub struct BrowserScreenshotTool;

impl BrowserScreenshotTool {
    pub fn id(&self) -> (id: &'static str)
        ensures
            id@ == "browser_screenshot"@,
    {
        "browser_screenshot"
    }

    pub fn description_template(&self) -> (d: &'static str)
        ensures
            d@ == "Take a screenshot of the current page and return it as an image you can see."@,
    {
        "Take a screenshot of the current page and return it as an image you can see."
    }

    pub fn kind(&self) -> (k: ToolKind)
        ensures
            k == ToolKind::Browser,
    {
        ToolKind::Browser
    }

    pub fn tool_namespace(&self) -> (n: ToolNamespace)
        ensures
            n == ToolNamespace::GrokBuild,
    {
        ToolNamespace::GrokBuild
    }

    pub fn capabilities(&self) -> (c: ToolCapabilities)
        ensures
            c == (ToolCapabilities { is_read_only: true, tool_scope: ToolScope::Read }),
    {
        read_only_capabilities()
    }
}

#[derive(Debug, Default)]
pub struct BrowserCloseTool;

impl BrowserCloseTool {
    pub fn id(&self) -> (id: &'static str)
        ensures
            id@ == "browser_close"@,
    {
        "browser_close"
    }

    pub fn description_template(&self) -> (d: &'static str)
        ensures
            d@ == "Close the browser and free its resources. Safe to call even if no browser was ever opened. Not required at the end of a turn — it's only for freeing resources early."@,
    {
        "Close the browser and free its resources. Safe to call even if no browser was ever opened. Not required at the end of a turn — it's only for freeing resources early."
    }

    pub fn kind(&self) -> (k: ToolKind)
        ensures
            k == ToolKind::Browser,
    {
        ToolKind::Browser
    }

    pub fn tool_namespace(&self) -> (n: ToolNamespace)
        ensures
            n == ToolNamespace::GrokBuild,
    {
        ToolNamespace::GrokBuild
    }

    pub fn capabilities(&self) -> (c: ToolCapabilities)
        ensures
            c == (ToolCapabilities { is_read_only: false, tool_scope: ToolScope::Write }),
    {
        write_capabilities()
    }
}

} // verus!
