use failure_kit::browser::{
    cdp_failed, check_parsed_url, click_message, click_needs_recheck, close_message,
    launch_failed, navigate_message, navigation_target, navigation_verdict, no_element_error,
    page_text, parse_url, timeout_error, type_message, BrowserClickTool, BrowserCloseTool,
    BrowserGetTextInput, BrowserGetTextTool, BrowserNavigateTool, BrowserScreenshotTool,
    BrowserTypeTool, ParsedUrl, NAVIGATE_TIMEOUT_SECS,
};
use failure_kit::ssrf::{first_blocked_ip, IpAddr, Ipv4Addr};
use failure_kit::tool::ToolErrorKind;

#[test]
fn browser_tool_ids() {
    assert_eq!(BrowserNavigateTool.id(), "browser_navigate");
    assert_eq!(BrowserClickTool.id(), "browser_click");
    assert_eq!(BrowserTypeTool.id(), "browser_type");
    assert_eq!(BrowserGetTextTool.id(), "browser_get_text");
    assert_eq!(BrowserScreenshotTool.id(), "browser_screenshot");
    assert_eq!(BrowserCloseTool.id(), "browser_close");
    assert!(BrowserGetTextTool.capabilities().is_read_only);
    assert!(!BrowserClickTool.capabilities().is_read_only);
}

#[test]
fn rejects_non_http_schemes() {
    for bad in ["file:///etc/passwd", "javascript:alert(1)", "chrome://settings"] {
        let err = navigation_target(bad).unwrap_err();
        assert!(err.message.contains("scheme"), "got: {}", err.message);
    }
}

#[test]
fn rejects_private_ip_literal() {
    let target = navigation_target("http://169.254.169.254/latest/meta-data").unwrap();
    assert_eq!(target.host, "169.254.169.254");
    assert_eq!(target.port, 80);
    let resolved = vec![IpAddr::V4(Ipv4Addr { octets: [169, 254, 169, 254] })];
    let blocked = first_blocked_ip(&resolved).map(|_| target.host.clone());
    let err = navigation_verdict(&target, Ok(blocked)).unwrap_err();
    assert!(err.message.contains("private/internal"), "got: {}", err.message);
}

#[test]
fn accepts_public_https_url() {
    let target = navigation_target("https://example.com/page").unwrap();
    assert_eq!(target.host, "example.com");
    assert_eq!(target.port, 443);
    let ok = navigation_verdict(&target, Ok(None));
    assert_eq!(ok.unwrap(), "https://example.com/page");
}

#[test]
fn get_text_input_selector_defaults_to_none() {
    let input = BrowserGetTextInput::default();
    assert_eq!(input.selector, None);
}

#[test]
fn url_checks_and_their_errors() {
    let e = navigation_target("not a url").unwrap_err();
    assert_eq!(e.kind, ToolErrorKind::InvalidArguments);
    assert!(e.message.starts_with("Invalid URL 'not a url': "));
    let e = navigation_target("javascript:alert(1)").unwrap_err();
    assert_eq!(e.message, "Unsupported URL scheme 'javascript': only http/https are allowed.");
    let t = navigation_target("http://Example.COM:8080").unwrap();
    assert_eq!(t.host, "example.com");
    assert_eq!(t.port, 8080);
    assert_eq!(t.url, "http://example.com:8080/");
    let p = parse_url("https://a.b/c?d").unwrap();
    assert_eq!(p.scheme, "https");
    assert_eq!(p.host.as_deref(), Some("a.b"));
    assert_eq!(p.port, Some(443));
    let no_host = ParsedUrl {
        scheme: "http".to_owned(),
        host: None,
        port: None,
        serialization: "http:".to_owned(),
    };
    let e = check_parsed_url("http:", Ok(no_host)).unwrap_err();
    assert_eq!(e.message, "URL 'http:' has no host");
    let odd = ParsedUrl {
        scheme: "https".to_owned(),
        host: Some("h".to_owned()),
        port: None,
        serialization: "https://h/".to_owned(),
    };
    assert_eq!(check_parsed_url("https://h", Ok(odd)).unwrap().port, 443);
    let e = check_parsed_url("x", Err("boom".to_owned())).unwrap_err();
    assert_eq!(e.message, "Invalid URL 'x': boom");
}

#[test]
fn navigation_verdicts() {
    let t = navigation_target("https://example.com").unwrap();
    let e = navigation_verdict(&t, Ok(Some("10.0.0.1".to_owned()))).unwrap_err();
    assert_eq!(
        e.message,
        "Refusing to navigate to 'example.com': resolves to 10.0.0.1, a private/internal address."
    );
    let e = navigation_verdict(&t, Err("no such host".to_owned())).unwrap_err();
    assert_eq!(e.message, "Could not resolve host 'example.com': no such host");
}

#[test]
fn tool_reports() {
    assert_eq!(
        navigate_message("https://a/", Some("A".to_owned())),
        "Navigated to https://a/\nPage title: A"
    );
    assert_eq!(navigate_message("https://a/", None), "Navigated to https://a/\nPage title: (untitled)");
    assert!(!click_needs_recheck(&None));
    assert!(!click_needs_recheck(&Some("about:blank".to_owned())));
    assert!(click_needs_recheck(&Some("https://a/".to_owned())));
    assert_eq!(click_message("#b"), "Clicked element matching '#b'.");
    assert_eq!(type_message("input"), "Typed into element matching 'input'.");
    assert_eq!(close_message(true), "Browser closed.");
    assert_eq!(close_message(false), "No browser was open.");
    let long: String = "é".repeat(20_005);
    assert_eq!(page_text(long), format!("{}\n... [truncated]", "é".repeat(20_000)));
    assert_eq!(page_text("short".to_owned()), "short");
}

#[test]
fn service_errors() {
    let e = timeout_error("navigation", NAVIGATE_TIMEOUT_SECS);
    assert_eq!(e.kind, ToolErrorKind::Custom);
    assert_eq!(e.message, "Browser navigation timed out after 30s");
    assert!(launch_failed("x").message.ends_with("installed? (x)"));
    assert_eq!(cdp_failed("click", "d").message, "Browser click failed: d");
    assert_eq!(no_element_error("#z", "none").message, "No element matches selector '#z': none");
}
