use failure_kit::cloudflare_worker::{
    configure_start, configure_with_accounts, configure_with_subdomain, ConfigureStep,
};
use failure_kit::cloudflare_worker::{
    choose_account, configure_worker_name, envelope_result, masked_status, remove_config,
    sanitize_worker_name, subdomain_path, urlencode, CloudflareAccount, CloudflareWorkerConfig,
    ConfigureOutcome, WorkerConfigStore,
};

fn config(token: &str) -> CloudflareWorkerConfig {
    CloudflareWorkerConfig {
        api_token: token.to_owned(),
        account_id: "acct".to_owned(),
        worker_name: "failure-mcp".to_owned(),
        enabled: true,
    }
}

#[test]
fn sanitize_worker_name_lowercases_and_replaces_invalid_chars() {
    assert_eq!(sanitize_worker_name("My Worker!"), "my-worker-");
    assert_eq!(sanitize_worker_name("failure-mcp"), "failure-mcp");
    assert_eq!(sanitize_worker_name("under_score"), "under_score");
}

#[test]
fn urlencode_escapes_special_chars() {
    assert_eq!(urlencode("abc123-_.~"), "abc123-_.~");
    assert_eq!(urlencode("a b/c"), "a%20b%2Fc");
}

#[test]
fn masked_status_none_when_unconfigured() {
    let cfg = config("abcd1234wxyz9999");
    let status = masked_status(Some(&cfg)).unwrap();
    let masked = status.rsplit("API token: ").next().unwrap();
    assert_eq!(masked, "abcd...9999");
    assert_eq!(masked_status(None), None);
}

#[test]
fn masked_status_full_text() {
    let cfg = config("abcd1234wxyz9999");
    assert_eq!(
        masked_status(Some(&cfg)).unwrap(),
        "Worker: failure-mcp\nAccount: acct\nAPI token: abcd...9999"
    );
}

#[test]
fn masked_status_short_token() {
    let cfg = config("12345678");
    assert!(masked_status(Some(&cfg)).unwrap().ends_with("API token: (short token)"));
}

#[test]
fn masked_status_counts_characters() {
    // Five characters (ten bytes): too short to show any of it.
    let cfg = config("ééééé");
    assert!(masked_status(Some(&cfg)).unwrap().ends_with("API token: (short token)"));
    let cfg = config("éabcdefgh€");
    assert!(masked_status(Some(&cfg)).unwrap().ends_with("API token: éabc...fgh€"));
    let cfg = config("abcdééxyzw");
    assert!(masked_status(Some(&cfg)).unwrap().ends_with("API token: abcd...xyzw"));
}

#[test]
fn urlencode_non_ascii_uses_code_point() {
    assert_eq!(urlencode("é"), "%E9");
    assert_eq!(urlencode("\u{4e2d}"), "%4E2D");
    assert_eq!(urlencode("\n"), "%0A");
}

#[test]
fn sanitize_is_idempotent_on_example() {
    let once = sanitize_worker_name("Ünïcode Name_1");
    assert_eq!(once, "-n-code-name_1");
    assert_eq!(sanitize_worker_name(&once), once);
}

#[test]
fn worker_url_is_built_from_name_and_subdomain() {
    let outcome = ConfigureOutcome {
        worker_name: "failure-mcp".to_owned(),
        account_id: "acct".to_owned(),
        subdomain: "alice".to_owned(),
    };
    assert_eq!(outcome.worker_url(), "https://failure-mcp.alice.workers.dev");
}

#[test]
fn configure_refuses_blank_token() {
    assert_eq!(
        configure_worker_name("   ", None),
        Err("Cloudflare API token is required.".to_owned())
    );
    assert_eq!(configure_worker_name("tok", None), Ok("failure-mcp".to_owned()));
    assert_eq!(configure_worker_name("tok", Some("My Worker")), Ok("my-worker".to_owned()));
}

#[test]
fn choose_account_by_count() {
    let none: Vec<CloudflareAccount> = Vec::new();
    assert_eq!(
        choose_account(&none),
        Err("The Cloudflare token cannot access any accounts. Check its account scope and permissions.".to_owned())
    );
    let one = vec![CloudflareAccount { id: "id1".to_owned(), name: "Main".to_owned() }];
    assert_eq!(choose_account(&one), Ok("id1".to_owned()));
    let two = vec![
        CloudflareAccount { id: "id1".to_owned(), name: "Main".to_owned() },
        CloudflareAccount { id: "id2".to_owned(), name: String::new() },
    ];
    assert_eq!(
        choose_account(&two),
        Err("This token can access multiple accounts: Main (id1), id2 (id2). Re-run with the account ID as a fourth argument.".to_owned())
    );
}

#[test]
fn envelope_errors() {
    let msgs = vec!["bad token".to_owned(), "no scope".to_owned()];
    assert_eq!(
        envelope_result::<u32>(false, &msgs, "403 Forbidden", Some(1)),
        Err("Cloudflare API error: bad token; no scope".to_owned())
    );
    assert_eq!(
        envelope_result::<u32>(false, &Vec::new(), "403 Forbidden", None),
        Err("Cloudflare API error: 403 Forbidden".to_owned())
    );
    assert_eq!(
        envelope_result::<u32>(true, &Vec::new(), "200 OK", None),
        Err("Cloudflare API returned no result".to_owned())
    );
    assert_eq!(envelope_result::<u32>(true, &Vec::new(), "200 OK", Some(7)), Ok(7));
}

#[test]
fn subdomain_path_encodes_account() {
    assert_eq!(subdomain_path("a b"), "/accounts/a%20b/workers/subdomain");
}

#[test]
fn remove_config_forgets_credentials() {
    let mut store = WorkerConfigStore { config: Some(config("tok")), removed: false };
    remove_config(&mut store);
    assert!(store.config.is_none());
    assert!(store.removed);
    remove_config(&mut store);
    assert!(store.config.is_none());
}

#[test]
fn configure_steps_through_accounts_and_subdomain() {
    match configure_start(" ".to_owned(), None, None) {
        ConfigureStep::Fail(e) => assert_eq!(e, "Cloudflare API token is required."),
        _ => panic!("a blank token is refused"),
    }
    let req = match configure_start("tok".to_owned(), Some("My Worker".to_owned()), None) {
        ConfigureStep::ListAccounts(req) => req,
        _ => panic!("accounts are listed when none is given"),
    };
    assert_eq!(req.worker_name, "my-worker");
    let one = vec![CloudflareAccount { id: "id1".to_owned(), name: "Main".to_owned() }];
    let (req, account) = match configure_with_accounts(req, Ok(one)) {
        ConfigureStep::FetchSubdomain(req, account) => (req, account),
        _ => panic!("the only account is chosen"),
    };
    assert_eq!(account, "id1");
    match configure_with_subdomain(req, account, Ok("alice".to_owned())) {
        ConfigureStep::Save(cfg, outcome) => {
            assert_eq!(cfg.api_token, "tok");
            assert_eq!(cfg.account_id, "id1");
            assert_eq!(cfg.worker_name, "my-worker");
            assert!(cfg.enabled);
            assert_eq!(outcome.worker_url(), "https://my-worker.alice.workers.dev");
        }
        _ => panic!("the record is saved"),
    }
}

#[test]
fn configure_steps_stop_on_errors() {
    let req = match configure_start("tok".to_owned(), None, Some("acct".to_owned())) {
        ConfigureStep::FetchSubdomain(req, account) => {
            assert_eq!(account, "acct");
            assert_eq!(req.worker_name, "failure-mcp");
            req
        }
        _ => panic!("a given account is used as it is"),
    };
    match configure_with_subdomain(req, "acct".to_owned(), Err("Cloudflare API error: 403".to_owned())) {
        ConfigureStep::Fail(e) => assert_eq!(e, "Cloudflare API error: 403"),
        _ => panic!("a failed call stops"),
    }
    let req = match configure_start("tok".to_owned(), None, None) {
        ConfigureStep::ListAccounts(req) => req,
        _ => panic!("accounts are listed"),
    };
    match configure_with_accounts(req, Ok(Vec::new())) {
        ConfigureStep::Fail(e) => assert!(e.starts_with("The Cloudflare token cannot access any accounts.")),
        _ => panic!("no account is an error"),
    }
}

#[test]
fn only_a_masked_looking_token_shows_in_full() {
    let cfg = config("abcd...wxyz");
    assert!(masked_status(Some(&cfg)).unwrap().ends_with("API token: abcd...wxyz"));
    let cfg = config("abcd1234wxyz");
    assert!(!masked_status(Some(&cfg)).unwrap().contains("abcd1234wxyz"));
}
