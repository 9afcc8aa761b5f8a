use failure_kit::gh_pr::{
    comment_args, create_args, list_args, list_json_fields_str, list_output, output_text,
    permission_command_for_comment, permission_command_for_create, permission_command_for_list,
    permission_command_for_view, reconstruct_gh_command, view_args, GhPrCommentInput,
    GhPrCommentTool, GhPrCreateInput, GhPrCreateTool, GhPrListInput, GhPrListTool, GhPrViewInput,
    GhPrViewTool,
};
use failure_kit::shell_quote::shell_single_quote;
use failure_kit::tool::{ToolErrorKind, ToolScope};

fn s(v: &str) -> String {
    v.to_owned()
}

#[test]
fn gh_pr_tool_ids() {
    assert_eq!(GhPrViewTool.id(), "gh_pr_view");
    assert_eq!(GhPrListTool.id(), "gh_pr_list");
    assert_eq!(GhPrCreateTool.id(), "gh_pr_create");
    assert_eq!(GhPrCommentTool.id(), "gh_pr_comment");
    assert!(GhPrViewTool.capabilities().is_read_only);
    assert!(!GhPrCreateTool.capabilities().is_read_only);
    assert_eq!(GhPrCommentTool.capabilities().tool_scope, ToolScope::Write);
}

#[test]
fn list_input_defaults_to_20() {
    let input = GhPrListInput::default();
    assert_eq!(input.limit, 20);
    assert!(input.state.is_none());
}

#[test]
fn permission_commands_look_like_gh() {
    let view = permission_command_for_view(&GhPrViewInput { pr: Some("42".into()), repo: None });
    assert!(view.starts_with("gh pr view 42 --json "));

    let mut list_input = GhPrListInput::default();
    list_input.state = Some("open".into());
    list_input.limit = 5;
    let list = permission_command_for_list(&list_input);
    assert_eq!(
        list,
        format!("gh pr list --limit 5 --json {} --state open", list_json_fields_str())
    );

    let create = permission_command_for_create(&GhPrCreateInput {
        title: "Add feature".into(),
        body: Some("details".into()),
        base: Some("main".into()),
        head: None,
        draft: true,
        repo: None,
    });
    assert!(create.contains("gh pr create --title "));
    assert!(create.contains("--draft"));
    assert!(create.contains("--base main"));

    let comment = permission_command_for_comment(&GhPrCommentInput {
        pr: "42".into(),
        body: "Approved".into(),
        repo: Some("o/r".into()),
    });
    assert_eq!(comment, "gh pr comment 42 --body Approved --repo o/r");
}

#[test]
fn shell_single_quote_escapes_spaces_and_quotes() {
    assert_eq!(shell_single_quote("plain"), "plain");
    assert_eq!(shell_single_quote("has space"), "'has space'");
    assert_eq!(shell_single_quote("it's"), "'it'\\''s'");
}

#[test]
fn shell_single_quote_edge_cases() {
    assert_eq!(shell_single_quote(""), "''");
    assert_eq!(shell_single_quote("a/b-c_d.e:f@h"), "a/b-c_d.e:f@h");
    assert_eq!(shell_single_quote("a,b"), "'a,b'");
    assert_eq!(shell_single_quote("$HOME"), "'$HOME'");
}

#[test]
fn permission_command_full_texts() {
    let view = permission_command_for_view(&GhPrViewInput { pr: None, repo: Some(" o/r ".into()) });
    assert_eq!(
        view,
        "gh pr view --json 'number,title,state,url,headRefName,baseRefName,isDraft,body,author,mergeable' --repo o/r"
    );
    let create = permission_command_for_create(&GhPrCreateInput {
        title: "Add feature".into(),
        body: None,
        base: Some("main".into()),
        head: Some("  ".into()),
        draft: false,
        repo: None,
    });
    assert_eq!(create, "gh pr create --title 'Add feature' --body '' --base main");
    let mut list_input = GhPrListInput::default();
    list_input.limit = 0;
    list_input.head = Some("feat x".into());
    assert_eq!(
        permission_command_for_list(&list_input),
        "gh pr list --limit 1 --json number,title,state,url,headRefName,baseRefName,isDraft,author --head 'feat x'"
    );
}

#[test]
fn reconstruct_quotes_values_only() {
    let parts = vec![
        (s("pr"), None),
        (s("comment"), None),
        (s("--body"), Some(s("it's fine"))),
    ];
    assert_eq!(reconstruct_gh_command(&parts), "gh pr comment --body 'it'\\''s fine'");
    assert_eq!(reconstruct_gh_command(&Vec::new()), "gh");
}

#[test]
fn gh_argument_vectors() {
    let v = view_args(&GhPrViewInput { pr: Some(" 7 ".into()), repo: None });
    assert_eq!(
        v,
        vec![
            s("pr"),
            s("view"),
            s("7"),
            s("--json"),
            s("number,title,state,url,headRefName,baseRefName,isDraft,body,author,mergeable")
        ]
    );
    let mut li = GhPrListInput::default();
    li.limit = 500;
    li.repo = Some("o/r".into());
    let l = list_args(&li);
    assert_eq!(l[3], "100");
    assert_eq!(&l[6..], &[s("--repo"), s("o/r")]);
    let c = create_args(&GhPrCreateInput {
        title: "T".into(),
        body: None,
        base: None,
        head: Some("h".into()),
        draft: true,
        repo: None,
    })
    .unwrap();
    assert_eq!(
        c,
        vec![s("pr"), s("create"), s("--title"), s("T"), s("--body"), s(""), s("--head"), s("h"), s("--draft")]
    );
    let k = comment_args(&GhPrCommentInput { pr: "3".into(), body: "hi".into(), repo: None }).unwrap();
    assert_eq!(k, vec![s("pr"), s("comment"), s("3"), s("--body"), s("hi")]);
}

#[test]
fn gh_argument_errors() {
    let e = create_args(&GhPrCreateInput {
        title: "  ".into(),
        body: None,
        base: None,
        head: None,
        draft: false,
        repo: None,
    })
    .unwrap_err();
    assert_eq!(e.kind, ToolErrorKind::InvalidArguments);
    assert_eq!(e.message, "Pull request title cannot be empty.");
    let e = comment_args(&GhPrCommentInput { pr: " ".into(), body: "x".into(), repo: None }).unwrap_err();
    assert_eq!(e.message, "Pull request reference (pr) cannot be empty.");
    let e = comment_args(&GhPrCommentInput { pr: "1".into(), body: "\n".into(), repo: None }).unwrap_err();
    assert_eq!(e.message, "Comment body cannot be empty.");
}

#[test]
fn gh_output_handling() {
    assert_eq!(output_text(true, b"ok\n", b"").unwrap(), "ok\n");
    let e = output_text(false, b"out", b"  bad thing \n").unwrap_err();
    assert_eq!(e.kind, ToolErrorKind::Custom);
    assert_eq!(e.message, "gh failed: bad thing");
    let e = output_text(false, b" only stdout ", b"   ").unwrap_err();
    assert_eq!(e.message, "gh failed: only stdout");
    assert_eq!(list_output(" [] \n".to_owned()), "[]");
    assert_eq!(list_output("".to_owned()), "[]");
    assert_eq!(list_output("[{\"number\":1}]".to_owned()), "[{\"number\":1}]");
}

#[test]
fn gh_output_decodes_invalid_utf8_lossily() {
    let t = output_text(true, &[b'a', 0xff, b'b'], b"").unwrap();
    assert_eq!(t, "a\u{fffd}b");
}
