use failure_kit::git::{
    commit_args, diff_args, diff_text, log_args, log_text, output_text, status_args, status_text,
    GitCommitInput, GitCommitTool, GitDiffInput, GitDiffTool, GitLogInput, GitLogTool,
    GitStatusInput, GitStatusTool,
};
use failure_kit::tool::ToolErrorKind;

fn s(v: &str) -> String {
    v.to_owned()
}

#[test]
fn git_tool_ids() {
    assert_eq!(GitStatusTool.id(), "git_status");
    assert_eq!(GitDiffTool.id(), "git_diff");
    assert_eq!(GitLogTool.id(), "git_log");
    assert_eq!(GitCommitTool.id(), "git_commit");
    assert!(GitLogTool.capabilities().is_read_only);
    assert!(!GitCommitTool.capabilities().is_read_only);
}

#[test]
fn diff_input_defaults() {
    let input = GitDiffInput::default();
    assert!(!input.staged);
    assert!(input.paths.is_empty());
    assert_eq!(input.context_lines, 3);
}

#[test]
fn log_input_defaults_to_20() {
    let input = GitLogInput::default();
    assert_eq!(input.limit, 20);
}

#[test]
fn git_argument_vectors() {
    assert_eq!(
        status_args(&GitStatusInput { paths: vec![] }),
        vec![s("status"), s("--short"), s("--branch")]
    );
    assert_eq!(
        status_args(&GitStatusInput { paths: vec![s("a.rs")] }),
        vec![s("status"), s("--short"), s("--branch"), s("--"), s("a.rs")]
    );
    let mut d = GitDiffInput::default();
    d.staged = true;
    d.context_lines = 1000;
    assert_eq!(diff_args(&d), vec![s("diff"), s("--staged"), s("-U200")]);
    assert_eq!(diff_args(&GitDiffInput::default()), vec![s("diff"), s("-U3")]);
    let mut l = GitLogInput::default();
    assert_eq!(log_args(&l), vec![s("log"), s("--oneline"), s("-20")]);
    l.limit = 0;
    l.paths = vec![s("src")];
    assert_eq!(log_args(&l), vec![s("log"), s("--oneline"), s("-1"), s("--"), s("src")]);
    l.limit = 4000;
    assert_eq!(log_args(&l)[2], "-200");
}

#[test]
fn git_commit_runs() {
    let (add, commit) =
        commit_args(&GitCommitInput { message: s("initial commit"), paths: vec![] }).unwrap();
    assert_eq!(add, vec![s("add"), s("-A")]);
    assert_eq!(commit, vec![s("commit"), s("-m"), s("initial commit")]);
    let (add, _) = commit_args(&GitCommitInput { message: s("m"), paths: vec![s("x"), s("y")] }).unwrap();
    assert_eq!(add, vec![s("add"), s("x"), s("y")]);
    let e = commit_args(&GitCommitInput { message: s(" \t"), paths: vec![] }).unwrap_err();
    assert_eq!(e.kind, ToolErrorKind::InvalidArguments);
    assert_eq!(e.message, "Commit message cannot be empty.");
}

#[test]
fn git_output_texts() {
    assert_eq!(output_text(true, b"## main\n", b"").unwrap(), "## main\n");
    let e = output_text(false, b"", b"fatal: not a git repository\n").unwrap_err();
    assert_eq!(e.kind, ToolErrorKind::Custom);
    assert_eq!(e.message, "git failed: fatal: not a git repository");
    assert_eq!(status_text(s("## main\n")), "## main\n(clean — no changes)");
    assert_eq!(status_text(s("## main\n M a.rs\n")), "## main\n M a.rs\n");
    assert_eq!(diff_text(s("  \n")), "(no differences)");
    assert_eq!(diff_text(s("diff --git a b")), "diff --git a b");
    assert_eq!(log_text(s("")), "(no commits)");
    assert_eq!(log_text(s("abc initial commit\n")), "abc initial commit\n");
}
