//! `git_*` tools — status, diff, log and commit through the `git` binary:
//! their inputs, the argument vectors they run `git` with, and the
//! handling of its output.
use vstd::prelude::*;
use crate::text::{
    trim, trim_end, trim_str, trim_end_str, contains_char, views, decimal, u64_to_decimal, opt_view,
};
use crate::tool::{
    ToolError, ToolErrorKind, ToolKind, ToolNamespace, ToolCapabilities, ToolScope,
    invalid_arguments, custom_error, read_only_capabilities, write_capabilities, utf8_lossy,
    from_utf8_lossy,
};
use crate::command_args::{push_arg, push_lit, push_all};

verus! {

/// `git_log`'s model-supplied limit is capped at this many commits.
pub const MAX_LOG_LIMIT: u32 = 200;

/// `git_diff`'s context is capped at this many lines.
pub const MAX_CONTEXT_LINES: u32 = 200;

pub fn default_context_lines() -> (n: u32)
    ensures
        n == 3,
{
    3
}

pub fn default_log_limit() -> (n: u32)
    ensures
        n == 20,
{
    20
}

#[derive(Debug, Clone, Default)]
pub struct GitStatusInput {
    pub paths: Vec<String>,
}

#[derive(Debug, Clone)]
pub struct GitDiffInput {
    pub staged: bool,
    pub paths: Vec<String>,
    pub context_lines: u32,
}

impl Default for GitDiffInput {
    /// Unstaged changes of the whole repository, three lines of context.
    fn default() -> (i: Self)
        ensures
            !i.staged && i.paths@.len() == 0 && i.context_lines == 3,
    {
        GitDiffInput { staged: false, paths: Vec::new(), context_lines: default_context_lines() }
    }
}

#[derive(Debug, Clone)]
pub struct GitLogInput {
    pub limit: u32,
    pub paths: Vec<String>,
}

impl Default for GitLogInput {
    /// The last 20 commits of the whole repository.
    fn default() -> (i: Self)
        ensures
            i.limit == 20 && i.paths@.len() == 0,
    {
        GitLogInput { limit: default_log_limit(), paths: Vec::new() }
    }
}

#[derive(Debug, Clone)]
pub struct GitCommitInput {
    pub message: String,
    pub paths: Vec<String>,
}

/// `-- <paths>` when paths are given.
pub open spec fn paths_part(paths: Seq<String>) -> Seq<Seq<char>> {
    if paths.len() > 0 {
        seq!["--"@] + views(paths)
    } else {
        Seq::empty()
    }
}

fn push_paths(args: &mut Vec<String>, paths: &Vec<String>)
    ensures
        views(final(args)@) == views(old(args)@) + paths_part(paths@),
{
    if paths.len() > 0 {
        push_lit(args, "--");
        push_all(args, paths);
        proof {
            assert(views(final(args)@) =~= views(old(args)@) + paths_part(paths@));
        }
    } else {
        proof {
            assert(views(args@) =~= views(old(args)@) + paths_part(paths@));
        }
    }
}

/// What a `git` run yields: its standard output on success, otherwise
/// `git failed: ` and its trimmed standard error.
pub open spec fn git_output_spec(success: bool, stdout: Seq<u8>, stderr: Seq<u8>, r: Result<String, ToolError>) -> bool {
    if success {
        r matches Ok(t) && t@ == utf8_lossy(stdout)
    } else {
        r matches Err(e) && e.kind == ToolErrorKind::Custom && e.message@ == "git failed: "@ + trim(
            utf8_lossy(stderr),
        )
    }
}

pub fn output_text(success: bool, stdout: &[u8], stderr: &[u8]) -> (r: Result<String, ToolError>)
    ensures
        git_output_spec(success, stdout@, stderr@, r),
{
    if !success {
        let err = from_utf8_lossy(stderr);
        let t = trim_str(err.as_str());
        let mut m = "git failed: ".to_owned();
        m.append(t.as_str());
        return Err(custom_error(m));
    }
    Ok(from_utf8_lossy(stdout))
}

// ── git_status ───────────────────────────────────────────────────────────

pub open spec fn status_args_spec(i: GitStatusInput) -> Seq<Seq<char>> {
    seq!["status"@, "--short"@, "--branch"@] + paths_part(i.paths@)
}

/// `git status --short --branch [-- <paths>]`.
pub fn status_args(input: &GitStatusInput) -> (args: Vec<String>)
    ensures
        views(args@) == status_args_spec(*input),
{
    let mut args: Vec<String> = Vec::new();
    push_lit(&mut args, "status");
    push_lit(&mut args, "--short");
    push_lit(&mut args, "--branch");
    push_paths(&mut args, &input.paths);
    proof {
        assert(views(args@) =~= status_args_spec(*input));
    }
    args
}

/// The status report: output of at most one line (the branch line) is
/// marked clean. The trimmed output holds at most one line exactly when
/// it holds no line break.
pub fn status_text(text: String) -> (t: String)
    ensures
        t@ == (if !trim(text@).contains('\n') {
            trim_end(text@) + "\n(clean — no changes)"@
        } else {
            text@
        }),
{
    let tt = trim_str(text.as_str());
    if !contains_char(tt.as_str(), '\n') {
        let mut t = trim_end_str(text.as_str());
        t.append("\n(clean — no changes)");
        t
    } else {
        text
    }
}

// ── git_diff ─────────────────────────────────────────────────────────────

pub open spec fn min_u32(a: u32, b: u32) -> u32 {
    if a < b { a } else { b }
}

pub open spec fn diff_args_spec(i: GitDiffInput) -> Seq<Seq<char>> {
    seq!["diff"@] + (if i.staged { seq!["--staged"@] } else { Seq::empty() }) + seq![
        "-U"@ + decimal(min_u32(i.context_lines, MAX_CONTEXT_LINES) as nat),
    ] + paths_part(i.paths@)
}

/// `git diff [--staged] -U<context, at most 200> [-- <paths>]`.
pub fn diff_args(input: &GitDiffInput) -> (args: Vec<String>)
    ensures
        views(args@) == diff_args_spec(*input),
{
    let mut args: Vec<String> = Vec::new();
    push_lit(&mut args, "diff");
    if input.staged {
        push_lit(&mut args, "--staged");
    }
    let ctx = if input.context_lines < MAX_CONTEXT_LINES { input.context_lines } else { MAX_CONTEXT_LINES };
    let mut flag = "-U".to_owned();
    let n = u64_to_decimal(ctx as u64);
    flag.append(n.as_str());
    push_arg(&mut args, flag);
    push_paths(&mut args, &input.paths);
    proof {
        assert(views(args@) =~= diff_args_spec(*input));
    }
    args
}

/// An empty diff is reported as `(no differences)`.
pub fn diff_text(text: String) -> (t: String)
    ensures
        t@ == (if trim(text@).len() == 0 { "(no differences)"@ } else { text@ }),
{
    let tt = trim_str(text.as_str());
    if tt.as_str().is_empty() {
        "(no differences)".to_owned()
    } else {
        text
    }
}

// ── git_log ──────────────────────────────────────────────────────────────

pub open spec fn clamp_log_limit(limit: u32) -> u32 {
    if limit < 1 { 1 } else if limit > MAX_LOG_LIMIT { MAX_LOG_LIMIT } else { limit }
}

pub open spec fn log_args_spec(i: GitLogInput) -> Seq<Seq<char>> {
    seq!["log"@, "--oneline"@, "-"@ + decimal(clamp_log_limit(i.limit) as nat)] + paths_part(i.paths@)
}

/// `git log --oneline -<1..=200> [-- <paths>]`.
pub fn log_args(input: &GitLogInput) -> (args: Vec<String>)
    ensures
        views(args@) == log_args_spec(*input),
{
    let limit = if input.limit < 1 { 1 } else if input.limit > MAX_LOG_LIMIT { MAX_LOG_LIMIT } else { input.limit };
    let mut args: Vec<String> = Vec::new();
    push_lit(&mut args, "log");
    push_lit(&mut args, "--oneline");
    let mut flag = "-".to_owned();
    let n = u64_to_decimal(limit as u64);
    flag.append(n.as_str());
    push_arg(&mut args, flag);
    push_paths(&mut args, &input.paths);
    proof {
        assert(views(args@) =~= log_args_spec(*input));
    }
    args
}

/// An empty log is reported as `(no commits)`.
pub fn log_text(text: String) -> (t: String)
    ensures
        t@ == (if trim(text@).len() == 0 { "(no commits)"@ } else { text@ }),
{
    let tt = trim_str(text.as_str());
    if tt.as_str().is_empty() {
        "(no commits)".to_owned()
    } else {
        text
    }
}

// ── git_commit ───────────────────────────────────────────────────────────

pub open spec fn add_args_spec(i: GitCommitInput) -> Seq<Seq<char>> {
    seq!["add"@] + (if i.paths@.len() == 0 { seq!["-A"@] } else { views(i.paths@) })
}

pub open spec fn commit_args_spec(i: GitCommitInput) -> Seq<Seq<char>> {
    seq!["commit"@, "-m"@, i.message@]
}

/// The two `git` runs of a commit: `git add <paths>` (or `git add -A`
/// when no paths are given), then `git commit -m <message>`. A blank
/// message is refused.
pub fn commit_args(input: &GitCommitInput) -> (r: Result<(Vec<String>, Vec<String>), ToolError>)
    ensures
        trim(input.message@).len() == 0 ==> (r matches Err(e) && e.kind == ToolErrorKind::InvalidArguments
            && e.message@ == "Commit message cannot be empty."@),
        trim(input.message@).len() > 0 ==> (r matches Ok(a) && views(a.0@) == add_args_spec(*input)
            && views(a.1@) == commit_args_spec(*input)),
{
    let m = trim_str(input.message.as_str());
    if m.as_str().is_empty() {
        return Err(invalid_arguments("Commit message cannot be empty.".to_owned()));
    }
    let mut add: Vec<String> = Vec::new();
    push_lit(&mut add, "add");
    if input.paths.len() == 0 {
        push_lit(&mut add, "-A");
    } else {
        push_all(&mut add, &input.paths);
    }
    proof {
        assert(views(add@) =~= add_args_spec(*input));
    }
    let mut commit: Vec<String> = Vec::new();
    push_lit(&mut commit, "commit");
    push_lit(&mut commit, "-m");
    push_arg(&mut commit, input.message.clone());
    proof {
        assert(views(commit@) =~= commit_args_spec(*input));
    }
    Ok((add, commit))
}

} // verus!

verus! {
#[derive(Debug, Default)]
pub struct GitStatusTool;

impl GitStatusTool {
    pub fn id(&self) -> (id: &'static str)
        ensures
            id@ == "git_status"@,
    {
        "git_status"
    }

    pub fn description_template(&self) -> (d: &'static str)
        ensures
            d@ == "Show the working tree status: current branch, ahead/behind counts, and changed/staged/untracked files."@,
    {
        "Show the working tree status: current branch, ahead/behind counts, and changed/staged/untracked files."
    }

    pub fn kind(&self) -> (k: ToolKind)
        ensures
            k == ToolKind::Git,
    {
        ToolKind::Git
    }

    pub fn tool_namespace(&self) -> (n: ToolNamespace)
        ensures
            n == ToolNamespace::GrokBuild,
    {
        ToolNamespace::GrokBuild
    }

    pub fn capabilities(&self) -> (c: ToolCapabilities)
        ensures
            c == (ToolCapabilities { is_read_only: true, tool_scope: ToolScope::Read }),
    {
        read_only_capabilities()
    }
}

#[derive(Debug, Default)]
pub struct GitDiffTool;

impl GitDiffTool {
    pub fn id(&self) -> (id: &'static str)
        ensures
            id@ == "git_diff"@,
    {
        "git_diff"
    }

    pub fn description_template(&self) -> (d: &'static str)
        ensures
            d@ == "Show a diff of changes: unstaged working-tree changes by default, or staged changes with staged=true. Long diffs are truncated."@,
    {
        "Show a diff of changes: unstaged working-tree changes by default, or staged changes with staged=true. Long diffs are truncated."
    }

    pub fn kind(&self) -> (k: ToolKind)
        ensures
            k == ToolKind::Git,
    {
        ToolKind::Git
    }

    pub fn tool_namespace(&self) -> (n: ToolNamespace)
        ensures
            n == ToolNamespace::GrokBuild,
    {
        ToolNamespace::GrokBuild
    }

    pub fn capabilities(&self) -> (c: ToolCapabilities)
        ensures
            c == (ToolCapabilities { is_read_only: true, tool_scope: ToolScope::Read }),
    {
        read_only_capabilities()
    }
}

#[derive(Debug, Default)]
pub struct GitLogTool;

impl GitLogTool {
    pub fn id(&self) -> (id: &'static str)
        ensures
            id@ == "git_log"@,
    {
        "git_log"
    }

    pub fn description_template(&self) -> (d: &'static str)
        ensures
            d@ == "Show recent commit history (one line per commit: short hash + subject)."@,
    {
        "Show recent commit history (one line per commit: short hash + subject)."
    }

    pub fn kind(&self) -> (k: ToolKind)
        ensures
            k == ToolKind::Git,
    {
        ToolKind::Git
    }

    pub fn tool_namespace(&self) -> (n: ToolNamespace)
        ensures
            n == ToolNamespace::GrokBuild,
    {
        ToolNamespace::GrokBuild
    }

    pub fn capabilities(&self) -> (c: ToolCapabilities)
        ensures
            c == (ToolCapabilities { is_read_only: true, tool_scope: ToolScope::Read }),
    {
        read_only_capabilities()
    }
}

#[derive(Debug, Default)]
pub struct GitCommitTool;

impl GitCommitTool {
    pub fn id(&self) -> (id: &'static str)
        ensures
            id@ == "git_commit"@,
    {
        "git_commit"
    }

    pub fn description_template(&self) -> (d: &'static str)
        ensures
            d@ == "Stage changes and create a commit. Stages the given paths, or every tracked change if none are given, then commits with the provided message."@,
    {
        "Stage changes and create a commit. Stages the given paths, or every tracked change if none are given, then commits with the provided message."
    }

    pub fn kind(&self) -> (k: ToolKind)
        ensures
            k == ToolKind::Git,
    {
        ToolKind::Git
    }

    pub fn tool_namespace(&self) -> (n: ToolNamespace)
        ensures
            n == ToolNamespace::GrokBuild,
    {
        ToolNamespace::GrokBuild
    }

    pub fn capabilities(&self) -> (c: ToolCapabilities)
        ensures
            c == (ToolCapabilities { is_read_only: false, tool_scope: ToolScope::Write }),
    {
        write_capabilities()
    }
}

} // verus!

verus! {

/// A run scoped to paths passes them to `git` after `--`, as they are, at
/// the end of the argument vector.
pub open spec fn ends_with_paths(a: Seq<Seq<char>>, paths: Seq<String>) -> bool {
    a.len() >= paths.len() + 1 && a.skip(a.len() - paths.len() - 1) == seq!["--"@] + paths.map_values(
        |p: String| p@,
    )
}

proof fn lemma_paths_suffix(pre: Seq<Seq<char>>, paths: Seq<String>)
    ensures
        paths.len() > 0 ==> ends_with_paths(pre + paths_part(paths), paths),
        (pre + paths_part(paths)).len() == pre.len() + (if paths.len() > 0 { paths.len() + 1 } else { 0 }),
{
    let a = pre + paths_part(paths);
    if paths.len() > 0 {
        assert(a.skip(a.len() - paths.len() - 1) =~= seq!["--"@] + paths.map_values(|p: String| p@));
    } else {
        assert(a =~= pre);
    }
}

/// `git status` is `status --short --branch`, then the given paths after
/// `--`; nothing else.
pub proof fn law_status_args_carry_paths(i: GitStatusInput)
    ensures
        ({
            let a = status_args_spec(i);
            &&& a.take(3) == seq!["status"@, "--short"@, "--branch"@]
            &&& i.paths@.len() > 0 ==> ends_with_paths(a, i.paths@)
            &&& a.len() == 3 + (if i.paths@.len() > 0 { i.paths@.len() + 1 } else { 0 })
        }),
{
    let pre = seq!["status"@, "--short"@, "--branch"@];
    lemma_paths_suffix(pre, i.paths@);
    assert(status_args_spec(i).take(3) =~= pre);
}

/// `git diff` asks for the staged changes exactly when told to, with the
/// requested context capped at 200 lines, and passes the given paths
/// after `--`; nothing else.
pub proof fn law_diff_args_carry_inputs(i: GitDiffInput)
    ensures
        ({
            let a = diff_args_spec(i);
            let k: int = if i.staged { 2 } else { 1 };
            &&& a[0] == "diff"@
            &&& i.staged ==> a[1] == "--staged"@
            &&& exists|n: nat| n <= 200 && (i.context_lines <= 200 ==> n == i.context_lines) && a[k]
                == "-U"@ + decimal(n)
            &&& i.paths@.len() > 0 ==> ends_with_paths(a, i.paths@)
            &&& a.len() == k + 1 + (if i.paths@.len() > 0 { i.paths@.len() + 1 } else { 0 })
        }),
{
    let n = min_u32(i.context_lines, MAX_CONTEXT_LINES);
    let pre = seq!["diff"@] + (if i.staged { seq!["--staged"@] } else { Seq::<Seq<char>>::empty() })
        + seq!["-U"@ + decimal(n as nat)];
    assert(diff_args_spec(i) =~= pre + paths_part(i.paths@));
    lemma_paths_suffix(pre, i.paths@);
    let k: int = if i.staged { 2 } else { 1 };
    assert(diff_args_spec(i)[k] == "-U"@ + decimal(n as nat));
}

/// `git log` shows one line per commit, as many commits as asked for
/// within 1..=200, and passes the given paths after `--`; nothing else.
pub proof fn law_log_args_carry_inputs(i: GitLogInput)
    ensures
        ({
            let a = log_args_spec(i);
            &&& a[0] == "log"@ && a[1] == "--oneline"@
            &&& exists|n: nat| 1 <= n <= 200 && (1 <= i.limit <= 200 ==> n == i.limit) && a[2] == "-"@
                + decimal(n)
            &&& i.paths@.len() > 0 ==> ends_with_paths(a, i.paths@)
            &&& a.len() == 3 + (if i.paths@.len() > 0 { i.paths@.len() + 1 } else { 0 })
        }),
{
    let n = clamp_log_limit(i.limit);
    let pre = seq!["log"@, "--oneline"@, "-"@ + decimal(n as nat)];
    lemma_paths_suffix(pre, i.paths@);
    assert(log_args_spec(i)[2] == "-"@ + decimal(n as nat));
}

/// A commit stages exactly the given paths (everything when none are
/// given), then commits with the message as it was given.
pub proof fn law_commit_args_carry_inputs(i: GitCommitInput)
    ensures
        add_args_spec(i)[0] == "add"@,
        i.paths@.len() == 0 ==> add_args_spec(i) == seq!["add"@, "-A"@],
        i.paths@.len() > 0 ==> add_args_spec(i).skip(1) == i.paths@.map_values(|p: String| p@),
        commit_args_spec(i) == seq!["commit"@, "-m"@, i.message@],
{
    if i.paths@.len() > 0 {
        assert(add_args_spec(i).skip(1) =~= i.paths@.map_values(|p: String| p@));
    } else {
        assert(add_args_spec(i) =~= seq!["add"@, "-A"@]);
    }
}

} // verus!
