//! `gh_pr_*` tools — GitHub pull-request operations through the `gh` CLI:
//! their inputs, the argument vectors they run `gh` with, the handling of
//! its output, and the command lines shown in permission prompts.
use vstd::prelude::*;
use crate::text::{
    trim, trim_str, opt_trimmed, opt_view, trimmed_nonempty, views, decimal, u64_to_decimal,
    truncated, str_eq,
};
use crate::tool::{
    ToolError, ToolErrorKind, ToolKind, ToolNamespace, ToolCapabilities, ToolScope,
    invalid_arguments, custom_error, read_only_capabilities, write_capabilities, utf8_lossy,
    from_utf8_lossy,
};
use crate::command_args::{
    flag_value, opt_arg, push_arg, push_lit, push_flag_value, push_opt_arg, has_flag_value,
    lemma_flag_value_in,
};
use crate::shell_quote::{shell_quoted, shell_single_quote};

verus! {

/// `gh_pr_list`'s model-supplied limit is capped at this many PRs.
pub const MAX_LIST_LIMIT: u32 = 100;

pub open spec fn view_json_fields() -> Seq<char> {
    "number,title,state,url,headRefName,baseRefName,isDraft,body,author,mergeable"@
}

pub open spec fn list_json_fields() -> Seq<char> {
    "number,title,state,url,headRefName,baseRefName,isDraft,author"@
}

pub fn view_json_fields_str() -> (s: &'static str)
    ensures
        s@ == view_json_fields(),
{
    "number,title,state,url,headRefName,baseRefName,isDraft,body,author,mergeable"
}

pub fn list_json_fields_str() -> (s: &'static str)
    ensures
        s@ == list_json_fields(),
{
    "number,title,state,url,headRefName,baseRefName,isDraft,author"
}

pub fn default_list_limit() -> (n: u32)
    ensures
        n == 20,
{
    20
}

#[derive(Debug, Clone, Default)]
pub struct GhPrViewInput {
    pub pr: Option<String>,
    pub repo: Option<String>,
}

#[derive(Debug, Clone)]
pub struct GhPrListInput {
    pub state: Option<String>,
    pub limit: u32,
    pub base: Option<String>,
    pub head: Option<String>,
    pub repo: Option<String>,
}

impl Default for GhPrListInput {
    /// No filters, the default limit of 20.
    fn default() -> (i: Self)
        ensures
            i.state is None && i.limit == 20 && i.base is None && i.head is None && i.repo is None,
    {
        GhPrListInput { state: None, limit: default_list_limit(), base: None, head: None, repo: None }
    }
}

#[derive(Debug, Clone)]
pub struct GhPrCreateInput {
    pub title: String,
    pub body: Option<String>,
    pub base: Option<String>,
    pub head: Option<String>,
    pub draft: bool,
    pub repo: Option<String>,
}

#[derive(Debug, Clone)]
pub struct GhPrCommentInput {
    pub pr: String,
    pub body: String,
    pub repo: Option<String>,
}

/// `limit.clamp(1, MAX_LIST_LIMIT)`.
pub open spec fn clamp_limit(limit: u32, max: u32) -> u32 {
    if limit < 1 { 1 } else if limit > max { max } else { limit }
}

// ── process output ──────────────────────────────────────────────────────

/// What a `gh` run yields: its standard output on success; otherwise
/// `gh failed: ` and the trimmed standard error, or the trimmed standard
/// output when the error stream is blank.
pub open spec fn gh_output_spec(success: bool, stdout: Seq<u8>, stderr: Seq<u8>, r: Result<String, ToolError>) -> bool {
    if success {
        r matches Ok(t) && t@ == utf8_lossy(stdout)
    } else {
        r matches Err(e) && e.kind == ToolErrorKind::Custom && e.message@ == "gh failed: "@ + (if trim(
            utf8_lossy(stderr),
        ).len() > 0 {
            trim(utf8_lossy(stderr))
        } else {
            trim(utf8_lossy(stdout))
        })
    }
}

pub fn output_text(success: bool, stdout: &[u8], stderr: &[u8]) -> (r: Result<String, ToolError>)
    ensures
        gh_output_spec(success, stdout@, stderr@, r),
{
    if !success {
        let err = from_utf8_lossy(stderr);
        let out = from_utf8_lossy(stdout);
        let err_t = trim_str(err.as_str());
        let detail = if err_t.as_str().is_empty() { trim_str(out.as_str()) } else { err_t };
        let mut m = "gh failed: ".to_owned();
        m.append(detail.as_str());
        return Err(custom_error(m));
    }
    Ok(from_utf8_lossy(stdout))
}

/// `gh pr list` printing nothing (or an empty array) is reported as `[]`.
pub fn list_output(text: String) -> (t: String)
    ensures
        t@ == (if trim(text@).len() == 0 || trim(text@) == "[]"@ { "[]"@ } else { text@ }),
{
    let tt = trim_str(text.as_str());
    if tt.as_str().is_empty() || str_eq(tt.as_str(), "[]") {
        "[]".to_owned()
    } else {
        text
    }
}

// ── argument vectors ────────────────────────────────────────────────────

pub open spec fn view_args_spec(i: GhPrViewInput) -> Seq<Seq<char>> {
    seq!["pr"@, "view"@] + opt_arg(opt_trimmed(opt_view(i.pr))) + seq!["--json"@, view_json_fields()]
        + flag_value("--repo"@, opt_trimmed(opt_view(i.repo)))
}

/// `gh pr view [<pr>] --json <fields> [--repo <repo>]`.
pub fn view_args(input: &GhPrViewInput) -> (args: Vec<String>)
    ensures
        views(args@) == view_args_spec(*input),
{
    let mut args: Vec<String> = Vec::new();
    push_lit(&mut args, "pr");
    push_lit(&mut args, "view");
    push_opt_arg(&mut args, trimmed_nonempty(&input.pr));
    push_lit(&mut args, "--json");
    push_lit(&mut args, view_json_fields_str());
    push_flag_value(&mut args, "--repo", trimmed_nonempty(&input.repo));
    proof {
        assert(views(args@) =~= view_args_spec(*input));
    }
    args
}

pub open spec fn list_args_spec(i: GhPrListInput) -> Seq<Seq<char>> {
    seq!["pr"@, "list"@, "--limit"@, decimal(clamp_limit(i.limit, MAX_LIST_LIMIT) as nat), "--json"@, list_json_fields()]
        + flag_value("--state"@, opt_trimmed(opt_view(i.state))) + flag_value(
        "--base"@,
        opt_trimmed(opt_view(i.base)),
    ) + flag_value("--head"@, opt_trimmed(opt_view(i.head))) + flag_value(
        "--repo"@,
        opt_trimmed(opt_view(i.repo)),
    )
}

fn clamp_u32(v: u32, lo: u32, hi: u32) -> (r: u32)
    requires
        lo <= hi,
    ensures
        r == (if v < lo { lo } else if v > hi { hi } else { v }),
{
    if v < lo { lo } else if v > hi { hi } else { v }
}

/// `gh pr list --limit <1..=100> --json <fields> [--state ..] [--base ..]
/// [--head ..] [--repo ..]`.
pub fn list_args(input: &GhPrListInput) -> (args: Vec<String>)
    ensures
        views(args@) == list_args_spec(*input),
{
    let limit = clamp_u32(input.limit, 1, MAX_LIST_LIMIT);
    let mut args: Vec<String> = Vec::new();
    push_lit(&mut args, "pr");
    push_lit(&mut args, "list");
    push_lit(&mut args, "--limit");
    push_arg(&mut args, u64_to_decimal(limit as u64));
    push_lit(&mut args, "--json");
    push_lit(&mut args, list_json_fields_str());
    push_flag_value(&mut args, "--state", trimmed_nonempty(&input.state));
    push_flag_value(&mut args, "--base", trimmed_nonempty(&input.base));
    push_flag_value(&mut args, "--head", trimmed_nonempty(&input.head));
    push_flag_value(&mut args, "--repo", trimmed_nonempty(&input.repo));
    proof {
        assert(views(args@) =~= list_args_spec(*input));
    }
    args
}

pub open spec fn body_or_empty(b: Option<String>) -> Seq<char> {
    match b {
        Some(s) => s@,
        None => Seq::empty(),
    }
}

pub open spec fn create_args_spec(i: GhPrCreateInput) -> Seq<Seq<char>> {
    seq!["pr"@, "create"@, "--title"@, i.title@, "--body"@, body_or_empty(i.body)]
        + flag_value("--base"@, opt_trimmed(opt_view(i.base))) + flag_value(
        "--head"@,
        opt_trimmed(opt_view(i.head)),
    ) + (if i.draft { seq!["--draft"@] } else { Seq::empty() }) + flag_value(
        "--repo"@,
        opt_trimmed(opt_view(i.repo)),
    )
}

/// `gh pr create --title <title> --body <body> [--base ..] [--head ..]
/// [--draft] [--repo ..]`; `--body` is always passed so `gh` never opens
/// an editor. A blank title is refused.
pub fn create_args(input: &GhPrCreateInput) -> (r: Result<Vec<String>, ToolError>)
    ensures
        trim(input.title@).len() == 0 ==> (r matches Err(e) && e.kind == ToolErrorKind::InvalidArguments
            && e.message@ == "Pull request title cannot be empty."@),
        trim(input.title@).len() > 0 ==> (r matches Ok(args) && views(args@) == create_args_spec(*input)),
{
    let t = trim_str(input.title.as_str());
    if t.as_str().is_empty() {
        return Err(invalid_arguments("Pull request title cannot be empty.".to_owned()));
    }
    let mut args: Vec<String> = Vec::new();
    push_lit(&mut args, "pr");
    push_lit(&mut args, "create");
    push_lit(&mut args, "--title");
    push_arg(&mut args, input.title.clone());
    push_lit(&mut args, "--body");
    let body = match &input.body {
        Some(b) => b.clone(),
        None => String::new(),
    };
    push_arg(&mut args, body);
    push_flag_value(&mut args, "--base", trimmed_nonempty(&input.base));
    push_flag_value(&mut args, "--head", trimmed_nonempty(&input.head));
    let ghost mid = views(args@);
    if input.draft {
        push_lit(&mut args, "--draft");
    }
    proof {
        assert(views(args@) =~= mid + (if input.draft { seq!["--draft"@] } else { Seq::empty() }));
    }
    push_flag_value(&mut args, "--repo", trimmed_nonempty(&input.repo));
    proof {
        assert(views(args@) =~= create_args_spec(*input));
    }
    Ok(args)
}

pub open spec fn comment_args_spec(i: GhPrCommentInput) -> Seq<Seq<char>> {
    seq!["pr"@, "comment"@, i.pr@, "--body"@, i.body@] + flag_value("--repo"@, opt_trimmed(opt_view(i.repo)))
}

/// `gh pr comment <pr> --body <body> [--repo ..]`; a blank PR reference
/// or body is refused.
pub fn comment_args(input: &GhPrCommentInput) -> (r: Result<Vec<String>, ToolError>)
    ensures
        trim(input.pr@).len() == 0 ==> (r matches Err(e) && e.kind == ToolErrorKind::InvalidArguments
            && e.message@ == "Pull request reference (pr) cannot be empty."@),
        trim(input.pr@).len() > 0 && trim(input.body@).len() == 0 ==> (r matches Err(e) && e.kind
            == ToolErrorKind::InvalidArguments && e.message@ == "Comment body cannot be empty."@),
        trim(input.pr@).len() > 0 && trim(input.body@).len() > 0 ==> (r matches Ok(args) && views(args@)
            == comment_args_spec(*input)),
{
    let p = trim_str(input.pr.as_str());
    if p.as_str().is_empty() {
        return Err(invalid_arguments("Pull request reference (pr) cannot be empty.".to_owned()));
    }
    let b = trim_str(input.body.as_str());
    if b.as_str().is_empty() {
        return Err(invalid_arguments("Comment body cannot be empty.".to_owned()));
    }
    let mut args: Vec<String> = Vec::new();
    push_lit(&mut args, "pr");
    push_lit(&mut args, "comment");
    push_arg(&mut args, input.pr.clone());
    push_lit(&mut args, "--body");
    push_arg(&mut args, input.body.clone());
    push_flag_value(&mut args, "--repo", trimmed_nonempty(&input.repo));
    proof {
        assert(views(args@) =~= comment_args_spec(*input));
    }
    Ok(args)
}

} // verus!

verus! {

// ── permission-prompt command lines ───────────────────────────────────────

/// One piece of a reconstructed command: ` <flag-or-arg>`, then
/// ` <quoted value>` when there is a value.
pub open spec fn part_text(flag: Seq<char>, value: Option<Seq<char>>) -> Seq<char> {
    " "@ + flag + (match value {
        Some(v) => " "@ + shell_quoted(v),
        None => Seq::empty(),
    })
}

pub open spec fn parts_text(parts: Seq<(Seq<char>, Option<Seq<char>>)>) -> Seq<char>
    decreases parts.len(),
{
    if parts.len() == 0 {
        Seq::empty()
    } else {
        parts_text(parts.drop_last()) + part_text(parts.last().0, parts.last().1)
    }
}

proof fn lemma_parts_text_push(ps: Seq<(Seq<char>, Option<Seq<char>>)>, f: Seq<char>, v: Option<Seq<char>>)
    ensures
        parts_text(ps.push((f, v))) == parts_text(ps) + part_text(f, v),
{
    assert(ps.push((f, v)).drop_last() =~= ps);
}

pub open spec fn part_views(parts: Seq<(String, Option<String>)>) -> Seq<(Seq<char>, Option<Seq<char>>)> {
    parts.map_values(|p: (String, Option<String>)| (p.0@, opt_view(p.1)))
}

/// `gh` followed by each part: flags and arguments as they are, values
/// single-quoted for display.
pub fn reconstruct_gh_command(parts: &Vec<(String, Option<String>)>) -> (cmd: String)
    ensures
        cmd@ == "gh"@ + parts_text(part_views(parts@)),
{
    let mut out = "gh".to_owned();
    let mut i: usize = 0;
    while i < parts.len()
        invariant
            i <= parts@.len(),
            out@ == "gh"@ + parts_text(part_views(parts@).take(i as int)),
        decreases parts@.len() - i,
    {
        let ghost before = out@;
        out.append(" ");
        out.append(parts[i].0.as_str());
        match &parts[i].1 {
            Some(v) => {
                out.append(" ");
                let q = shell_single_quote(v.as_str());
                out.append(q.as_str());
            },
            None => {},
        }
        proof {
            let pv = part_views(parts@);
            assert(pv.take(i + 1).drop_last() =~= pv.take(i as int));
            assert(pv.take(i + 1).last() == pv[i as int]);
            assert(out@ =~= before + part_text(pv[i as int].0, pv[i as int].1));
        }
        i = i + 1;
    }
    proof {
        assert(part_views(parts@).take(parts@.len() as int) =~= part_views(parts@));
    }
    out
}

pub open spec fn opt_part(flag: Seq<char>, v: Option<Seq<char>>) -> Seq<char> {
    match v {
        Some(x) => flag + shell_quoted(x),
        None => Seq::empty(),
    }
}

pub open spec fn view_command_spec(i: GhPrViewInput) -> Seq<char> {
    "gh pr view"@ + (match opt_trimmed(opt_view(i.pr)) {
        Some(p) => " "@ + p,
        None => Seq::empty(),
    }) + " --json "@ + shell_quoted(view_json_fields()) + opt_part(" --repo "@, opt_trimmed(opt_view(i.repo)))
}

/// The `gh pr view` command line shown in a permission prompt.
pub fn permission_command_for_view(input: &GhPrViewInput) -> (cmd: String)
    ensures
        cmd@ == view_command_spec(*input),
{
    let mut parts: Vec<(String, Option<String>)> = Vec::new();
    parts.push(("pr".to_owned(), None));
    parts.push(("view".to_owned(), None));
    let pr = trimmed_nonempty(&input.pr);
    let ghost prv = opt_view(pr);
    match pr {
        Some(p) => parts.push((p, None)),
        None => {},
    }
    parts.push(("--json".to_owned(), Some(view_json_fields_str().to_owned())));
    let repo = trimmed_nonempty(&input.repo);
    let ghost repov = opt_view(repo);
    match repo {
        Some(r) => parts.push(("--repo".to_owned(), Some(r))),
        None => {},
    }
    let cmd = reconstruct_gh_command(&parts);
    proof {
        let pv = part_views(parts@);
        let p0 = Seq::<(Seq<char>, Option<Seq<char>>)>::empty();
        let p1 = p0.push(("pr"@, None::<Seq<char>>));
        let p2 = p1.push(("view"@, None::<Seq<char>>));
        let p3 = match prv { Some(x) => p2.push((x, None::<Seq<char>>)), None => p2 };
        let p4 = p3.push(("--json"@, Some(view_json_fields())));
        let p5 = match repov { Some(r) => p4.push(("--repo"@, Some(r))), None => p4 };
        assert(pv =~= p5);
        lemma_parts_text_push(p0, "pr"@, None);
        lemma_parts_text_push(p1, "view"@, None);
        if let Some(x) = prv {
            lemma_parts_text_push(p2, x, None);
        }
        lemma_parts_text_push(p3, "--json"@, Some(view_json_fields()));
        if let Some(r) = repov {
            lemma_parts_text_push(p4, "--repo"@, Some(r));
        }
        reveal_strlit("gh pr view");
        reveal_strlit("gh");
        reveal_strlit(" ");
        reveal_strlit("pr");
        reveal_strlit("view");
        reveal_strlit(" --json ");
        reveal_strlit("--json");
        reveal_strlit(" --repo ");
        reveal_strlit("--repo");
        assert(cmd@ =~= view_command_spec(*input));
    }
    cmd
}

pub open spec fn list_command_spec(i: GhPrListInput) -> Seq<char> {
    "gh pr list --limit "@ + decimal(clamp_limit(i.limit, MAX_LIST_LIMIT) as nat) + " --json "@
        + list_json_fields() + opt_part(" --state "@, opt_trimmed(opt_view(i.state))) + opt_part(
        " --base "@,
        opt_trimmed(opt_view(i.base)),
    ) + opt_part(" --head "@, opt_trimmed(opt_view(i.head))) + opt_part(
        " --repo "@,
        opt_trimmed(opt_view(i.repo)),
    )
}

fn append_opt_part(cmd: &mut String, flag: &str, v: Option<String>)
    ensures
        final(cmd)@ == old(cmd)@ + opt_part(flag@, opt_view(v)),
{
    match v {
        Some(x) => {
            cmd.append(flag);
            let q = shell_single_quote(x.as_str());
            cmd.append(q.as_str());
        },
        None => {
            proof {
                assert(cmd@ + Seq::<char>::empty() =~= cmd@);
            }
        },
    }
}

/// The `gh pr list` command line shown in a permission prompt.
pub fn permission_command_for_list(input: &GhPrListInput) -> (cmd: String)
    ensures
        cmd@ == list_command_spec(*input),
{
    let limit = clamp_u32(input.limit, 1, MAX_LIST_LIMIT);
    let mut cmd = "gh pr list --limit ".to_owned();
    let l = u64_to_decimal(limit as u64);
    cmd.append(l.as_str());
    cmd.append(" --json ");
    cmd.append(list_json_fields_str());
    append_opt_part(&mut cmd, " --state ", trimmed_nonempty(&input.state));
    append_opt_part(&mut cmd, " --base ", trimmed_nonempty(&input.base));
    append_opt_part(&mut cmd, " --head ", trimmed_nonempty(&input.head));
    append_opt_part(&mut cmd, " --repo ", trimmed_nonempty(&input.repo));
    cmd
}

pub open spec fn create_command_spec(i: GhPrCreateInput) -> Seq<char> {
    "gh pr create --title "@ + shell_quoted(i.title@) + " --body "@ + shell_quoted(body_or_empty(i.body))
        + opt_part(" --base "@, opt_trimmed(opt_view(i.base))) + opt_part(
        " --head "@,
        opt_trimmed(opt_view(i.head)),
    ) + (if i.draft { " --draft"@ } else { Seq::empty() }) + opt_part(
        " --repo "@,
        opt_trimmed(opt_view(i.repo)),
    )
}

/// The `gh pr create` command line shown in a permission prompt.
pub fn permission_command_for_create(input: &GhPrCreateInput) -> (cmd: String)
    ensures
        cmd@ == create_command_spec(*input),
{
    let body: &str = match &input.body {
        Some(b) => b.as_str(),
        None => "",
    };
    proof {
        reveal_strlit("");
    }
    let mut cmd = "gh pr create --title ".to_owned();
    let t = shell_single_quote(input.title.as_str());
    cmd.append(t.as_str());
    cmd.append(" --body ");
    let b = shell_single_quote(body);
    cmd.append(b.as_str());
    append_opt_part(&mut cmd, " --base ", trimmed_nonempty(&input.base));
    append_opt_part(&mut cmd, " --head ", trimmed_nonempty(&input.head));
    let ghost mid = cmd@;
    if input.draft {
        cmd.append(" --draft");
    }
    proof {
        assert(cmd@ =~= mid + (if input.draft { " --draft"@ } else { Seq::empty() }));
    }
    append_opt_part(&mut cmd, " --repo ", trimmed_nonempty(&input.repo));
    cmd
}

pub open spec fn comment_command_spec(i: GhPrCommentInput) -> Seq<char> {
    "gh pr comment "@ + shell_quoted(i.pr@) + " --body "@ + shell_quoted(i.body@) + opt_part(
        " --repo "@,
        opt_trimmed(opt_view(i.repo)),
    )
}

/// The `gh pr comment` command line shown in a permission prompt.
pub fn permission_command_for_comment(input: &GhPrCommentInput) -> (cmd: String)
    ensures
        cmd@ == comment_command_spec(*input),
{
    let mut cmd = "gh pr comment ".to_owned();
    let p = shell_single_quote(input.pr.as_str());
    cmd.append(p.as_str());
    cmd.append(" --body ");
    let b = shell_single_quote(input.body.as_str());
    cmd.append(b.as_str());
    append_opt_part(&mut cmd, " --repo ", trimmed_nonempty(&input.repo));
    cmd
}

} // verus!

verus! {
#[derive(Debug, Default)]
pub struct GhPrViewTool;

impl GhPrViewTool {
    pub fn id(&self) -> (id: &'static str)
        ensures
            id@ == "gh_pr_view"@,
    {
        "gh_pr_view"
    }

    pub fn description_template(&self) -> (d: &'static str)
        ensures
            d@ == "Show details for a GitHub pull request (number, title, state, URL, branches, body). Omit pr to view the PR for the current branch."@,
    {
        "Show details for a GitHub pull request (number, title, state, URL, branches, body). Omit pr to view the PR for the current branch."
    }

    pub fn kind(&self) -> (k: ToolKind)
        ensures
            k == ToolKind::Git,
    {
        ToolKind::Git
    }

    pub fn tool_namespace(&self) -> (n: ToolNamespace)
        ensures
            n == ToolNamespace::GrokBuild,
    {
        ToolNamespace::GrokBuild
    }

    pub fn capabilities(&self) -> (c: ToolCapabilities)
        ensures
            c == (ToolCapabilities { is_read_only: true, tool_scope: ToolScope::Read }),
    {
        read_only_capabilities()
    }
}

#[derive(Debug, Default)]
pub struct GhPrListTool;

impl GhPrListTool {
    pub fn id(&self) -> (id: &'static str)
        ensures
            id@ == "gh_pr_list"@,
    {
        "gh_pr_list"
    }

    pub fn description_template(&self) -> (d: &'static str)
        ensures
            d@ == "List GitHub pull requests for the current repository (or --repo). Returns JSON."@,
    {
        "List GitHub pull requests for the current repository (or --repo). Returns JSON."
    }

    pub fn kind(&self) -> (k: ToolKind)
        ensures
            k == ToolKind::Git,
    {
        ToolKind::Git
    }

    pub fn tool_namespace(&self) -> (n: ToolNamespace)
        ensures
            n == ToolNamespace::GrokBuild,
    {
        ToolNamespace::GrokBuild
    }

    pub fn capabilities(&self) -> (c: ToolCapabilities)
        ensures
            c == (ToolCapabilities { is_read_only: true, tool_scope: ToolScope::Read }),
    {
        read_only_capabilities()
    }
}

#[derive(Debug, Default)]
pub struct GhPrCreateTool;

impl GhPrCreateTool {
    pub fn id(&self) -> (id: &'static str)
        ensures
            id@ == "gh_pr_create"@,
    {
        "gh_pr_create"
    }

    pub fn description_template(&self) -> (d: &'static str)
        ensures
            d@ == "Create a GitHub pull request for the current branch (or --head). Requires the GitHub CLI (`gh`) to be authenticated. Prefer this over shelling out to `gh pr create`."@,
    {
        "Create a GitHub pull request for the current branch (or --head). Requires the GitHub CLI (`gh`) to be authenticated. Prefer this over shelling out to `gh pr create`."
    }

    pub fn kind(&self) -> (k: ToolKind)
        ensures
            k == ToolKind::Git,
    {
        ToolKind::Git
    }

    pub fn tool_namespace(&self) -> (n: ToolNamespace)
        ensures
            n == ToolNamespace::GrokBuild,
    {
        ToolNamespace::GrokBuild
    }

    pub fn capabilities(&self) -> (c: ToolCapabilities)
        ensures
            c == (ToolCapabilities { is_read_only: false, tool_scope: ToolScope::Write }),
    {
        write_capabilities()
    }
}

#[derive(Debug, Default)]
pub struct GhPrCommentTool;

impl GhPrCommentTool {
    pub fn id(&self) -> (id: &'static str)
        ensures
            id@ == "gh_pr_comment"@,
    {
        "gh_pr_comment"
    }

    pub fn description_template(&self) -> (d: &'static str)
        ensures
            d@ == "Add a comment on a GitHub pull request. Prefer this over shelling out to `gh pr comment`."@,
    {
        "Add a comment on a GitHub pull request. Prefer this over shelling out to `gh pr comment`."
    }

    pub fn kind(&self) -> (k: ToolKind)
        ensures
            k == ToolKind::Git,
    {
        ToolKind::Git
    }

    pub fn tool_namespace(&self) -> (n: ToolNamespace)
        ensures
            n == ToolNamespace::GrokBuild,
    {
        ToolNamespace::GrokBuild
    }

    pub fn capabilities(&self) -> (c: ToolCapabilities)
        ensures
            c == (ToolCapabilities { is_read_only: false, tool_scope: ToolScope::Write }),
    {
        write_capabilities()
    }
}

} // verus!

verus! {

/// Whether an optional filter was given: present and not blank.
pub open spec fn given(o: Option<String>) -> bool {
    o matches Some(v) && trim(v@).len() > 0
}

/// The value of a given filter, trimmed.
pub open spec fn given_value(o: Option<String>) -> Seq<char> {
    match o {
        Some(v) => trim(v@),
        None => Seq::empty(),
    }
}

pub open spec fn count_given(os: Seq<Option<String>>) -> int
    decreases os.len(),
{
    if os.len() == 0 {
        0
    } else {
        count_given(os.drop_last()) + if given(os.last()) { 1int } else { 0int }
    }
}

proof fn lemma_flag_value_given(flag: Seq<char>, o: Option<String>)
    ensures
        flag_value(flag, opt_trimmed(opt_view(o))) == (if given(o) {
            seq![flag, given_value(o)]
        } else {
            Seq::<Seq<char>>::empty()
        }),
{
}

/// `gh pr list` gets every filter that was given, as its flag followed by
/// its trimmed value; the limit passed is the requested one clamped to
/// 1..=100; and the vector holds nothing else than the subcommand, the
/// limit, the JSON fields and the given filters.
pub proof fn law_list_args_carry_filters(i: GhPrListInput)
    ensures
        ({
            let a = list_args_spec(i);
            &&& a[0] == "pr"@ && a[1] == "list"@
            &&& exists|n: nat| 1 <= n <= 100 && (1 <= i.limit <= 100 ==> n == i.limit) && has_flag_value(
                a,
                "--limit"@,
                decimal(n),
            )
            &&& has_flag_value(a, "--json"@, list_json_fields())
            &&& given(i.state) ==> has_flag_value(a, "--state"@, given_value(i.state))
            &&& given(i.base) ==> has_flag_value(a, "--base"@, given_value(i.base))
            &&& given(i.head) ==> has_flag_value(a, "--head"@, given_value(i.head))
            &&& given(i.repo) ==> has_flag_value(a, "--repo"@, given_value(i.repo))
            &&& a.len() == 6 + 2 * count_given(seq![i.state, i.base, i.head, i.repo])
        }),
{
    let a = list_args_spec(i);
    let n = clamp_limit(i.limit, MAX_LIST_LIMIT);
    let head6 = seq!["pr"@, "list"@, "--limit"@, decimal(n as nat), "--json"@, list_json_fields()];
    let st = flag_value("--state"@, opt_trimmed(opt_view(i.state)));
    let ba = flag_value("--base"@, opt_trimmed(opt_view(i.base)));
    let he = flag_value("--head"@, opt_trimmed(opt_view(i.head)));
    let re = flag_value("--repo"@, opt_trimmed(opt_view(i.repo)));
    assert(a =~= head6 + st + ba + he + re);
    assert(a[2] == "--limit"@ && a[3] == decimal(n as nat));
    assert(a[4] == "--json"@ && a[5] == list_json_fields());
    assert(has_flag_value(a, "--limit"@, decimal(n as nat)));
    assert(has_flag_value(a, "--json"@, list_json_fields()));
    lemma_flag_value_given("--state"@, i.state);
    lemma_flag_value_given("--base"@, i.base);
    lemma_flag_value_given("--head"@, i.head);
    lemma_flag_value_given("--repo"@, i.repo);
    assert(a =~= head6 + st + (ba + he + re));
    lemma_flag_value_in(head6, "--state"@, opt_trimmed(opt_view(i.state)), ba + he + re);
    assert(a =~= (head6 + st) + ba + (he + re));
    lemma_flag_value_in(head6 + st, "--base"@, opt_trimmed(opt_view(i.base)), he + re);
    assert(a =~= (head6 + st + ba) + he + re);
    lemma_flag_value_in(head6 + st + ba, "--head"@, opt_trimmed(opt_view(i.head)), re);
    assert(a =~= (head6 + st + ba + he) + re + Seq::<Seq<char>>::empty());
    lemma_flag_value_in(head6 + st + ba + he, "--repo"@, opt_trimmed(opt_view(i.repo)), Seq::empty());
    let os = seq![i.state, i.base, i.head, i.repo];
    assert(os.drop_last() =~= seq![i.state, i.base, i.head]);
    assert(os.drop_last().drop_last() =~= seq![i.state, i.base]);
    assert(os.drop_last().drop_last().drop_last() =~= seq![i.state]);
    assert(os.drop_last().drop_last().drop_last().drop_last() =~= Seq::<Option<String>>::empty());
    reveal_with_fuel(count_given, 5);
}

pub open spec fn if_given(o: Option<String>, n: int) -> int {
    if given(o) { n } else { 0 }
}

/// `gh pr view` names the PR when one was given, always asks for the JSON
/// fields, and passes a given repository; nothing else.
pub proof fn law_view_args_carry_inputs(i: GhPrViewInput)
    ensures
        ({
            let a = view_args_spec(i);
            &&& a[0] == "pr"@ && a[1] == "view"@
            &&& given(i.pr) ==> a[2] == given_value(i.pr)
            &&& has_flag_value(a, "--json"@, view_json_fields())
            &&& given(i.repo) ==> has_flag_value(a, "--repo"@, given_value(i.repo))
            &&& a.len() == 4 + if_given(i.pr, 1) + if_given(i.repo, 2)
        }),
{
    let a = view_args_spec(i);
    let p = opt_arg(opt_trimmed(opt_view(i.pr)));
    let js = seq!["--json"@, view_json_fields()];
    let re = flag_value("--repo"@, opt_trimmed(opt_view(i.repo)));
    let pre = seq!["pr"@, "view"@] + p;
    assert(a =~= pre + js + re);
    lemma_flag_value_given("--repo"@, i.repo);
    assert(a[pre.len() as int] == "--json"@ && a[pre.len() as int + 1] == view_json_fields());
    assert(has_flag_value(a, "--json"@, view_json_fields()));
    lemma_flag_value_in(pre + js, "--repo"@, opt_trimmed(opt_view(i.repo)), Seq::empty());
    assert(a =~= (pre + js) + re + Seq::<Seq<char>>::empty());
}

/// `gh pr create` passes the title and the body (empty when none was
/// given) as they are, every given base, head and repository, and
/// `--draft` exactly for a draft; nothing else.
pub proof fn law_create_args_carry_inputs(i: GhPrCreateInput)
    ensures
        ({
            let a = create_args_spec(i);
            &&& a[0] == "pr"@ && a[1] == "create"@
            &&& has_flag_value(a, "--title"@, i.title@)
            &&& has_flag_value(a, "--body"@, body_or_empty(i.body))
            &&& given(i.base) ==> has_flag_value(a, "--base"@, given_value(i.base))
            &&& given(i.head) ==> has_flag_value(a, "--head"@, given_value(i.head))
            &&& given(i.repo) ==> has_flag_value(a, "--repo"@, given_value(i.repo))
            &&& i.draft ==> a.contains("--draft"@)
            &&& a.len() == 6 + if_given(i.base, 2) + if_given(i.head, 2) + (if i.draft { 1int } else { 0int })
                + if_given(i.repo, 2)
        }),
{
    let a = create_args_spec(i);
    let h = seq!["pr"@, "create"@, "--title"@, i.title@, "--body"@, body_or_empty(i.body)];
    let ba = flag_value("--base"@, opt_trimmed(opt_view(i.base)));
    let he = flag_value("--head"@, opt_trimmed(opt_view(i.head)));
    let dr: Seq<Seq<char>> = if i.draft { seq!["--draft"@] } else { Seq::empty() };
    let re = flag_value("--repo"@, opt_trimmed(opt_view(i.repo)));
    assert(a =~= h + ba + he + dr + re);
    assert(a[2] == "--title"@ && a[3] == i.title@ && a[4] == "--body"@ && a[5] == body_or_empty(i.body));
    assert(has_flag_value(a, "--title"@, i.title@));
    assert(has_flag_value(a, "--body"@, body_or_empty(i.body)));
    lemma_flag_value_given("--base"@, i.base);
    lemma_flag_value_given("--head"@, i.head);
    lemma_flag_value_given("--repo"@, i.repo);
    assert(a =~= h + ba + (he + dr + re));
    lemma_flag_value_in(h, "--base"@, opt_trimmed(opt_view(i.base)), he + dr + re);
    assert(a =~= (h + ba) + he + (dr + re));
    lemma_flag_value_in(h + ba, "--head"@, opt_trimmed(opt_view(i.head)), dr + re);
    assert(a =~= (h + ba + he + dr) + re + Seq::<Seq<char>>::empty());
    lemma_flag_value_in(h + ba + he + dr, "--repo"@, opt_trimmed(opt_view(i.repo)), Seq::empty());
    if i.draft {
        let k = (h + ba + he).len() as int;
        assert(a[k] == "--draft"@);
    }
}

/// `gh pr comment` passes the PR reference and the body as they are and
/// a given repository; nothing else.
pub proof fn law_comment_args_carry_inputs(i: GhPrCommentInput)
    ensures
        ({
            let a = comment_args_spec(i);
            &&& a[0] == "pr"@ && a[1] == "comment"@ && a[2] == i.pr@
            &&& has_flag_value(a, "--body"@, i.body@)
            &&& given(i.repo) ==> has_flag_value(a, "--repo"@, given_value(i.repo))
            &&& a.len() == 5 + if_given(i.repo, 2)
        }),
{
    let a = comment_args_spec(i);
    let h = seq!["pr"@, "comment"@, i.pr@, "--body"@, i.body@];
    let re = flag_value("--repo"@, opt_trimmed(opt_view(i.repo)));
    assert(a =~= h + re);
    assert(a[3] == "--body"@ && a[4] == i.body@);
    assert(has_flag_value(a, "--body"@, i.body@));
    lemma_flag_value_given("--repo"@, i.repo);
    assert(a =~= h + re + Seq::<Seq<char>>::empty());
    lemma_flag_value_in(h, "--repo"@, opt_trimmed(opt_view(i.repo)), Seq::empty());
}

} // verus!
