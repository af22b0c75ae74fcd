//! GitHub-sourced workspaces: strict parsing of remote repository URLs,
//! splitting of `owner/name` references for repositories to be created,
//! and the state machines that refresh or clone a cache repository and
//! hand over to local provisioning.

use vstd::prelude::*;

verus! {

use crate::errors::WorkspaceError;
use crate::provision::ProvisionRequest;
use crate::strings::{chars_to_string, chars_vec, is_blank, join_path, parent_dir, spec_blank,
    spec_join_path, spec_parent_dir, spec_trim_spaces, str_concat, trim_chars, trim_string};
use vstd::string::StringExecFns;

/// What the url crate extracts from a URL: its scheme, host and path
/// segments, or nothing if the text is not an absolute URL. A function
/// of the text alone.
pub uninterp spec fn url_parts_of(s: Seq<char>) -> Option<
    (Seq<char>, Option<Seq<char>>, Option<Seq<Seq<char>>>),
>;

/// Relies on `url::Url::parse` and its accessors `scheme`, `host_str`
/// and `path_segments`: parses an absolute URL and hands back those three
/// components as plain values; `None` when parsing fails.
#[verifier::external_body]
fn parse_url_parts(s: &str) -> (r: Option<(String, Option<String>, Option<Vec<String>>)>)
    ensures
        match r {
            None => url_parts_of(s@) is None,
            Some(p) => url_parts_of(s@) == Some((p.0@, p.1.deep_view(), p.2.deep_view())),
        },
{
    match url::Url::parse(s) {
        Ok(u) => {
            let scheme = u.scheme().to_string();
            let host = u.host_str().map(|h| h.to_string());
            let segments = u.path_segments().map(|ss| ss.map(|x| x.to_string()).collect());
            Some((scheme, host, segments))
        },
        Err(_) => None,
    }
}

/// `s` with one trailing `.git` removed, if present.
pub open spec fn spec_strip_git(s: Seq<char>) -> Seq<char> {
    if s.len() >= 4 && s.subrange(s.len() - 4, s.len() as int) == ".git"@ {
        s.take(s.len() - 4)
    } else {
        s
    }
}

/// `s` with every trailing `.git` repetition removed.
pub open spec fn strip_git_repeat(s: Seq<char>) -> Seq<char>
    decreases s.len(),
{
    if s.len() >= 4 && s.subrange(s.len() - 4, s.len() as int) == ".git"@ {
        strip_git_repeat(s.take(s.len() - 4))
    } else {
        s
    }
}

/// Whether `v` ends in the four characters `.git`.
fn ends_with_git(v: &Vec<char>) -> (b: bool)
    ensures
        b == (v@.len() >= 4 && v@.subrange(v@.len() - 4, v@.len() as int) == ".git"@),
{
    let n: usize = v.len();
    proof {
        reveal_strlit(".git");
        assert(".git"@ =~= seq!['.', 'g', 'i', 't']);
    }
    if n >= 4 && v[n - 4] == '.' && v[n - 3] == 'g' && v[n - 2] == 'i' && v[n - 1] == 't' {
        proof {
            assert(v@.subrange(n - 4, n as int) =~= ".git"@);
        }
        true
    } else {
        proof {
            if n >= 4 {
                let t = v@.subrange(n - 4, n as int);
                if t == ".git"@ {
                    assert(t[0] == '.' && t[1] == 'g' && t[2] == 'i' && t[3] == 't');
                    assert(false);
                }
            }
        }
        false
    }
}

/// The classification of a parsed URL: the accepted owner/repository
/// pair, or the exact rejection message.
pub open spec fn spec_classify_github_url(
    parts: Option<(Seq<char>, Option<Seq<char>>, Option<Seq<Seq<char>>>)>,
) -> Result<(Seq<char>, Seq<char>), Seq<char>> {
    match parts {
        None => Err("Only https://github.com/<owner>/<repo> repositories are supported"@),
        Some(p) => if p.0 != "https"@ || p.1 != Some("github.com"@) {
            Err("Only github.com repositories are supported"@)
        } else {
            match p.2 {
                None => Err("Invalid github repository URL"@),
                Some(ss) => if ss.len() < 1 || ss[0].len() == 0 {
                    Err("Invalid github repository URL"@)
                } else if ss.len() < 2 || ss[1].len() == 0 {
                    Err("Invalid github repository URL"@)
                } else {
                    Ok((ss[0], spec_strip_git(ss[1])))
                },
            }
        },
    }
}

/// Classify the extracted parts of a remote repository URL: only
/// `https`, only the `github.com` host, and at least two non-empty path
/// segments are accepted; a trailing `.git` on the repository segment is
/// stripped. Everything else is `InvalidInput` naming the expected shape.
pub fn classify_github_parts(parts: Option<(String, Option<String>, Option<Vec<String>>)>) -> (r:
    Result<(String, String), WorkspaceError>)
    ensures
        ({
            let s = spec_classify_github_url(parts.deep_view());
            match r {
                Ok(p) => s matches Ok(sp) && p.0@ == sp.0 && p.1@ == sp.1,
                Err(e) => {
                    &&& e matches WorkspaceError::InvalidInput(m)
                    &&& s matches Err(msg)
                    &&& m@ == msg
                },
            }
        }),
{
    match parts {
        None => Err(
            WorkspaceError::InvalidInput(
                String::from_str(
                    "Only https://github.com/<owner>/<repo> repositories are supported",
                ),
            ),
        ),
        Some((scheme, host, segments)) => {
            let host_ok: bool = match &host {
                Some(h) => crate::strings::str_eq(h.as_str(), "github.com"),
                None => false,
            };
            if !crate::strings::str_eq(scheme.as_str(), "https") || !host_ok {
                proof {
                    match host {
                        Some(h) => {
                            assert(host.deep_view() == Some(h@));
                        },
                        None => {},
                    }
                }
                Err(
                    WorkspaceError::InvalidInput(
                        String::from_str("Only github.com repositories are supported"),
                    ),
                )
            } else {
                match segments {
                    None => Err(
                        WorkspaceError::InvalidInput(
                            String::from_str("Invalid github repository URL"),
                        ),
                    ),
                    Some(ss) => {
                        proof {
                            assert(ss.deep_view().len() == ss@.len());
                        }
                        if ss.len() < 1 || ss[0].as_str().unicode_len() == 0 {
                            proof {
                                if ss@.len() >= 1 {
                                    assert(ss.deep_view()[0] == ss@[0]@);
                                }
                            }
                            Err(
                                WorkspaceError::InvalidInput(
                                    String::from_str("Invalid github repository URL"),
                                ),
                            )
                        } else if ss.len() < 2 || ss[1].as_str().unicode_len() == 0 {
                            proof {
                                assert(ss.deep_view()[0] == ss@[0]@);
                                if ss@.len() >= 2 {
                                    assert(ss.deep_view()[1] == ss@[1]@);
                                }
                            }
                            Err(
                                WorkspaceError::InvalidInput(
                                    String::from_str("Invalid github repository URL"),
                                ),
                            )
                        } else {
                            proof {
                                assert(ss.deep_view()[0] == ss@[0]@);
                                assert(ss.deep_view()[1] == ss@[1]@);
                            }
                            let owner = ss[0].clone();
                            let repo = strip_git_suffix(ss[1].as_str());
                            Ok((owner, repo))
                        }
                    },
                }
            }
        },
    }
}

/// `s` with one trailing `.git` removed, if present.
fn strip_git_suffix(s: &str) -> (r: String)
    ensures
        r@ == spec_strip_git(s@),
{
    let mut cs = chars_vec(s);
    if ends_with_git(&cs) {
        let n: usize = cs.len();
        cs.truncate(n - 4);
        chars_to_string(&cs)
    } else {
        String::from_str(s)
    }
}

/// Parse a remote repository URL strictly: only
/// `https://github.com/<owner>/<repo>` (optionally `.git`-suffixed) is
/// accepted, and the owner and repository names are returned. The
/// decision is exactly `spec_classify_github_url` applied to what the
/// url crate extracted from the text.
pub fn parse_github_repo_url(repo_url: &str) -> (r: Result<(String, String), WorkspaceError>)
    ensures
        ({
            let s = spec_classify_github_url(url_parts_of(repo_url@));
            match r {
                Ok(p) => s matches Ok(sp) && p.0@ == sp.0 && p.1@ == sp.1,
                Err(e) => {
                    &&& e matches WorkspaceError::InvalidInput(m)
                    &&& s matches Err(msg)
                    &&& m@ == msg
                },
            }
        }),
{
    let parts = parse_url_parts(repo_url);
    classify_github_parts(parts)
}

/// One step of splitting on `/`: finished segments so far plus the
/// segment being accumulated.
pub open spec fn split_step(st: (Seq<Seq<char>>, Seq<char>), c: char) -> (Seq<Seq<char>>, Seq<
    char,
>) {
    if c == '/' {
        (st.0.push(st.1), Seq::empty())
    } else {
        (st.0, st.1.push(c))
    }
}

/// Splitting state after folding every character of `s`.
pub open spec fn split_fold(s: Seq<char>) -> (Seq<Seq<char>>, Seq<char>)
    decreases s.len(),
{
    if s.len() == 0 {
        (Seq::empty(), Seq::empty())
    } else {
        split_step(split_fold(s.drop_last()), s.last())
    }
}

/// The `/`-separated segments of `s` (empty segments included).
pub open spec fn split_slash(s: Seq<char>) -> Seq<Seq<char>> {
    split_fold(s).0.push(split_fold(s).1)
}

/// Segments trimmed of whitespace, with the empty ones dropped.
pub open spec fn clean_tokens(segs: Seq<Seq<char>>) -> Seq<Seq<char>>
    decreases segs.len(),
{
    if segs.len() == 0 {
        Seq::empty()
    } else {
        let pre = clean_tokens(segs.drop_last());
        let t = spec_trim_spaces(segs.last());
        if t.len() > 0 {
            pre.push(t)
        } else {
            pre
        }
    }
}

/// What splitting a new-repository reference yields: an optional
/// explicit owner and the repository name, or the exact rejection
/// message.
pub open spec fn spec_split_repo(input: Seq<char>) -> Result<
    (Option<Seq<char>>, Seq<char>),
    Seq<char>,
> {
    let normalized = strip_git_repeat(spec_trim_spaces(input));
    if normalized.len() == 0 {
        Err("Repository name is required"@)
    } else {
        let toks = clean_tokens(split_slash(normalized));
        if toks.len() == 1 {
            Ok((None, toks[0]))
        } else if toks.len() == 2 {
            Ok((Some(toks[0]), toks[1]))
        } else {
            Err("Repository name must be \"<name>\" or \"<owner>/<name>\""@)
        }
    }
}

/// Split a `name` or `owner/name` reference (optionally `.git`-suffixed)
/// for a repository to be created: one segment yields no owner, two
/// yield an explicit owner, anything else is `InvalidInput` naming the
/// expected shape.
pub fn split_repository_name(repository_name: &str) -> (r: Result<
    (Option<String>, String),
    WorkspaceError,
>)
    ensures
        ({
            let s = spec_split_repo(repository_name@);
            match r {
                Ok(p) => {
                    &&& s matches Ok(sp)
                    &&& match p.0 {
                        Some(o) => sp.0 == Some(o@),
                        None => sp.0 is None,
                    }
                    &&& p.1@ == sp.1
                },
                Err(e) => {
                    &&& e matches WorkspaceError::InvalidInput(m)
                    &&& s matches Err(msg)
                    &&& m@ == msg
                },
            }
        }),
{
    let cs = chars_vec(repository_name);
    let trimmed = trim_chars(&cs);
    let ghost trimmed_view = trimmed@;
    let mut norm = trimmed;
    while ends_with_git(&norm)
        invariant
            strip_git_repeat(norm@) == strip_git_repeat(trimmed_view),
        decreases norm@.len(),
    {
        let n: usize = norm.len();
        norm.truncate(n - 4);
    }
    proof {
        assert(strip_git_repeat(norm@) == norm@);
    }
    if norm.len() == 0 {
        return Err(WorkspaceError::InvalidInput(String::from_str("Repository name is required")));
    }
    let mut done: Vec<Vec<char>> = Vec::new();
    let mut cur: Vec<char> = Vec::new();
    let mut i: usize = 0;
    proof {
        assert(done.deep_view() =~~= split_fold(norm@.take(0)).0);
        assert(cur@ =~~= split_fold(norm@.take(0)).1);
    }
    while i < norm.len()
        invariant
            i <= norm@.len(),
            (done.deep_view(), cur@) == split_fold(norm@.take(i as int)),
        decreases norm@.len() - i,
    {
        let c = norm[i];
        if c == '/' {
            done.push(cur);
            cur = Vec::new();
        } else {
            cur.push(c);
        }
        i = i + 1;
        proof {
            let t = norm@.take(i as int);
            assert(t.drop_last() =~= norm@.take(i - 1));
            assert(t.last() == norm@[i - 1]);
            assert(done.deep_view() =~~= split_step(split_fold(norm@.take(i - 1)), norm@[i - 1]).0);
            assert(cur@ =~~= split_step(split_fold(norm@.take(i - 1)), norm@[i - 1]).1);
        }
    }
    proof {
        assert(norm@.take(norm@.len() as int) =~= norm@);
    }
    done.push(cur);
    proof {
        assert(done.deep_view() =~~= split_slash(norm@));
    }
    let ghost segs = done.deep_view();
    let mut tokens: Vec<String> = Vec::new();
    let mut j: usize = 0;
    proof {
        assert(tokens.deep_view() =~~= clean_tokens(segs.take(0)));
    }
    while j < done.len()
        invariant
            j <= segs.len(),
            segs == done.deep_view(),
            tokens.deep_view() == clean_tokens(segs.take(j as int)),
        decreases segs.len() - j,
    {
        let t = trim_chars(&done[j]);
        proof {
            assert(done.deep_view()[j as int] =~= done@[j as int]@);
        }
        if t.len() > 0 {
            tokens.push(chars_to_string(&t));
        }
        j = j + 1;
        proof {
            let p = segs.take(j as int);
            assert(p.drop_last() =~= segs.take(j - 1));
            assert(p.last() == segs[j - 1]);
            assert(tokens.deep_view() =~~= clean_tokens(segs.take(j as int)));
        }
    }
    proof {
        assert(segs.take(segs.len() as int) =~= segs);
    }
    if tokens.len() == 1 {
        let repo = tokens[0].clone();
        Ok((None, repo))
    } else if tokens.len() == 2 {
        let owner = tokens[0].clone();
        let repo = tokens[1].clone();
        proof {
            assert(tokens.deep_view()[0] == tokens@[0]@);
            assert(tokens.deep_view()[1] == tokens@[1]@);
        }
        Ok((Some(owner), repo))
    } else {
        Err(
            WorkspaceError::InvalidInput(
                String::from_str("Repository name must be \"<name>\" or \"<owner>/<name>\""),
            ),
        )
    }
}

/// The result of a workspace created from a new GitHub repository: the
/// provisioned worktree plus the remote URL that was constructed for it.
#[derive(Debug)]
pub struct CreatedGitHubWorkspace {
    pub prepared: crate::model::PreparedWorkspace,
    pub repo_url: String,
}

/// The caller-supplied inputs for a workspace sourced from an existing
/// GitHub repository URL.
#[derive(Debug)]
pub struct GithubRequest {
    pub repo_url: String,
    pub workspace_name: String,
    pub clone_root_path: Option<String>,
    pub branch_name: Option<String>,
    pub base_ref: Option<String>,
    pub suffix: String,
    pub app_data_dir: String,
}

/// External work for the remote flow: filesystem checks plus the git
/// invocations that refresh or create the cache clone.
#[derive(Debug)]
pub enum GithubAction {
    /// Does this path exist on disk?
    CheckPathExists(String),
    /// Create this directory and its parents.
    MakeDirAll(String),
    /// `git -C <dir> fetch --all --prune`
    FetchAll(String),
    /// `git -C <cwd> clone <url> <dest>`
    CloneRepo { cwd: String, url: String, dest: String },
}

/// The driver's report of one performed remote-flow action.
#[derive(Debug)]
pub enum GithubEvent {
    PathChecked(bool),
    DirMade(Result<(), String>),
    GitRan(Result<String, String>),
}

/// Where a remote-flow run stands, named for the event it awaits.
#[derive(Debug)]
pub enum GithubState {
    CacheChecked { req: GithubRequest, cache: String },
    ParentMade { req: GithubRequest, cache: String },
    CacheRefreshed { req: GithubRequest, cache: String },
    Cloned { req: GithubRequest, cache: String },
}

/// One turn of the remote flow: more external work, a handoff to local
/// provisioning against the cache clone, or a failure.
#[derive(Debug)]
pub enum GithubStep {
    Continue(GithubState, GithubAction),
    Provision(ProvisionRequest),
    Fail(WorkspaceError),
}

/// The cache clone directory for `owner`/`repo`: `<root>/<owner>__<repo>`,
/// with the root either the caller's non-blank clone root or the fixed
/// cache location under the application data directory.
pub open spec fn spec_cache_path(req: GithubRequest, owner: Seq<char>, repo: Seq<char>) -> Seq<
    char,
> {
    let dir = owner + "__"@ + repo;
    match req.clone_root_path {
        Some(root) => if !spec_blank(root@) {
            spec_join_path(root@, dir)
        } else {
            spec_join_path(req.app_data_dir@ + "/repo-cache/github"@, dir)
        },
        None => spec_join_path(req.app_data_dir@ + "/repo-cache/github"@, dir),
    }
}

/// The handoff to local provisioning: the cache clone becomes the origin
/// repository, everything else passes through, and worktrees go under
/// `<app_data_dir>/workspaces`.
pub open spec fn github_handoff(req: GithubRequest, cache: String, r: GithubStep) -> bool {
    &&& r matches GithubStep::Provision(p)
    &&& p.repo_path == cache
    &&& p.workspace_name == req.workspace_name
    &&& p.branch_name == req.branch_name
    &&& p.base_ref == req.base_ref
    &&& p.suffix == req.suffix
    &&& p.workspaces_root@ == spec_join_path(req.app_data_dir@, "workspaces"@)
}

/// The remote flow failed with this exact error.
pub open spec fn github_fail_invalid(r: GithubStep, msg: Seq<char>) -> bool {
    &&& r matches GithubStep::Fail(e)
    &&& e matches WorkspaceError::InvalidInput(m)
    &&& m@ == msg
}

/// Which event each remote-flow state awaits.
pub open spec fn github_expects(state: GithubState, event: GithubEvent) -> bool {
    match state {
        GithubState::CacheChecked { .. } => event matches GithubEvent::PathChecked(_),
        GithubState::ParentMade { .. } => event matches GithubEvent::DirMade(_),
        GithubState::CacheRefreshed { .. } => event matches GithubEvent::GitRan(_),
        GithubState::Cloned { .. } => event matches GithubEvent::GitRan(_),
    }
}

/// What `start_github` returns: the URL verdict decides between an
/// immediate rejection and a check of the cache clone directory.
pub open spec fn github_start_post(req: GithubRequest, r: GithubStep) -> bool {
    match spec_classify_github_url(url_parts_of(req.repo_url@)) {
        Err(msg) => github_fail_invalid(r, msg),
        Ok(or) => {
            &&& r matches GithubStep::Continue(s, a)
            &&& s matches GithubState::CacheChecked { req: q, cache: c }
            &&& q == req
            &&& c@ == spec_cache_path(req, or.0, or.1)
            &&& a matches GithubAction::CheckPathExists(p)
            &&& p@ == spec_cache_path(req, or.0, or.1)
        },
    }
}

/// What `github_step` returns for a given state and event.
pub open spec fn github_step_post(state: GithubState, event: GithubEvent, r: GithubStep) -> bool {
    match state {
        GithubState::CacheChecked { req, cache } => match event {
            GithubEvent::PathChecked(b) => if b {
                {
                    &&& r matches GithubStep::Continue(s, a)
                    &&& s matches GithubState::CacheRefreshed { req: q, cache: c }
                    &&& q == req
                    &&& c == cache
                    &&& a matches GithubAction::FetchAll(p)
                    &&& p@ == cache@
                }
            } else {
                {
                    &&& r matches GithubStep::Continue(s, a)
                    &&& s matches GithubState::ParentMade { req: q, cache: c }
                    &&& q == req
                    &&& c == cache
                    &&& a matches GithubAction::MakeDirAll(p)
                    &&& p@ == spec_parent_dir(cache@)
                }
            },
            _ => true,
        },
        GithubState::ParentMade { req, cache } => match event {
            GithubEvent::DirMade(res) => match res {
                Err(m) => {
                    &&& r matches GithubStep::Fail(e)
                    &&& e matches WorkspaceError::Io(em)
                    &&& em@ == m@
                },
                Ok(u) => {
                    &&& r matches GithubStep::Continue(s, a)
                    &&& s matches GithubState::Cloned { req: q, cache: c }
                    &&& q == req
                    &&& c == cache
                    &&& a matches GithubAction::CloneRepo { cwd, url, dest }
                    &&& cwd@ == req.app_data_dir@
                    &&& url@ == req.repo_url@
                    &&& dest@ == cache@
                },
            },
            _ => true,
        },
        GithubState::CacheRefreshed { req, cache } => match event {
            GithubEvent::GitRan(res) => match res {
                Err(m) => {
                    &&& r matches GithubStep::Fail(e)
                    &&& e matches WorkspaceError::GitFailed(em)
                    &&& em@ == m@
                },
                Ok(out) => github_handoff(req, cache, r),
            },
            _ => true,
        },
        GithubState::Cloned { req, cache } => match event {
            GithubEvent::GitRan(res) => match res {
                Err(m) => {
                    &&& r matches GithubStep::Fail(e)
                    &&& e matches WorkspaceError::GitFailed(em)
                    &&& em@ == m@
                },
                Ok(out) => github_handoff(req, cache, r),
            },
            _ => true,
        },
    }
}

/// Begin the remote flow: parse the repository URL strictly, compute the
/// cache clone directory, and ask the driver whether it exists.
pub fn start_github(req: GithubRequest) -> (r: GithubStep)
    ensures
        github_start_post(req, r),
{
    let parsed = parse_github_repo_url(req.repo_url.as_str());
    match parsed {
        Err(e) => GithubStep::Fail(e),
        Ok((owner, repo)) => {
            let mut dir_name = owner;
            dir_name.append("__");
            dir_name.append(repo.as_str());
            let cache: String = match &req.clone_root_path {
                Some(root) => {
                    if !is_blank(root.as_str()) {
                        join_path(root.as_str(), dir_name.as_str())
                    } else {
                        let base = str_concat(req.app_data_dir.as_str(), "/repo-cache/github");
                        join_path(base.as_str(), dir_name.as_str())
                    }
                },
                None => {
                    let base = str_concat(req.app_data_dir.as_str(), "/repo-cache/github");
                    join_path(base.as_str(), dir_name.as_str())
                },
            };
            let check = cache.clone();
            GithubStep::Continue(
                GithubState::CacheChecked { req, cache },
                GithubAction::CheckPathExists(check),
            )
        },
    }
}

/// Advance the remote flow by one performed action.
pub fn github_step(state: GithubState, event: GithubEvent) -> (r: GithubStep)
    requires
        github_expects(state, event),
    ensures
        github_step_post(state, event, r),
{
    match (state, event) {
        (GithubState::CacheChecked { req, cache }, GithubEvent::PathChecked(b)) => {
            if b {
                let dir = cache.clone();
                GithubStep::Continue(
                    GithubState::CacheRefreshed { req, cache },
                    GithubAction::FetchAll(dir),
                )
            } else {
                let parent = parent_dir(cache.as_str());
                GithubStep::Continue(
                    GithubState::ParentMade { req, cache },
                    GithubAction::MakeDirAll(parent),
                )
            }
        },
        (GithubState::ParentMade { req, cache }, GithubEvent::DirMade(res)) => {
            match res {
                Err(m) => GithubStep::Fail(WorkspaceError::Io(m)),
                Ok(_u) => {
                    let cwd = req.app_data_dir.clone();
                    let url = req.repo_url.clone();
                    let dest = cache.clone();
                    GithubStep::Continue(
                        GithubState::Cloned { req, cache },
                        GithubAction::CloneRepo { cwd, url, dest },
                    )
                },
            }
        },
        (GithubState::CacheRefreshed { req, cache }, GithubEvent::GitRan(res)) => {
            match res {
                Err(m) => GithubStep::Fail(WorkspaceError::GitFailed(m)),
                Ok(_out) => github_handoff_step(req, cache),
            }
        },
        (GithubState::Cloned { req, cache }, GithubEvent::GitRan(res)) => {
            match res {
                Err(m) => GithubStep::Fail(WorkspaceError::GitFailed(m)),
                Ok(_out) => github_handoff_step(req, cache),
            }
        },
        (s, e) => {
            proof {
                assert(!github_expects(s, e));
                assert(false);
            }
            GithubStep::Fail(WorkspaceError::GitFailed(String::new()))
        },
    }
}

/// The caller-supplied inputs for a workspace sourced from a GitHub
/// repository that is to be created first.
#[derive(Debug)]
pub struct NewGithubRequest {
    pub repository_name: String,
    pub workspace_name: String,
    pub clone_root_path: Option<String>,
    pub branch_name: Option<String>,
    pub base_ref: Option<String>,
    pub suffix: String,
    pub app_data_dir: String,
}

/// External work for the new-repository flow: filesystem checks plus the
/// hosting-CLI invocations.
#[derive(Debug)]
pub enum NewGithubAction {
    /// Create this directory and its parents.
    MakeDirAll(String),
    /// Does this path exist on disk?
    CheckPathExists(String),
    /// `gh api user --jq .login`, run in the given directory.
    QueryAuthenticatedOwner(String),
    /// `gh repo create <identifier> --private --clone --add-readme`,
    /// run in the given directory.
    CreateRepo { cwd: String, identifier: String },
}

/// The driver's report of one performed new-repository action. A `GhRan`
/// error carries the command runner's classification: the distinct
/// CLI-not-found error, an I/O failure, or the captured diagnostic of a
/// run that failed.
#[derive(Debug)]
pub enum NewGithubEvent {
    DirMade(Result<(), String>),
    PathChecked(bool),
    GhRan(Result<String, WorkspaceError>),
}

/// Where a new-repository run stands, named for the event it awaits.
#[derive(Debug)]
pub enum NewGithubState {
    RootMade { req: NewGithubRequest, clone_root: String },
    OwnerQueried { req: NewGithubRequest, clone_root: String, repo: String },
    DestChecked {
        req: NewGithubRequest,
        clone_root: String,
        identifier: String,
        repo_url: String,
        dest: String,
    },
    RepoCreated { req: NewGithubRequest, repo_url: String, dest: String },
}

/// One turn of the new-repository flow: more external work, a handoff to
/// local provisioning (with the constructed remote URL), or a failure.
#[derive(Debug)]
pub enum NewGithubStep {
    Continue(NewGithubState, NewGithubAction),
    Provision(ProvisionRequest, String),
    Fail(WorkspaceError),
}

/// The clone root of a new-repository run: the caller's non-blank root,
/// else a fixed location under the application data directory.
pub open spec fn spec_new_clone_root(req: NewGithubRequest) -> Seq<char> {
    match req.clone_root_path {
        Some(root) => if !spec_blank(root@) {
            root@
        } else {
            req.app_data_dir@ + "/repo-cache/github-created"@
        },
        None => req.app_data_dir@ + "/repo-cache/github-created"@,
    }
}

/// Which event each new-repository state awaits.
pub open spec fn new_github_expects(state: NewGithubState, event: NewGithubEvent) -> bool {
    match state {
        NewGithubState::RootMade { .. } => event matches NewGithubEvent::DirMade(_),
        NewGithubState::OwnerQueried { .. } => event matches NewGithubEvent::GhRan(_),
        NewGithubState::DestChecked { .. } => event matches NewGithubEvent::PathChecked(_),
        NewGithubState::RepoCreated { .. } => event matches NewGithubEvent::GhRan(_),
    }
}

/// The step moved on to checking the clone destination, with the owner
/// settled: identifier `<owner>/<repo>`, remote URL
/// `https://github.com/<owner>/<repo>`, destination `<root>/<repo>`.
pub open spec fn to_dest_check(
    req: NewGithubRequest,
    clone_root: String,
    owner: Seq<char>,
    repo: Seq<char>,
    r: NewGithubStep,
) -> bool {
    &&& r matches NewGithubStep::Continue(s, a)
    &&& s matches NewGithubState::DestChecked {
        req: q,
        clone_root: cr,
        identifier: idf,
        repo_url: ru,
        dest: d,
    }
    &&& q == req
    &&& cr == clone_root
    &&& idf@ == owner + "/"@ + repo
    &&& ru@ == "https://github.com/"@ + owner + "/"@ + repo
    &&& d@ == spec_join_path(clone_root@, repo)
    &&& a matches NewGithubAction::CheckPathExists(p)
    &&& p@ == spec_join_path(clone_root@, repo)
}

/// The new-repository flow failed with this exact `InvalidInput`.
pub open spec fn new_github_fail_invalid(r: NewGithubStep, msg: Seq<char>) -> bool {
    &&& r matches NewGithubStep::Fail(e)
    &&& e matches WorkspaceError::InvalidInput(m)
    &&& m@ == msg
}

/// What `start_new_github` returns: the clone root is computed and its
/// creation requested.
pub open spec fn new_github_start_post(req: NewGithubRequest, r: NewGithubStep) -> bool {
    &&& r matches NewGithubStep::Continue(s, a)
    &&& s matches NewGithubState::RootMade { req: q, clone_root: cr }
    &&& q == req
    &&& cr@ == spec_new_clone_root(req)
    &&& a matches NewGithubAction::MakeDirAll(p)
    &&& p@ == spec_new_clone_root(req)
}

/// What `new_github_step` returns for a given state and event.
pub open spec fn new_github_step_post(
    state: NewGithubState,
    event: NewGithubEvent,
    r: NewGithubStep,
) -> bool {
    match state {
        NewGithubState::RootMade { req, clone_root } => match event {
            NewGithubEvent::DirMade(res) => match res {
                Err(m) => {
                    &&& r matches NewGithubStep::Fail(e)
                    &&& e matches WorkspaceError::Io(em)
                    &&& em@ == m@
                },
                Ok(u) => match spec_split_repo(req.repository_name@) {
                    Err(msg) => new_github_fail_invalid(r, msg),
                    Ok(split) => match split.0 {
                        Some(owner) => to_dest_check(req, clone_root, owner, split.1, r),
                        None => {
                            &&& r matches NewGithubStep::Continue(s, a)
                            &&& s matches NewGithubState::OwnerQueried {
                                req: q,
                                clone_root: cr,
                                repo: rp,
                            }
                            &&& q == req
                            &&& cr == clone_root
                            &&& rp@ == split.1
                            &&& a matches NewGithubAction::QueryAuthenticatedOwner(p)
                            &&& p@ == clone_root@
                        },
                    },
                },
            },
            _ => true,
        },
        NewGithubState::OwnerQueried { req, clone_root, repo } => match event {
            NewGithubEvent::GhRan(res) => match res {
                Err(e) => r matches NewGithubStep::Fail(e2) && e2 == e,
                Ok(login) => if spec_trim_spaces(login@).len() == 0 {
                    new_github_fail_invalid(
                        r,
                        "Unable to determine authenticated GitHub user. Run `gh auth login` and try again."@,
                    )
                } else {
                    to_dest_check(req, clone_root, spec_trim_spaces(login@), repo@, r)
                },
            },
            _ => true,
        },
        NewGithubState::DestChecked { req, clone_root, identifier, repo_url, dest } => match event {
            NewGithubEvent::PathChecked(b) => if b {
                new_github_fail_invalid(r, "Clone destination already exists: "@ + dest@)
            } else {
                {
                    &&& r matches NewGithubStep::Continue(s, a)
                    &&& s matches NewGithubState::RepoCreated { req: q, repo_url: ru, dest: d }
                    &&& q == req
                    &&& ru == repo_url
                    &&& d == dest
                    &&& a matches NewGithubAction::CreateRepo { cwd, identifier: idf }
                    &&& cwd@ == clone_root@
                    &&& idf@ == identifier@
                }
            },
            _ => true,
        },
        NewGithubState::RepoCreated { req, repo_url, dest } => match event {
            NewGithubEvent::GhRan(res) => match res {
                Err(e) => r matches NewGithubStep::Fail(e2) && e2 == e,
                Ok(out) => {
                    &&& r matches NewGithubStep::Provision(p, ru)
                    &&& ru == repo_url
                    &&& p.repo_path == dest
                    &&& p.workspace_name == req.workspace_name
                    &&& p.branch_name == req.branch_name
                    &&& p.base_ref == req.base_ref
                    &&& p.suffix == req.suffix
                    &&& p.workspaces_root@ == spec_join_path(req.app_data_dir@, "workspaces"@)
                },
            },
            _ => true,
        },
    }
}

/// Begin the new-repository flow: settle the clone root and ask the
/// driver to create it.
pub fn start_new_github(req: NewGithubRequest) -> (r: NewGithubStep)
    ensures
        new_github_start_post(req, r),
{
    let clone_root: String = match &req.clone_root_path {
        Some(root) => {
            if !is_blank(root.as_str()) {
                root.clone()
            } else {
                str_concat(req.app_data_dir.as_str(), "/repo-cache/github-created")
            }
        },
        None => str_concat(req.app_data_dir.as_str(), "/repo-cache/github-created"),
    };
    let make = clone_root.clone();
    NewGithubStep::Continue(
        NewGithubState::RootMade { req, clone_root },
        NewGithubAction::MakeDirAll(make),
    )
}

/// Advance the new-repository flow by one performed action.
pub fn new_github_step(state: NewGithubState, event: NewGithubEvent) -> (r: NewGithubStep)
    requires
        new_github_expects(state, event),
    ensures
        new_github_step_post(state, event, r),
{
    match (state, event) {
        (NewGithubState::RootMade { req, clone_root }, NewGithubEvent::DirMade(res)) => {
            match res {
                Err(m) => NewGithubStep::Fail(WorkspaceError::Io(m)),
                Ok(_u) => {
                    match split_repository_name(req.repository_name.as_str()) {
                        Err(e) => NewGithubStep::Fail(e),
                        Ok((owner_opt, repo)) => {
                            match owner_opt {
                                Some(owner) => enter_dest_check(req, clone_root, owner, repo),
                                None => {
                                    let cwd = clone_root.clone();
                                    NewGithubStep::Continue(
                                        NewGithubState::OwnerQueried { req, clone_root, repo },
                                        NewGithubAction::QueryAuthenticatedOwner(cwd),
                                    )
                                },
                            }
                        },
                    }
                },
            }
        },
        (NewGithubState::OwnerQueried { req, clone_root, repo }, NewGithubEvent::GhRan(res)) => {
            match res {
                Err(e) => NewGithubStep::Fail(e),
                Ok(login) => {
                    let owner = trim_string(login.as_str());
                    if owner.as_str().unicode_len() == 0 {
                        NewGithubStep::Fail(
                            WorkspaceError::InvalidInput(
                                String::from_str(
                                    "Unable to determine authenticated GitHub user. Run `gh auth login` and try again.",
                                ),
                            ),
                        )
                    } else {
                        enter_dest_check(req, clone_root, owner, repo)
                    }
                },
            }
        },
        (
            NewGithubState::DestChecked { req, clone_root, identifier, repo_url, dest },
            NewGithubEvent::PathChecked(b),
        ) => {
            if b {
                NewGithubStep::Fail(
                    WorkspaceError::InvalidInput(
                        str_concat("Clone destination already exists: ", dest.as_str()),
                    ),
                )
            } else {
                let cwd = clone_root.clone();
                let idf = identifier;
                NewGithubStep::Continue(
                    NewGithubState::RepoCreated { req, repo_url, dest },
                    NewGithubAction::CreateRepo { cwd, identifier: idf },
                )
            }
        },
        (NewGithubState::RepoCreated { req, repo_url, dest }, NewGithubEvent::GhRan(res)) => {
            match res {
                Err(e) => NewGithubStep::Fail(e),
                Ok(_out) => {
                    let workspaces_root = join_path(req.app_data_dir.as_str(), "workspaces");
                    NewGithubStep::Provision(
                        ProvisionRequest {
                            repo_path: dest,
                            workspace_name: req.workspace_name,
                            branch_name: req.branch_name,
                            base_ref: req.base_ref,
                            suffix: req.suffix,
                            workspaces_root,
                        },
                        repo_url,
                    )
                },
            }
        },
        (s, e) => {
            proof {
                assert(!new_github_expects(s, e));
                assert(false);
            }
            NewGithubStep::Fail(WorkspaceError::GitFailed(String::new()))
        },
    }
}

/// Settle the identifier, remote URL and clone destination, and ask the
/// driver whether the destination already exists.
fn enter_dest_check(
    req: NewGithubRequest,
    clone_root: String,
    owner: String,
    repo: String,
) -> (r: NewGithubStep)
    ensures
        to_dest_check(req, clone_root, owner@, repo@, r),
{
    let ghost owner_view = owner@;
    let mut identifier = owner;
    identifier.append("/");
    identifier.append(repo.as_str());
    proof {
        assert(identifier@ =~= owner_view + "/"@ + repo@);
    }
    let repo_url = str_concat("https://github.com/", identifier.as_str());
    proof {
        assert(repo_url@ =~= "https://github.com/"@ + owner_view + "/"@ + repo@);
    }
    let dest = join_path(clone_root.as_str(), repo.as_str());
    let check = dest.clone();
    NewGithubStep::Continue(
        NewGithubState::DestChecked { req, clone_root, identifier, repo_url, dest },
        NewGithubAction::CheckPathExists(check),
    )
}

/// Hand the cache clone over to local provisioning.
fn github_handoff_step(req: GithubRequest, cache: String) -> (r: GithubStep)
    ensures
        github_handoff(req, cache, r),
{
    let workspaces_root = join_path(req.app_data_dir.as_str(), "workspaces");
    GithubStep::Provision(
        ProvisionRequest {
            repo_path: cache,
            workspace_name: req.workspace_name,
            branch_name: req.branch_name,
            base_ref: req.base_ref,
            suffix: req.suffix,
            workspaces_root,
        },
    )
}

} // verus!
