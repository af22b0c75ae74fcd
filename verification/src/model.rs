//! Data model of the workspace engine: the persisted `Workspace` record,
//! the transient provisioning result, the create-request inputs, and the
//! pure naming functions (slug and branch derivation).

use vstd::prelude::*;

verus! {

use crate::strings::{chars_vec, chars_to_string, str_concat};
use vstd::string::StringExecFns;

/// Lifecycle status of a workspace record.
#[derive(Clone, Copy, Debug, PartialEq, Eq, Structural)]
pub enum WorkspaceStatus {
    Ready,
    Creating,
    Error,
    Archived,
}

/// Where the origin repository of a workspace came from.
#[derive(Clone, Copy, Debug, PartialEq, Eq, Structural)]
pub enum WorkspaceSourceType {
    Local,
    Github,
}

/// A persisted workspace record.
#[derive(Debug)]
pub struct Workspace {
    pub id: String,
    pub name: String,
    pub source_type: WorkspaceSourceType,
    pub source: String,
    pub repo_root_path: String,
    pub worktree_path: String,
    pub branch: String,
    pub base_ref: Option<String>,
    pub status: WorkspaceStatus,
    pub created_at: String,
    pub updated_at: String,
    pub last_opened_at: Option<String>,
}

impl Clone for Workspace {
    fn clone(&self) -> (r: Self)
        ensures
            r == *self,
    {
        Workspace {
            id: self.id.clone(),
            name: self.name.clone(),
            source_type: self.source_type,
            source: self.source.clone(),
            repo_root_path: self.repo_root_path.clone(),
            worktree_path: self.worktree_path.clone(),
            branch: self.branch.clone(),
            base_ref: match &self.base_ref {
                Some(b) => Some(b.clone()),
                None => None,
            },
            status: self.status,
            created_at: self.created_at.clone(),
            updated_at: self.updated_at.clone(),
            last_opened_at: match &self.last_opened_at {
                Some(t) => Some(t.clone()),
                None => None,
            },
        }
    }
}

/// Caller-supplied input for creating a workspace from a local repository.
#[derive(Debug)]
pub struct CreateLocalWorkspaceInput {
    pub repo_path: String,
    pub workspace_name: String,
    pub branch_name: Option<String>,
    pub base_ref: Option<String>,
}

/// Caller-supplied input for creating a workspace from an existing GitHub
/// repository URL.
#[derive(Debug)]
pub struct CreateGitHubWorkspaceInput {
    pub repo_url: String,
    pub workspace_name: String,
    pub clone_root_path: Option<String>,
    pub branch_name: Option<String>,
    pub base_ref: Option<String>,
}

/// Caller-supplied input for creating a workspace from a GitHub repository
/// that does not exist yet.
#[derive(Debug)]
pub struct CreateNewGitHubWorkspaceInput {
    pub repository_name: String,
    pub workspace_name: String,
    pub clone_root_path: Option<String>,
    pub branch_name: Option<String>,
    pub base_ref: Option<String>,
}

/// The output of provisioning: the canonical origin and worktree paths,
/// the new branch, and the ref it was cut from. Not persisted as such;
/// merged into a `Workspace` by the lifecycle layer.
#[derive(Debug)]
pub struct PreparedWorkspace {
    pub repo_root_path: String,
    pub worktree_path: String,
    pub branch: String,
    pub base_ref: String,
}

impl Clone for PreparedWorkspace {
    fn clone(&self) -> (r: Self)
        ensures
            r == *self,
    {
        PreparedWorkspace {
            repo_root_path: self.repo_root_path.clone(),
            worktree_path: self.worktree_path.clone(),
            branch: self.branch.clone(),
            base_ref: self.base_ref.clone(),
        }
    }
}

/// Relies on `chrono::Utc::now` / `DateTime::to_rfc3339_opts`: the current
/// UTC time formatted as millisecond-precision RFC 3339 text. The result
/// depends on the clock, so nothing is promised of its value.
#[verifier::external_body]
pub fn now_iso8601() -> String {
    chrono::Utc::now().to_rfc3339_opts(chrono::SecondsFormat::Millis, true)
}

/// The ASCII-lowercased form of a character; anything outside `A`..`Z`
/// passes through unchanged.
pub open spec fn lower_char(c: char) -> char {
    match c {
        'A' => 'a',
        'B' => 'b',
        'C' => 'c',
        'D' => 'd',
        'E' => 'e',
        'F' => 'f',
        'G' => 'g',
        'H' => 'h',
        'I' => 'i',
        'J' => 'j',
        'K' => 'k',
        'L' => 'l',
        'M' => 'm',
        'N' => 'n',
        'O' => 'o',
        'P' => 'p',
        'Q' => 'q',
        'R' => 'r',
        'S' => 's',
        'T' => 't',
        'U' => 'u',
        'V' => 'v',
        'W' => 'w',
        'X' => 'x',
        'Y' => 'y',
        'Z' => 'z',
        _ => c,
    }
}

/// ASCII-lowercase a single character.
pub fn to_lower_char(c: char) -> (r: char)
    ensures
        r == lower_char(c),
{
    match c {
        'A' => 'a',
        'B' => 'b',
        'C' => 'c',
        'D' => 'd',
        'E' => 'e',
        'F' => 'f',
        'G' => 'g',
        'H' => 'h',
        'I' => 'i',
        'J' => 'j',
        'K' => 'k',
        'L' => 'l',
        'M' => 'm',
        'N' => 'n',
        'O' => 'o',
        'P' => 'p',
        'Q' => 'q',
        'R' => 'r',
        'S' => 's',
        'T' => 't',
        'U' => 'u',
        'V' => 'v',
        'W' => 'w',
        'X' => 'x',
        'Y' => 'y',
        'Z' => 'z',
        _ => c,
    }
}

/// Lower-case ASCII letters and digits: the characters a slug keeps.
pub open spec fn is_slug_alnum(c: char) -> bool {
    ('a' <= c && c <= 'z') || ('0' <= c && c <= '9')
}

/// One step of slug accumulation: keep a lower-cased alphanumeric, else
/// contribute a single `-` unless the accumulator already ends in one.
pub open spec fn slug_step(acc: Seq<char>, c: char) -> Seq<char> {
    let lc = lower_char(c);
    if is_slug_alnum(lc) {
        acc.push(lc)
    } else if acc.len() > 0 && acc.last() == '-' {
        acc
    } else {
        acc.push('-')
    }
}

/// The un-trimmed slug of `s`: every character folded through `slug_step`.
pub open spec fn slug_raw(s: Seq<char>) -> Seq<char>
    decreases s.len(),
{
    if s.len() == 0 {
        Seq::empty()
    } else {
        slug_step(slug_raw(s.drop_last()), s.last())
    }
}

/// `s` without its leading `-` characters.
pub open spec fn drop_leading_dashes(s: Seq<char>) -> Seq<char>
    decreases s.len(),
{
    if s.len() > 0 && s[0] == '-' {
        drop_leading_dashes(s.drop_first())
    } else {
        s
    }
}

/// `s` without its trailing `-` characters.
pub open spec fn drop_trailing_dashes(s: Seq<char>) -> Seq<char>
    decreases s.len(),
{
    if s.len() > 0 && s.last() == '-' {
        drop_trailing_dashes(s.drop_last())
    } else {
        s
    }
}

/// `s` with `-` trimmed from both ends.
pub open spec fn trim_dashes(s: Seq<char>) -> Seq<char> {
    drop_trailing_dashes(drop_leading_dashes(s))
}

/// The slug of `s`: lower-cased, non-alphanumeric runs collapsed to a
/// single `-`, edges trimmed, and the literal `workspace` if nothing is
/// left.
pub open spec fn spec_slugify(s: Seq<char>) -> Seq<char> {
    let t = trim_dashes(slug_raw(s));
    if t.len() == 0 {
        "workspace"@
    } else {
        t
    }
}

/// No two adjacent `-` characters anywhere in `s`.
pub open spec fn no_adjacent_dashes(s: Seq<char>) -> bool {
    forall|i: int| 0 <= i < s.len() - 1 ==> !(#[trigger] s[i] == '-' && s[i + 1] == '-')
}

/// Every character of `s` is a lower-case ASCII alphanumeric or `-`.
pub open spec fn all_slug_chars(s: Seq<char>) -> bool {
    forall|i: int| 0 <= i < s.len() ==> is_slug_alnum(#[trigger] s[i]) || s[i] == '-'
}

/// The shape every slug has (unless it is the `workspace` fallback, which
/// also has it): nonempty, made of lower-case alphanumerics and single
/// `-` separators, with no `-` at either edge.
pub open spec fn is_canonical_slug(s: Seq<char>) -> bool {
    &&& s.len() > 0
    &&& s[0] != '-'
    &&& s.last() != '-'
    &&& no_adjacent_dashes(s)
    &&& all_slug_chars(s)
}

proof fn lemma_slug_raw_shape(s: Seq<char>)
    ensures
        all_slug_chars(slug_raw(s)),
        no_adjacent_dashes(slug_raw(s)),
    decreases s.len(),
{
    if s.len() > 0 {
        lemma_slug_raw_shape(s.drop_last());
        let acc = slug_raw(s.drop_last());
        let r = slug_step(acc, s.last());
        let lc = lower_char(s.last());
        if is_slug_alnum(lc) {
            assert forall|i: int| 0 <= i < r.len() - 1 implies !(#[trigger] r[i] == '-' && r[i + 1]
                == '-') by {
                if i + 1 < acc.len() {
                    assert(!(acc[i] == '-' && acc[i + 1] == '-'));
                }
            }
        } else if acc.len() > 0 && acc.last() == '-' {
        } else {
            assert forall|i: int| 0 <= i < r.len() - 1 implies !(#[trigger] r[i] == '-' && r[i + 1]
                == '-') by {
                if i + 1 < acc.len() {
                    assert(!(acc[i] == '-' && acc[i + 1] == '-'));
                } else {
                    assert(i + 1 == acc.len());
                    if acc.len() > 0 {
                        assert(r[i] == acc.last());
                    }
                }
            }
        }
    }
}

/// Slugify a human-readable name into a filesystem/branch-safe token:
/// lower-case ASCII letters and digits pass through, every other run of
/// characters collapses to a single `-`, edges are trimmed, and an input
/// with nothing to keep yields the literal `workspace`.
pub fn slugify_name(value: &str) -> (r: String)
    ensures
        r@ == spec_slugify(value@),
{
    let cs = chars_vec(value);
    let mut slug: Vec<char> = Vec::new();
    let mut i: usize = 0;
    while i < cs.len()
        invariant
            i <= cs@.len(),
            slug@ == slug_raw(cs@.take(i as int)),
        decreases cs@.len() - i,
    {
        let c = to_lower_char(cs[i]);
        let keep = ('a' <= c && c <= 'z') || ('0' <= c && c <= '9');
        if keep {
            slug.push(c);
        } else {
            let prev_dash = slug.len() > 0 && slug[slug.len() - 1] == '-';
            if !prev_dash {
                slug.push('-');
            }
        }
        i = i + 1;
        proof {
            let t = cs@.take(i as int);
            assert(t.drop_last() =~= cs@.take(i - 1));
            assert(t.last() == cs@[i - 1]);
            assert(slug@ == slug_step(slug_raw(cs@.take(i - 1)), cs@[i - 1]));
        }
    }
    proof {
        assert(cs@.take(cs@.len() as int) =~= cs@);
        lemma_slug_raw_shape(cs@);
    }
    let start: usize = if slug.len() > 0 && slug[0] == '-' {
        1
    } else {
        0
    };
    let end: usize = if slug.len() > start && slug[slug.len() - 1] == '-' {
        slug.len() - 1
    } else {
        slug.len()
    };
    proof {
        lemma_trim_is_subrange(slug@, start as int, end as int);
    }
    let mut out: Vec<char> = Vec::new();
    let mut j: usize = start;
    while j < end
        invariant
            start <= j <= end,
            end <= slug@.len(),
            out@ == slug@.subrange(start as int, j as int),
        decreases end - j,
    {
        out.push(slug[j]);
        j = j + 1;
        proof {
            assert(out@ =~= slug@.subrange(start as int, j as int));
        }
    }
    if out.len() == 0 {
        String::from_str("workspace")
    } else {
        chars_to_string(&out)
    }
}

/// Where `s` has no adjacent dashes, trimming removes at most one `-` at
/// each end, so the trimmed text is the matching subrange of `s`.
proof fn lemma_trim_is_subrange(s: Seq<char>, start: int, end: int)
    requires
        no_adjacent_dashes(s),
        start == if s.len() > 0 && s[0] == '-' {
            1int
        } else {
            0int
        },
        end == if s.len() > start && s.last() == '-' {
            s.len() - 1
        } else {
            s.len() as int
        },
    ensures
        trim_dashes(s) == s.subrange(start, end),
{
    let d = drop_leading_dashes(s);
    if s.len() > 0 && s[0] == '-' {
        assert(d == drop_leading_dashes(s.drop_first()));
        let t = s.drop_first();
        if t.len() > 0 {
            assert(s[1] != '-');
            assert(t[0] == s[1]);
            assert(drop_leading_dashes(t) == t);
        }
        assert(d =~= s.subrange(1, s.len() as int));
    } else {
        assert(d == s);
        assert(d =~= s.subrange(0, s.len() as int));
    }
    assert(d =~= s.subrange(start, s.len() as int));
    let e = drop_trailing_dashes(d);
    if d.len() > 0 && d.last() == '-' {
        assert(d.last() == s.last());
        assert(s.len() > start);
        let u = d.drop_last();
        if u.len() > 0 {
            assert(d[d.len() - 2] == s[s.len() - 2]);
            assert(!(s[s.len() - 2] == '-' && s[s.len() - 1] == '-'));
            assert(u.last() == d[d.len() - 2]);
            assert(drop_trailing_dashes(u) == u);
        }
        assert(e =~= s.subrange(start, s.len() - 1));
        assert(end == s.len() - 1);
    } else {
        assert(e == d);
        if s.len() > start {
            assert(d.len() > 0);
            assert(d.last() == s.last());
            assert(end == s.len() as int);
        } else {
            assert(d.len() == 0);
            assert(end == s.len() as int);
        }
    }
    assert(trim_dashes(s) =~= s.subrange(start, end));
}

/// The branch name derived for a workspace: `workspace/<slug>-<suffix>`.
pub open spec fn spec_branch_name(name: Seq<char>, suffix: Seq<char>) -> Seq<char> {
    "workspace/"@ + spec_slugify(name) + "-"@ + suffix
}

/// Derive the branch name for a workspace from its display name and its
/// id-derived suffix: `workspace/<slug(name)>-<suffix>`. A pure function
/// of its two arguments.
pub fn derive_workspace_branch_name(name: &str, suffix: &str) -> (r: String)
    ensures
        r@ == spec_branch_name(name@, suffix@),
{
    let slug = slugify_name(name);
    let mut s: String = String::from_str("workspace/");
    s.append(slug.as_str());
    s.append("-");
    s.append(suffix);
    s
}

/// Every slug is canonical: nonempty, lower-case alphanumerics separated
/// by single dashes, no dash at either edge.
pub proof fn lemma_slugify_canonical(s: Seq<char>)
    ensures
        is_canonical_slug(spec_slugify(s)),
{
    lemma_slug_raw_shape(s);
    let raw = slug_raw(s);
    let start: int = if raw.len() > 0 && raw[0] == '-' {
        1int
    } else {
        0int
    };
    let end: int = if raw.len() > start && raw.last() == '-' {
        raw.len() - 1
    } else {
        raw.len() as int
    };
    lemma_trim_is_subrange(raw, start, end);
    let t = trim_dashes(raw);
    if t.len() == 0 {
        lemma_workspace_literal_canonical();
    } else {
        assert(t[0] == raw[start]);
        assert(t[0] != '-') by {
            if start == 0 {
                assert(raw.len() > 0);
                assert(!(raw.len() > 0 && raw[0] == '-'));
            } else {
                assert(!(raw[0] == '-' && raw[1] == '-'));
            }
        }
        assert(t.last() == raw[end - 1]);
        assert(t.last() != '-') by {
            if end == raw.len() {
                assert(raw.last() != '-');
            } else {
                assert(end == raw.len() - 1);
                assert(!(raw[end - 1] == '-' && raw[end] == '-'));
            }
        }
    }
}

/// The fallback literal is itself a canonical slug.
proof fn lemma_workspace_literal_canonical()
    ensures
        is_canonical_slug("workspace"@),
{
    reveal_strlit("workspace");
    assert("workspace"@ =~= seq!['w', 'o', 'r', 'k', 's', 'p', 'a', 'c', 'e']);
    let t = "workspace"@;
    assert forall|i: int| 0 <= i < t.len() implies is_slug_alnum(#[trigger] t[i]) || t[i]
        == '-' by {
        assert(is_slug_alnum(seq!['w', 'o', 'r', 'k', 's', 'p', 'a', 'c', 'e'][i]));
    }
}

/// A canonical slug is a fixed point of slugification.
pub proof fn lemma_slugify_fixed(s: Seq<char>)
    requires
        is_canonical_slug(s),
    ensures
        spec_slugify(s) == s,
{
    lemma_slug_raw_fixed_prefix(s, s.len() as int);
    assert(s.take(s.len() as int) =~= s);
    assert(slug_raw(s) == s);
    assert(drop_leading_dashes(s) == s);
    assert(drop_trailing_dashes(s) == s);
}

/// On a canonical slug, accumulation reproduces every prefix verbatim.
proof fn lemma_slug_raw_fixed_prefix(s: Seq<char>, k: int)
    requires
        is_canonical_slug(s),
        0 <= k <= s.len(),
    ensures
        slug_raw(s.take(k)) == s.take(k),
    decreases k,
{
    if k > 0 {
        lemma_slug_raw_fixed_prefix(s, k - 1);
        let t = s.take(k);
        assert(t.drop_last() =~= s.take(k - 1));
        assert(t.last() == s[k - 1]);
        let c = s[k - 1];
        let acc = s.take(k - 1);
        assert(is_slug_alnum(c) || c == '-');
        if is_slug_alnum(c) {
            assert(lower_char(c) == c);
            assert(slug_step(acc, c) =~= s.take(k));
        } else {
            assert(c == '-');
            assert(!is_slug_alnum(lower_char(c)));
            assert(k - 1 >= 1) by {
                assert(s[0] != '-');
            }
            assert(acc.last() == s[k - 2]);
            assert(!(s[k - 2] == '-' && s[k - 1] == '-'));
            assert(acc.last() != '-');
            assert(acc.len() > 0);
            assert(slug_step(acc, c) =~= s.take(k));
        }
    } else {
        assert(s.take(0) =~= Seq::<char>::empty());
    }
}

/// Slugification is idempotent: slugifying a slug returns it unchanged.
pub proof fn lemma_slugify_idempotent(s: Seq<char>)
    ensures
        spec_slugify(spec_slugify(s)) == spec_slugify(s),
{
    lemma_slugify_canonical(s);
    lemma_slugify_fixed(spec_slugify(s));
}

} // verus!
