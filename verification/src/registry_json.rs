//! The persisted registry file format: a JSON object holding the
//! workspace records and the active workspace id, with camelCase keys.
//! The writer emits one canonical, compact rendering; the reader parses
//! exactly that rendering back. Both are verified against the same
//! character-level specification, and parsing provably inverts printing.

use vstd::prelude::*;

verus! {

use crate::model::{Workspace, WorkspaceSourceType, WorkspaceStatus};
use crate::strings::{chars_to_string, chars_vec};

/// The text of one workspace record: every field as character
/// sequences, as the file stores it.
pub ghost struct WorkspaceView {
    pub id: Seq<char>,
    pub name: Seq<char>,
    pub source_type: WorkspaceSourceType,
    pub source: Seq<char>,
    pub repo_root_path: Seq<char>,
    pub worktree_path: Seq<char>,
    pub branch: Seq<char>,
    pub base_ref: Option<Seq<char>>,
    pub status: WorkspaceStatus,
    pub created_at: Seq<char>,
    pub updated_at: Seq<char>,
    pub last_opened_at: Option<Seq<char>>,
}

/// The view of a record: its fields as text.
pub open spec fn view_of(w: Workspace) -> WorkspaceView {
    WorkspaceView {
        id: w.id@,
        name: w.name@,
        source_type: w.source_type,
        source: w.source@,
        repo_root_path: w.repo_root_path@,
        worktree_path: w.worktree_path@,
        branch: w.branch@,
        base_ref: match w.base_ref {
            Some(b) => Some(b@),
            None => None,
        },
        status: w.status,
        created_at: w.created_at@,
        updated_at: w.updated_at@,
        last_opened_at: match w.last_opened_at {
            Some(t) => Some(t@),
            None => None,
        },
    }
}

/// The views of a whole record sequence.
pub open spec fn views_of(ws: Seq<Workspace>) -> Seq<WorkspaceView> {
    Seq::new(ws.len(), |i: int| view_of(ws[i]))
}

/// How one character is written inside a JSON string: `"` and `\` get a
/// backslash, everything else stands for itself.
pub open spec fn esc_char(c: char) -> Seq<char> {
    if c == '"' {
        seq!['\\', '"']
    } else if c == '\\' {
        seq!['\\', '\\']
    } else {
        seq![c]
    }
}

/// The escaped body of a JSON string.
pub open spec fn escape_str(s: Seq<char>) -> Seq<char>
    decreases s.len(),
{
    if s.len() == 0 {
        Seq::empty()
    } else {
        esc_char(s[0]) + escape_str(s.drop_first())
    }
}

/// A JSON string: quote, escaped body, quote.
pub open spec fn jstr(s: Seq<char>) -> Seq<char> {
    seq!['"'] + escape_str(s) + seq!['"']
}

/// An optional JSON string: `null` when absent.
pub open spec fn jopt(o: Option<Seq<char>>) -> Seq<char> {
    match o {
        None => "null"@,
        Some(s) => jstr(s),
    }
}

/// The stored name of a status.
pub open spec fn status_name(st: WorkspaceStatus) -> Seq<char> {
    match st {
        WorkspaceStatus::Ready => "ready"@,
        WorkspaceStatus::Creating => "creating"@,
        WorkspaceStatus::Error => "error"@,
        WorkspaceStatus::Archived => "archived"@,
    }
}

/// The stored name of a source type.
pub open spec fn source_name(t: WorkspaceSourceType) -> Seq<char> {
    match t {
        WorkspaceSourceType::Local => "local"@,
        WorkspaceSourceType::Github => "github"@,
    }
}

/// The first third of a record's text: id, name, source type, source.
#[verifier::opaque]
pub open spec fn jws_head(w: WorkspaceView) -> Seq<char> {
    "{\"id\":"@ + jstr(w.id) + ",\"name\":"@ + jstr(w.name) + ",\"sourceType\":"@ + jstr(
        source_name(w.source_type),
    ) + ",\"source\":"@ + jstr(w.source)
}

/// The middle third: the two paths, the branch, the base ref.
#[verifier::opaque]
pub open spec fn jws_mid(w: WorkspaceView) -> Seq<char> {
    ",\"repoRootPath\":"@ + jstr(w.repo_root_path) + ",\"worktreePath\":"@ + jstr(w.worktree_path)
        + ",\"branch\":"@ + jstr(w.branch) + ",\"baseRef\":"@ + jopt(w.base_ref)
}

/// The last third: status and the three timestamps.
#[verifier::opaque]
pub open spec fn jws_tail(w: WorkspaceView) -> Seq<char> {
    ",\"status\":"@ + jstr(status_name(w.status)) + ",\"createdAt\":"@ + jstr(w.created_at)
        + ",\"updatedAt\":"@ + jstr(w.updated_at) + ",\"lastOpenedAt\":"@ + jopt(w.last_opened_at)
        + "}"@
}

/// One workspace record as the file stores it.
pub open spec fn jws(w: WorkspaceView) -> Seq<char> {
    jws_head(w) + jws_mid(w) + jws_tail(w)
}

/// The record array's contents: records joined by commas.
pub open spec fn jitems(ws: Seq<WorkspaceView>) -> Seq<char>
    decreases ws.len(),
{
    if ws.len() == 0 {
        Seq::empty()
    } else if ws.len() == 1 {
        jws(ws[0])
    } else {
        jws(ws[0]) + ","@ + jitems(ws.drop_first())
    }
}

/// The whole registry file.
pub open spec fn jregistry(ws: Seq<WorkspaceView>, active: Option<Seq<char>>) -> Seq<char> {
    "{\"workspaces\":["@ + jitems(ws) + "],\"activeWorkspaceId\":"@ + jopt(active) + "}"@
}

/// Appending one character extends the escaped text by its escape.
proof fn lemma_escape_push(a: Seq<char>, c: char)
    ensures
        escape_str(a.push(c)) == escape_str(a) + esc_char(c),
    decreases a.len(),
{
    if a.len() == 0 {
        assert(a.push(c)[0] == c);
        assert(a.push(c).drop_first() =~= Seq::<char>::empty());
        assert(escape_str(Seq::<char>::empty()) == Seq::<char>::empty());
        assert(escape_str(a.push(c)) == esc_char(c) + escape_str(Seq::<char>::empty()));
        assert(escape_str(a.push(c)) =~= escape_str(a) + esc_char(c));
    } else {
        lemma_escape_push(a.drop_first(), c);
        assert(a.push(c)[0] == a[0]);
        assert(a.push(c).drop_first() =~= a.drop_first().push(c));
        assert(escape_str(a.push(c)) =~= escape_str(a) + esc_char(c));
    }
}

/// Appending one record extends the array text by a comma and the
/// record (or just the record when the array was empty).
#[verifier::rlimit(60)]
proof fn lemma_jitems_push(a: Seq<WorkspaceView>, x: WorkspaceView)
    ensures
        a.len() == 0 ==> jitems(a.push(x)) == jws(x),
        a.len() > 0 ==> jitems(a.push(x)) == jitems(a) + ","@ + jws(x),
    decreases a.len(),
{
    if a.len() == 0 {
        assert(a.push(x)[0] == x);
        assert(jitems(a.push(x)) == jws(x));
    } else if a.len() == 1 {
        assert(a.push(x)[0] == a[0]);
        assert(a.push(x).drop_first() =~= seq![x]);
        assert(seq![x][0] == x);
        assert(jitems(seq![x]) == jws(x));
        assert(jitems(a.push(x)) =~= jitems(a) + ","@ + jws(x));
    } else {
        lemma_jitems_push(a.drop_first(), x);
        assert(a.push(x)[0] == a[0]);
        assert(a.push(x).drop_first() =~= a.drop_first().push(x));
        assert(jitems(a.push(x)) =~= jitems(a) + ","@ + jws(x));
    }
}

/// Consume an exact literal prefix.
pub open spec fn p_lit(s: Seq<char>, lit: Seq<char>) -> Option<Seq<char>> {
    if s.len() >= lit.len() && s.take(lit.len() as int) == lit {
        Some(s.skip(lit.len() as int))
    } else {
        None
    }
}

/// Consume a string body up to its closing quote, undoing the escapes.
pub open spec fn p_strbody(s: Seq<char>) -> Option<(Seq<char>, Seq<char>)>
    decreases s.len(),
{
    if s.len() == 0 {
        None
    } else if s[0] == '"' {
        Some((Seq::empty(), s.skip(1)))
    } else if s[0] == '\\' {
        if s.len() >= 2 && (s[1] == '"' || s[1] == '\\') {
            match p_strbody(s.skip(2)) {
                Some(p) => Some((seq![s[1]] + p.0, p.1)),
                None => None,
            }
        } else {
            None
        }
    } else {
        match p_strbody(s.skip(1)) {
            Some(p) => Some((seq![s[0]] + p.0, p.1)),
            None => None,
        }
    }
}

/// Consume a JSON string.
pub open spec fn p_string(s: Seq<char>) -> Option<(Seq<char>, Seq<char>)> {
    if s.len() > 0 && s[0] == '"' {
        p_strbody(s.skip(1))
    } else {
        None
    }
}

/// Consume `null` or a JSON string.
pub open spec fn p_optstr(s: Seq<char>) -> Option<(Option<Seq<char>>, Seq<char>)> {
    if s.len() >= 4 && s.take(4) == "null"@ {
        Some((None, s.skip(4)))
    } else {
        match p_string(s) {
            Some(p) => Some((Some(p.0), p.1)),
            None => None,
        }
    }
}

/// Consume a source-type name.
pub open spec fn p_source(s: Seq<char>) -> Option<(WorkspaceSourceType, Seq<char>)> {
    match p_string(s) {
        Some(p) => if p.0 == "local"@ {
            Some((WorkspaceSourceType::Local, p.1))
        } else if p.0 == "github"@ {
            Some((WorkspaceSourceType::Github, p.1))
        } else {
            None
        },
        None => None,
    }
}

/// Consume a status name.
pub open spec fn p_status(s: Seq<char>) -> Option<(WorkspaceStatus, Seq<char>)> {
    match p_string(s) {
        Some(p) => if p.0 == "ready"@ {
            Some((WorkspaceStatus::Ready, p.1))
        } else if p.0 == "creating"@ {
            Some((WorkspaceStatus::Creating, p.1))
        } else if p.0 == "error"@ {
            Some((WorkspaceStatus::Error, p.1))
        } else if p.0 == "archived"@ {
            Some((WorkspaceStatus::Archived, p.1))
        } else {
            None
        },
        None => None,
    }
}

/// Consume one workspace record.
pub open spec fn p_workspace(s: Seq<char>) -> Option<(WorkspaceView, Seq<char>)> {
    match p_lit(s, "{\"id\":"@) {
        None => None,
        Some(s1) => match p_string(s1) {
            None => None,
            Some((id, s2)) => match p_lit(s2, ",\"name\":"@) {
                None => None,
                Some(s3) => match p_string(s3) {
                    None => None,
                    Some((name, s4)) => match p_lit(s4, ",\"sourceType\":"@) {
                        None => None,
                        Some(s5) => match p_source(s5) {
                            None => None,
                            Some((source_type, s6)) => match p_lit(s6, ",\"source\":"@) {
                                None => None,
                                Some(s7) => match p_string(s7) {
                                    None => None,
                                    Some((source, s8)) => p_workspace_paths(
                                        s8,
                                        id,
                                        name,
                                        source_type,
                                        source,
                                    ),
                                },
                            },
                        },
                    },
                },
            },
        },
    }
}

/// Consume the paths, branch and base ref of a record, then its tail.
pub open spec fn p_workspace_paths(
    s: Seq<char>,
    id: Seq<char>,
    name: Seq<char>,
    source_type: WorkspaceSourceType,
    source: Seq<char>,
) -> Option<(WorkspaceView, Seq<char>)> {
    match p_lit(s, ",\"repoRootPath\":"@) {
        None => None,
        Some(s1) => match p_string(s1) {
            None => None,
            Some((repo_root_path, s2)) => match p_lit(s2, ",\"worktreePath\":"@) {
                None => None,
                Some(s3) => match p_string(s3) {
                    None => None,
                    Some((worktree_path, s4)) => match p_lit(s4, ",\"branch\":"@) {
                        None => None,
                        Some(s5) => match p_string(s5) {
                            None => None,
                            Some((branch, s6)) => match p_lit(s6, ",\"baseRef\":"@) {
                                None => None,
                                Some(s7) => match p_optstr(s7) {
                                    None => None,
                                    Some((base_ref, s8)) => p_workspace_tail(
                                        s8,
                                        id,
                                        name,
                                        source_type,
                                        source,
                                        repo_root_path,
                                        worktree_path,
                                        branch,
                                        base_ref,
                                    ),
                                },
                            },
                        },
                    },
                },
            },
        },
    }
}

/// Consume the status and timestamps of a record and its closing brace.
pub open spec fn p_workspace_tail(
    s: Seq<char>,
    id: Seq<char>,
    name: Seq<char>,
    source_type: WorkspaceSourceType,
    source: Seq<char>,
    repo_root_path: Seq<char>,
    worktree_path: Seq<char>,
    branch: Seq<char>,
    base_ref: Option<Seq<char>>,
) -> Option<(WorkspaceView, Seq<char>)> {
    match p_lit(s, ",\"status\":"@) {
        None => None,
        Some(s1) => match p_status(s1) {
            None => None,
            Some((status, s2)) => match p_lit(s2, ",\"createdAt\":"@) {
                None => None,
                Some(s3) => match p_string(s3) {
                    None => None,
                    Some((created_at, s4)) => match p_lit(s4, ",\"updatedAt\":"@) {
                        None => None,
                        Some(s5) => match p_string(s5) {
                            None => None,
                            Some((updated_at, s6)) => match p_lit(s6, ",\"lastOpenedAt\":"@) {
                                None => None,
                                Some(s7) => match p_optstr(s7) {
                                    None => None,
                                    Some((last_opened_at, s8)) => match p_lit(s8, "}"@) {
                                        None => None,
                                        Some(s9) => Some(
                                            (
                                                WorkspaceView {
                                                    id,
                                                    name,
                                                    source_type,
                                                    source,
                                                    repo_root_path,
                                                    worktree_path,
                                                    branch,
                                                    base_ref,
                                                    status,
                                                    created_at,
                                                    updated_at,
                                                    last_opened_at,
                                                },
                                                s9,
                                            ),
                                        ),
                                    },
                                },
                            },
                        },
                    },
                },
            },
        },
    }
}

/// Consume the record array's contents and its closing bracket. The
/// fuel bounds the number of records; any value at least their count
/// gives the same result.
pub open spec fn p_items(s: Seq<char>, fuel: nat) -> Option<(Seq<WorkspaceView>, Seq<char>)>
    decreases fuel,
{
    if s.len() > 0 && s[0] == ']' {
        Some((Seq::empty(), s.skip(1)))
    } else {
        match p_workspace(s) {
            None => None,
            Some((w, r)) => if r.len() > 0 && r[0] == ',' {
                if fuel == 0 {
                    None
                } else {
                    match p_items(r.skip(1), (fuel - 1) as nat) {
                        None => None,
                        Some((more, rem)) => if more.len() == 0 {
                            None
                        } else {
                            Some((seq![w] + more, rem))
                        },
                    }
                }
            } else if r.len() > 0 && r[0] == ']' {
                Some((seq![w], r.skip(1)))
            } else {
                None
            },
        }
    }
}

/// Consume a whole registry file; nothing may follow it.
pub open spec fn p_registry(s: Seq<char>) -> Option<(Seq<WorkspaceView>, Option<Seq<char>>)> {
    match p_lit(s, "{\"workspaces\":["@) {
        None => None,
        Some(s1) => match p_items(s1, s1.len()) {
            None => None,
            Some((ws, s2)) => match p_lit(s2, ",\"activeWorkspaceId\":"@) {
                None => None,
                Some(s3) => match p_optstr(s3) {
                    None => None,
                    Some((act, s4)) => match p_lit(s4, "}"@) {
                        None => None,
                        Some(s5) => if s5.len() == 0 {
                            Some((ws, act))
                        } else {
                            None
                        },
                    },
                },
            },
        },
    }
}

/// A literal prefix parses off exactly.
proof fn lemma_plit_rt(lit: Seq<char>, rest: Seq<char>)
    ensures
        p_lit(lit + rest, lit) == Some(rest),
{
    assert((lit + rest).take(lit.len() as int) =~= lit);
    assert((lit + rest).skip(lit.len() as int) =~= rest);
}

/// Parsing a string body inverts escaping.
proof fn lemma_pstrbody_rt(x: Seq<char>, rest: Seq<char>)
    ensures
        p_strbody(escape_str(x) + seq!['"'] + rest) == Some((x, rest)),
    decreases x.len(),
{
    let s = escape_str(x) + seq!['"'] + rest;
    if x.len() == 0 {
        assert(escape_str(x) == Seq::<char>::empty());
        assert(s =~= seq!['"'] + rest);
        assert(s[0] == '"');
        assert(s.skip(1) =~= rest);
        assert(p_strbody(s) == Some((Seq::<char>::empty(), rest)));
    } else {
        let c = x[0];
        assert(escape_str(x) == esc_char(c) + escape_str(x.drop_first()));
        lemma_pstrbody_rt(x.drop_first(), rest);
        let s2 = escape_str(x.drop_first()) + seq!['"'] + rest;
        if c == '"' {
            assert(s =~= seq!['\\', '"'] + s2);
            assert(s[0] == '\\' && s[1] == '"');
            assert(s.skip(2) =~= s2);
            assert(seq![s[1]] + x.drop_first() =~= x);
        } else if c == '\\' {
            assert(s =~= seq!['\\', '\\'] + s2);
            assert(s[0] == '\\' && s[1] == '\\');
            assert(s.skip(2) =~= s2);
            assert(seq![s[1]] + x.drop_first() =~= x);
        } else {
            assert(s =~= seq![c] + s2);
            assert(s[0] == c);
            assert(s.skip(1) =~= s2);
            assert(seq![s[0]] + x.drop_first() =~= x);
        }
    }
}

/// Parsing a JSON string inverts printing one.
proof fn lemma_pstring_rt(x: Seq<char>, rest: Seq<char>)
    ensures
        p_string(jstr(x) + rest) == Some((x, rest)),
{
    let s = jstr(x) + rest;
    assert(s =~= seq!['"'] + (escape_str(x) + seq!['"'] + rest));
    assert(s[0] == '"');
    assert(s.skip(1) =~= escape_str(x) + seq!['"'] + rest);
    lemma_pstrbody_rt(x, rest);
}

/// Parsing an optional string inverts printing one.
proof fn lemma_poptstr_rt(o: Option<Seq<char>>, rest: Seq<char>)
    ensures
        p_optstr(jopt(o) + rest) == Some((o, rest)),
{
    reveal_strlit("null");
    match o {
        None => {
            let s = "null"@ + rest;
            assert(s.take(4) =~= "null"@);
            assert(s.skip(4) =~= rest);
        },
        Some(x) => {
            let s = jstr(x) + rest;
            assert(s[0] == '"');
            if s.len() >= 4 && s.take(4) == "null"@ {
                assert(s.take(4)[0] == s[0]);
                assert("null"@[0] == 'n');
                assert(false);
            }
            lemma_pstring_rt(x, rest);
        },
    }
}

/// Parsing a source type inverts printing one.
proof fn lemma_psource_rt(t: WorkspaceSourceType, rest: Seq<char>)
    ensures
        p_source(jstr(source_name(t)) + rest) == Some((t, rest)),
{
    lemma_pstring_rt(source_name(t), rest);
    reveal_strlit("local");
    reveal_strlit("github");
    assert("local"@.len() == 5 && "github"@.len() == 6);
}

/// Parsing a status inverts printing one.
proof fn lemma_pstatus_rt(st: WorkspaceStatus, rest: Seq<char>)
    ensures
        p_status(jstr(status_name(st)) + rest) == Some((st, rest)),
{
    lemma_pstring_rt(status_name(st), rest);
    reveal_strlit("ready");
    reveal_strlit("creating");
    reveal_strlit("error");
    reveal_strlit("archived");
    assert("ready"@.len() == 5 && "creating"@.len() == 8 && "error"@.len() == 5 && "archived"@.len()
        == 8);
    assert("ready"@[0] == 'r' && "error"@[0] == 'e');
}

/// Parsing a record's last third inverts printing it.
#[verifier::rlimit(100)]
proof fn lemma_pwstail_rt(w: WorkspaceView, rest: Seq<char>)
    ensures
        p_workspace_tail(
            jws_tail(w) + rest,
            w.id,
            w.name,
            w.source_type,
            w.source,
            w.repo_root_path,
            w.worktree_path,
            w.branch,
            w.base_ref,
        ) == Some((w, rest)),
{
    let x9 = rest;
    let x8 = "}"@ + x9;
    let x7 = jopt(w.last_opened_at) + x8;
    let x6 = ",\"lastOpenedAt\":"@ + x7;
    let x5 = jstr(w.updated_at) + x6;
    let x4 = ",\"updatedAt\":"@ + x5;
    let x3 = jstr(w.created_at) + x4;
    let x2 = ",\"createdAt\":"@ + x3;
    let x1 = jstr(status_name(w.status)) + x2;
    assert(jws_tail(w) + rest =~= ",\"status\":"@ + x1) by {
        reveal(jws_tail);
    }
    lemma_plit_rt(",\"status\":"@, x1);
    lemma_pstatus_rt(w.status, x2);
    lemma_plit_rt(",\"createdAt\":"@, x3);
    lemma_pstring_rt(w.created_at, x4);
    lemma_plit_rt(",\"updatedAt\":"@, x5);
    lemma_pstring_rt(w.updated_at, x6);
    lemma_plit_rt(",\"lastOpenedAt\":"@, x7);
    lemma_poptstr_rt(w.last_opened_at, x8);
    lemma_plit_rt("}"@, x9);
}

/// Parsing a record's middle third inverts printing it.
#[verifier::rlimit(100)]
proof fn lemma_pwspaths_rt(w: WorkspaceView, rest: Seq<char>)
    ensures
        p_workspace_paths(
            jws_mid(w) + (jws_tail(w) + rest),
            w.id,
            w.name,
            w.source_type,
            w.source,
        ) == Some((w, rest)),
{
    let x8 = jws_tail(w) + rest;
    let x7 = jopt(w.base_ref) + x8;
    let x6 = ",\"baseRef\":"@ + x7;
    let x5 = jstr(w.branch) + x6;
    let x4 = ",\"branch\":"@ + x5;
    let x3 = jstr(w.worktree_path) + x4;
    let x2 = ",\"worktreePath\":"@ + x3;
    let x1 = jstr(w.repo_root_path) + x2;
    assert(jws_mid(w) + x8 =~= ",\"repoRootPath\":"@ + x1) by {
        reveal(jws_mid);
    }
    lemma_plit_rt(",\"repoRootPath\":"@, x1);
    lemma_pstring_rt(w.repo_root_path, x2);
    lemma_plit_rt(",\"worktreePath\":"@, x3);
    lemma_pstring_rt(w.worktree_path, x4);
    lemma_plit_rt(",\"branch\":"@, x5);
    lemma_pstring_rt(w.branch, x6);
    lemma_plit_rt(",\"baseRef\":"@, x7);
    lemma_poptstr_rt(w.base_ref, x8);
    lemma_pwstail_rt(w, rest);
}

/// Parsing one record inverts printing one.
#[verifier::rlimit(100)]
proof fn lemma_pworkspace_rt(w: WorkspaceView, rest: Seq<char>)
    ensures
        p_workspace(jws(w) + rest) == Some((w, rest)),
{
    let x8 = jws_mid(w) + (jws_tail(w) + rest);
    let x7 = jstr(w.source) + x8;
    let x6 = ",\"source\":"@ + x7;
    let x5 = jstr(source_name(w.source_type)) + x6;
    let x4 = ",\"sourceType\":"@ + x5;
    let x3 = jstr(w.name) + x4;
    let x2 = ",\"name\":"@ + x3;
    let x1 = jstr(w.id) + x2;
    assert(jws(w) + rest =~= "{\"id\":"@ + x1) by {
        reveal(jws_head);
    }
    lemma_plit_rt("{\"id\":"@, x1);
    lemma_pstring_rt(w.id, x2);
    lemma_plit_rt(",\"name\":"@, x3);
    lemma_pstring_rt(w.name, x4);
    lemma_plit_rt(",\"sourceType\":"@, x5);
    lemma_psource_rt(w.source_type, x6);
    lemma_plit_rt(",\"source\":"@, x7);
    lemma_pstring_rt(w.source, x8);
    lemma_pwspaths_rt(w, rest);
}

/// Every record prints to at least one character.
proof fn lemma_jws_len(w: WorkspaceView)
    ensures
        jws(w).len() >= 1,
        jws(w)[0] == '{',
{
    reveal(jws_head);
    reveal_strlit("{\"id\":");
    assert("{\"id\":"@.len() == 6);
    assert("{\"id\":"@[0] == '{');
    assert(jws(w)[0] == jws_head(w)[0]);
}

/// The array text is at least as long as the record count.
proof fn lemma_jitems_len(ws: Seq<WorkspaceView>)
    ensures
        jitems(ws).len() >= ws.len(),
    decreases ws.len(),
{
    if ws.len() == 1 {
        lemma_jws_len(ws[0]);
    } else if ws.len() > 1 {
        lemma_jws_len(ws[0]);
        lemma_jitems_len(ws.drop_first());
        reveal_strlit(",");
    }
}

/// Parsing the array contents inverts printing them, for any fuel at
/// least the record count.
proof fn lemma_pitems_rt(ws: Seq<WorkspaceView>, rest: Seq<char>, fuel: nat)
    requires
        fuel >= ws.len(),
    ensures
        p_items(jitems(ws) + seq![']'] + rest, fuel) == Some((ws, rest)),
    decreases ws.len(),
{
    let s = jitems(ws) + seq![']'] + rest;
    if ws.len() == 0 {
        assert(s =~= seq![']'] + rest);
        assert(s[0] == ']');
        assert(s.skip(1) =~= rest);
        assert(p_items(s, fuel) == Some((Seq::<WorkspaceView>::empty(), rest)));
    } else if ws.len() == 1 {
        lemma_jws_len(ws[0]);
        assert(s =~= jws(ws[0]) + (seq![']'] + rest));
        assert(s[0] == '{');
        lemma_pworkspace_rt(ws[0], seq![']'] + rest);
        let r = seq![']'] + rest;
        assert(r[0] == ']');
        assert(r.skip(1) =~= rest);
        assert(seq![ws[0]] =~= ws);
    } else {
        lemma_jws_len(ws[0]);
        let tail = jitems(ws.drop_first()) + seq![']'] + rest;
        assert(s =~= jws(ws[0]) + (seq![','] + tail)) by {
            assert(jitems(ws) == jws(ws[0]) + ","@ + jitems(ws.drop_first()));
            reveal_strlit(",");
            assert(","@ =~= seq![',']);
        }
        assert(s[0] == '{');
        lemma_pworkspace_rt(ws[0], seq![','] + tail);
        let r = seq![','] + tail;
        assert(r[0] == ',');
        assert(r.skip(1) =~= tail);
        lemma_pitems_rt(ws.drop_first(), rest, (fuel - 1) as nat);
        assert(seq![ws[0]] + ws.drop_first() =~= ws);
    }
}

/// Parsing a registry file inverts printing one: the round trip of the
/// persisted catalog. Saving any records and active id and loading the
/// text back yields exactly the same records, in the same order, and
/// the same active id.
pub proof fn lemma_registry_round_trip(ws: Seq<WorkspaceView>, active: Option<Seq<char>>)
    ensures
        p_registry(jregistry(ws, active)) == Some((ws, active)),
{
    let s = jregistry(ws, active);
    let x4 = "}"@;
    let x3 = jopt(active) + x4;
    let x2 = ",\"activeWorkspaceId\":"@ + x3;
    let x1 = jitems(ws) + (seq![']'] + x2);
    assert("],\"activeWorkspaceId\":"@ =~= seq![']'] + ",\"activeWorkspaceId\":"@) by {
        reveal_strlit("],\"activeWorkspaceId\":");
        reveal_strlit(",\"activeWorkspaceId\":");
    }
    assert(s =~= "{\"workspaces\":["@ + x1);
    lemma_plit_rt("{\"workspaces\":["@, x1);
    lemma_jitems_len(ws);
    assert(x1.len() >= ws.len());
    assert(x1 =~= jitems(ws) + seq![']'] + x2);
    lemma_pitems_rt(ws, x2, x1.len() as nat);
    lemma_plit_rt(",\"activeWorkspaceId\":"@, x3);
    lemma_poptstr_rt(active, x4);
    assert(x4 =~= "}"@ + Seq::<char>::empty());
    lemma_plit_rt("}"@, Seq::<char>::empty());
}

/// A parsed string body leaves a strictly shorter remainder.
proof fn lemma_pstrbody_consumes(s: Seq<char>)
    ensures
        p_strbody(s) matches Some(p) ==> p.1.len() < s.len(),
    decreases s.len(),
{
    if s.len() > 0 && s[0] != '"' {
        if s[0] == '\\' {
            if s.len() >= 2 && (s[1] == '"' || s[1] == '\\') {
                lemma_pstrbody_consumes(s.skip(2));
            }
        } else {
            lemma_pstrbody_consumes(s.skip(1));
        }
    }
}

/// A parsed string leaves a strictly shorter remainder.
proof fn lemma_pstring_consumes(s: Seq<char>)
    ensures
        p_string(s) matches Some(p) ==> p.1.len() < s.len(),
{
    if s.len() > 0 && s[0] == '"' {
        lemma_pstrbody_consumes(s.skip(1));
    }
}

/// A parsed optional string never grows the remainder.
proof fn lemma_poptstr_consumes(s: Seq<char>)
    ensures
        p_optstr(s) matches Some(p) ==> p.1.len() <= s.len(),
{
    lemma_pstring_consumes(s);
}

/// A record's last third never grows the remainder.
proof fn lemma_pwstail_consumes(
    s: Seq<char>,
    id: Seq<char>,
    name: Seq<char>,
    source_type: WorkspaceSourceType,
    source: Seq<char>,
    repo_root_path: Seq<char>,
    worktree_path: Seq<char>,
    branch: Seq<char>,
    base_ref: Option<Seq<char>>,
)
    ensures
        p_workspace_tail(
            s,
            id,
            name,
            source_type,
            source,
            repo_root_path,
            worktree_path,
            branch,
            base_ref,
        ) matches Some(p) ==> p.1.len() <= s.len(),
{
    match p_lit(s, ",\"status\":"@) {
        None => {},
        Some(s1) => {
            lemma_pstring_consumes(s1);
            match p_status(s1) {
                None => {},
                Some(q1) => {
                    match p_lit(q1.1, ",\"createdAt\":"@) {
                        None => {},
                        Some(s3) => {
                            lemma_pstring_consumes(s3);
                            match p_string(s3) {
                                None => {},
                                Some(q2) => {
                                    match p_lit(q2.1, ",\"updatedAt\":"@) {
                                        None => {},
                                        Some(s5) => {
                                            lemma_pstring_consumes(s5);
                                            match p_string(s5) {
                                                None => {},
                                                Some(q3) => {
                                                    match p_lit(q3.1, ",\"lastOpenedAt\":"@) {
                                                        None => {},
                                                        Some(s7) => {
                                                            lemma_poptstr_consumes(s7);
                                                        },
                                                    }
                                                },
                                            }
                                        },
                                    }
                                },
                            }
                        },
                    }
                },
            }
        },
    }
}

/// A record's middle third never grows the remainder.
proof fn lemma_pwspaths_consumes(
    s: Seq<char>,
    id: Seq<char>,
    name: Seq<char>,
    source_type: WorkspaceSourceType,
    source: Seq<char>,
)
    ensures
        p_workspace_paths(s, id, name, source_type, source) matches Some(p) ==> p.1.len()
            <= s.len(),
{
    match p_lit(s, ",\"repoRootPath\":"@) {
        None => {},
        Some(s1) => {
            lemma_pstring_consumes(s1);
            match p_string(s1) {
                None => {},
                Some(q1) => {
                    match p_lit(q1.1, ",\"worktreePath\":"@) {
                        None => {},
                        Some(s3) => {
                            lemma_pstring_consumes(s3);
                            match p_string(s3) {
                                None => {},
                                Some(q2) => {
                                    match p_lit(q2.1, ",\"branch\":"@) {
                                        None => {},
                                        Some(s5) => {
                                            lemma_pstring_consumes(s5);
                                            match p_string(s5) {
                                                None => {},
                                                Some(q3) => {
                                                    match p_lit(q3.1, ",\"baseRef\":"@) {
                                                        None => {},
                                                        Some(s7) => {
                                                            lemma_poptstr_consumes(s7);
                                                            match p_optstr(s7) {
                                                                None => {},
                                                                Some(q4) => {
                                                                    lemma_pwstail_consumes(
                                                                        q4.1,
                                                                        id,
                                                                        name,
                                                                        source_type,
                                                                        source,
                                                                        q1.0,
                                                                        q2.0,
                                                                        q3.0,
                                                                        q4.0,
                                                                    );
                                                                },
                                                            }
                                                        },
                                                    }
                                                },
                                            }
                                        },
                                    }
                                },
                            }
                        },
                    }
                },
            }
        },
    }
}

/// A whole record leaves a strictly shorter remainder.
proof fn lemma_pworkspace_consumes(s: Seq<char>)
    ensures
        p_workspace(s) matches Some(p) ==> p.1.len() < s.len(),
{
    reveal_strlit("{\"id\":");
    match p_lit(s, "{\"id\":"@) {
        None => {},
        Some(s1) => {
            assert(s1.len() < s.len());
            lemma_pstring_consumes(s1);
            match p_string(s1) {
                None => {},
                Some(q1) => {
                    match p_lit(q1.1, ",\"name\":"@) {
                        None => {},
                        Some(s3) => {
                            lemma_pstring_consumes(s3);
                            match p_string(s3) {
                                None => {},
                                Some(q2) => {
                                    match p_lit(q2.1, ",\"sourceType\":"@) {
                                        None => {},
                                        Some(s5) => {
                                            lemma_pstring_consumes(s5);
                                            match p_source(s5) {
                                                None => {},
                                                Some(q3) => {
                                                    match p_lit(q3.1, ",\"source\":"@) {
                                                        None => {},
                                                        Some(s7) => {
                                                            lemma_pstring_consumes(s7);
                                                            match p_string(s7) {
                                                                None => {},
                                                                Some(q4) => {
                                                                    lemma_pwspaths_consumes(
                                                                        q4.1,
                                                                        q1.0,
                                                                        q2.0,
                                                                        q3.0,
                                                                        q4.0,
                                                                    );
                                                                },
                                                            }
                                                        },
                                                    }
                                                },
                                            }
                                        },
                                    }
                                },
                            }
                        },
                    }
                },
            }
        },
    }
}

/// The result of `p_items` does not depend on the fuel, as long as the
/// fuel covers the text length.
proof fn lemma_pitems_fuel(s: Seq<char>, f1: nat, f2: nat)
    requires
        f1 >= s.len(),
        f2 >= s.len(),
    ensures
        p_items(s, f1) == p_items(s, f2),
    decreases s.len(),
{
    if !(s.len() > 0 && s[0] == ']') {
        match p_workspace(s) {
            None => {},
            Some((w, r)) => {
                lemma_pworkspace_consumes(s);
                assert(r.len() < s.len());
                if r.len() > 0 && r[0] == ',' {
                    assert(s.len() >= 1);
                    lemma_pitems_fuel(r.skip(1), (f1 - 1) as nat, (f2 - 1) as nat);
                }
            },
        }
    }
}

/// Consume the literal `lit` at position `i`.
fn pe_lit(v: &Vec<char>, i: usize, lit: &str) -> (r: Option<usize>)
    requires
        i <= v@.len(),
    ensures
        match r {
            Some(j) => i <= j <= v@.len() && j == i + lit@.len() && p_lit(v@.skip(i as int), lit@)
                == Some(v@.skip(j as int)),
            None => p_lit(v@.skip(i as int), lit@) is None,
        },
{
    let lc = chars_vec(lit);
    let n: usize = lc.len();
    if v.len() - i < n {
        proof {
            assert(v@.skip(i as int).len() < lit@.len());
        }
        return None;
    }
    let mut k: usize = 0;
    while k < n
        invariant
            lc@ == lit@,
            n == lit@.len(),
            i <= v@.len(),
            i + n <= v@.len(),
            v@.len() <= usize::MAX,
            k <= n,
            forall|jj: int| 0 <= jj < k ==> v@[i + jj] == lit@[jj],
        decreases n - k,
    {
        if v[i + k] != lc[k] {
            proof {
                let s = v@.skip(i as int);
                assert(s.take(n as int)[k as int] == v@[i + k]);
            }
            return None;
        }
        k = k + 1;
    }
    proof {
        let s = v@.skip(i as int);
        assert(s.take(n as int) =~= lit@);
        assert(s.skip(n as int) =~= v@.skip(i + n));
    }
    Some(i + n)
}

/// Consume a JSON string at position `i`.
fn pe_string(v: &Vec<char>, i: usize) -> (r: Option<(String, usize)>)
    requires
        i <= v@.len(),
    ensures
        match r {
            Some(p) => i < p.1 <= v@.len() && p_string(v@.skip(i as int)) == Some(
                (p.0@, v@.skip(p.1 as int)),
            ),
            None => p_string(v@.skip(i as int)) is None,
        },
{
    if i >= v.len() || v[i] != '"' {
        proof {
            let s = v@.skip(i as int);
            if s.len() > 0 {
                assert(s[0] == v@[i as int]);
            }
        }
        return None;
    }
    proof {
        let s = v@.skip(i as int);
        assert(s[0] == v@[i as int]);
        assert(s.skip(1) =~= v@.skip(i + 1));
    }
    let ghost start = i + 1;
    let mut out: Vec<char> = Vec::new();
    let mut k: usize = i + 1;
    loop
        invariant
            i + 1 <= k <= v@.len(),
            start == i + 1,
            i < v@.len(),
            p_string(v@.skip(i as int)) == p_strbody(v@.skip(start as int)),
            ({
                match p_strbody(v@.skip(k as int)) {
                    Some(p) => p_strbody(v@.skip(start as int)) == Some((out@ + p.0, p.1)),
                    None => p_strbody(v@.skip(start as int)) is None,
                }
            }),
        decreases v@.len() - k,
    {
        if k >= v.len() {
            proof {
                assert(v@.skip(k as int).len() == 0);
            }
            return None;
        }
        let c = v[k];
        proof {
            assert(v@.skip(k as int)[0] == v@[k as int]);
        }
        if c == '"' {
            proof {
                assert(v@.skip(k as int).skip(1) =~= v@.skip(k + 1));
                assert(p_strbody(v@.skip(k as int)) == Some(
                    (Seq::<char>::empty(), v@.skip(k + 1)),
                ));
                assert(out@ + Seq::<char>::empty() =~= out@);
            }
            let s = chars_to_string(&out);
            return Some((s, k + 1));
        } else if c == '\\' {
            if k + 1 >= v.len() {
                proof {
                    assert(v@.skip(k as int).len() == 1);
                }
                return None;
            }
            let e = v[k + 1];
            proof {
                assert(v@.skip(k as int)[1] == v@[k + 1]);
            }
            if e == '"' || e == '\\' {
                let ghost old_out = out@;
                out.push(e);
                proof {
                    assert(v@.skip(k as int).skip(2) =~= v@.skip(k + 2));
                    match p_strbody(v@.skip(k + 2)) {
                        Some(p) => {
                            assert(p_strbody(v@.skip(k as int)) == Some((seq![e] + p.0, p.1)));
                            assert(old_out + (seq![e] + p.0) =~= out@ + p.0);
                        },
                        None => {
                            assert(p_strbody(v@.skip(k as int)) is None);
                        },
                    }
                }
                k = k + 2;
            } else {
                proof {
                    assert(p_strbody(v@.skip(k as int)) is None);
                }
                return None;
            }
        } else {
            let ghost old_out = out@;
            out.push(c);
            proof {
                assert(v@.skip(k as int).skip(1) =~= v@.skip(k + 1));
                match p_strbody(v@.skip(k + 1)) {
                    Some(p) => {
                        assert(p_strbody(v@.skip(k as int)) == Some((seq![c] + p.0, p.1)));
                        assert(old_out + (seq![c] + p.0) =~= out@ + p.0);
                    },
                    None => {
                        assert(p_strbody(v@.skip(k as int)) is None);
                    },
                }
            }
            k = k + 1;
        }
    }
}

/// Consume `null` or a JSON string at position `i`.
fn pe_optstr(v: &Vec<char>, i: usize) -> (r: Option<(Option<String>, usize)>)
    requires
        i <= v@.len(),
    ensures
        match r {
            Some(p) => i < p.1 <= v@.len() && p_optstr(v@.skip(i as int)) == Some(
                (
                    match p.0 {
                        Some(t) => Some(t@),
                        None => None,
                    },
                    v@.skip(p.1 as int),
                ),
            ),
            None => p_optstr(v@.skip(i as int)) is None,
        },
{
    match pe_lit(v, i, "null") {
        Some(j) => {
            proof {
                let s = v@.skip(i as int);
                reveal_strlit("null");
                assert(s.len() >= 4 && s.take(4) == "null"@);
                assert(j == i + 4);
                assert(v@.skip(j as int) =~= s.skip(4));
            }
            Some((None, j))
        },
        None => {
            proof {
                let s = v@.skip(i as int);
                reveal_strlit("null");
                assert(!(s.len() >= 4 && s.take(4) == "null"@));
            }
            match pe_string(v, i) {
                Some((t, j)) => Some((Some(t), j)),
                None => None,
            }
        },
    }
}

/// Consume a source-type name at position `i`.
fn pe_source(v: &Vec<char>, i: usize) -> (r: Option<(WorkspaceSourceType, usize)>)
    requires
        i <= v@.len(),
    ensures
        match r {
            Some(p) => i < p.1 <= v@.len() && p_source(v@.skip(i as int)) == Some(
                (p.0, v@.skip(p.1 as int)),
            ),
            None => p_source(v@.skip(i as int)) is None,
        },
{
    match pe_string(v, i) {
        None => None,
        Some((t, j)) => {
            if crate::strings::str_eq(t.as_str(), "local") {
                Some((WorkspaceSourceType::Local, j))
            } else if crate::strings::str_eq(t.as_str(), "github") {
                Some((WorkspaceSourceType::Github, j))
            } else {
                None
            }
        },
    }
}

/// Consume a status name at position `i`.
fn pe_status(v: &Vec<char>, i: usize) -> (r: Option<(WorkspaceStatus, usize)>)
    requires
        i <= v@.len(),
    ensures
        match r {
            Some(p) => i < p.1 <= v@.len() && p_status(v@.skip(i as int)) == Some(
                (p.0, v@.skip(p.1 as int)),
            ),
            None => p_status(v@.skip(i as int)) is None,
        },
{
    match pe_string(v, i) {
        None => None,
        Some((t, j)) => {
            if crate::strings::str_eq(t.as_str(), "ready") {
                Some((WorkspaceStatus::Ready, j))
            } else if crate::strings::str_eq(t.as_str(), "creating") {
                Some((WorkspaceStatus::Creating, j))
            } else if crate::strings::str_eq(t.as_str(), "error") {
                Some((WorkspaceStatus::Error, j))
            } else if crate::strings::str_eq(t.as_str(), "archived") {
                Some((WorkspaceStatus::Archived, j))
            } else {
                None
            }
        },
    }
}

/// Consume one workspace record at position `i`.
#[verifier::rlimit(100)]
fn pe_workspace(v: &Vec<char>, i: usize) -> (r: Option<(Workspace, usize)>)
    requires
        i <= v@.len(),
    ensures
        match r {
            Some(p) => i < p.1 <= v@.len() && p_workspace(v@.skip(i as int)) == Some(
                (view_of(p.0), v@.skip(p.1 as int)),
            ),
            None => p_workspace(v@.skip(i as int)) is None,
        },
{
    let j0 = match pe_lit(v, i, "{\"id\":") {
        None => {
            return None;
        },
        Some(j) => j,
    };
    let (id, j1) = match pe_string(v, j0) {
        None => {
            return None;
        },
        Some(p) => p,
    };
    let j2 = match pe_lit(v, j1, ",\"name\":") {
        None => {
            return None;
        },
        Some(j) => j,
    };
    let (name, j3) = match pe_string(v, j2) {
        None => {
            return None;
        },
        Some(p) => p,
    };
    let j4 = match pe_lit(v, j3, ",\"sourceType\":") {
        None => {
            return None;
        },
        Some(j) => j,
    };
    let (source_type, j5) = match pe_source(v, j4) {
        None => {
            return None;
        },
        Some(p) => p,
    };
    let j6 = match pe_lit(v, j5, ",\"source\":") {
        None => {
            return None;
        },
        Some(j) => j,
    };
    let (source, j7) = match pe_string(v, j6) {
        None => {
            return None;
        },
        Some(p) => p,
    };
    let j8 = match pe_lit(v, j7, ",\"repoRootPath\":") {
        None => {
            return None;
        },
        Some(j) => j,
    };
    let (repo_root_path, j9) = match pe_string(v, j8) {
        None => {
            return None;
        },
        Some(p) => p,
    };
    let j10 = match pe_lit(v, j9, ",\"worktreePath\":") {
        None => {
            return None;
        },
        Some(j) => j,
    };
    let (worktree_path, j11) = match pe_string(v, j10) {
        None => {
            return None;
        },
        Some(p) => p,
    };
    let j12 = match pe_lit(v, j11, ",\"branch\":") {
        None => {
            return None;
        },
        Some(j) => j,
    };
    let (branch, j13) = match pe_string(v, j12) {
        None => {
            return None;
        },
        Some(p) => p,
    };
    let j14 = match pe_lit(v, j13, ",\"baseRef\":") {
        None => {
            return None;
        },
        Some(j) => j,
    };
    let (base_ref, j15) = match pe_optstr(v, j14) {
        None => {
            return None;
        },
        Some(p) => p,
    };
    let j16 = match pe_lit(v, j15, ",\"status\":") {
        None => {
            return None;
        },
        Some(j) => j,
    };
    let (status, j17) = match pe_status(v, j16) {
        None => {
            return None;
        },
        Some(p) => p,
    };
    let j18 = match pe_lit(v, j17, ",\"createdAt\":") {
        None => {
            return None;
        },
        Some(j) => j,
    };
    let (created_at, j19) = match pe_string(v, j18) {
        None => {
            return None;
        },
        Some(p) => p,
    };
    let j20 = match pe_lit(v, j19, ",\"updatedAt\":") {
        None => {
            return None;
        },
        Some(j) => j,
    };
    let (updated_at, j21) = match pe_string(v, j20) {
        None => {
            return None;
        },
        Some(p) => p,
    };
    let j22 = match pe_lit(v, j21, ",\"lastOpenedAt\":") {
        None => {
            return None;
        },
        Some(j) => j,
    };
    let (last_opened_at, j23) = match pe_optstr(v, j22) {
        None => {
            return None;
        },
        Some(p) => p,
    };
    let j24 = match pe_lit(v, j23, "}") {
        None => {
            return None;
        },
        Some(j) => j,
    };
    let w = Workspace {
        id,
        name,
        source_type,
        source,
        repo_root_path,
        worktree_path,
        branch,
        base_ref,
        status,
        created_at,
        updated_at,
        last_opened_at,
    };
    Some((w, j24))
}

/// Consume the record array's contents at position `i`.
fn pe_items(v: &Vec<char>, i: usize) -> (r: Option<(Vec<Workspace>, usize)>)
    requires
        i <= v@.len(),
    ensures
        match r {
            Some(p) => i < p.1 <= v@.len() && p_items(
                v@.skip(i as int),
                v@.skip(i as int).len() as nat,
            ) == Some((views_of(p.0@), v@.skip(p.1 as int))),
            None => p_items(v@.skip(i as int), v@.skip(i as int).len() as nat) is None,
        },
    decreases v@.len() - i,
{
    if i < v.len() && v[i] == ']' {
        proof {
            let s = v@.skip(i as int);
            assert(s[0] == v@[i as int]);
            assert(s.skip(1) =~= v@.skip(i + 1));
            assert(views_of(Seq::<Workspace>::empty()) =~= Seq::<WorkspaceView>::empty());
        }
        let empty: Vec<Workspace> = Vec::new();
        proof {
            assert(views_of(empty@) =~= Seq::<WorkspaceView>::empty());
        }
        return Some((empty, i + 1));
    }
    proof {
        let s = v@.skip(i as int);
        if s.len() > 0 {
            assert(s[0] == v@[i as int]);
        }
    }
    match pe_workspace(v, i) {
        None => None,
        Some((w, j)) => {
            if j < v.len() && v[j] == ',' {
                proof {
                    let s = v@.skip(i as int);
                    let rr = v@.skip(j as int);
                    assert(rr[0] == v@[j as int]);
                    assert(rr.skip(1) =~= v@.skip(j + 1));
                    lemma_pworkspace_consumes(s);
                }
                match pe_items(v, j + 1) {
                    None => {
                        proof {
                            let s = v@.skip(i as int);
                            let child = v@.skip(j + 1);
                            lemma_pitems_fuel(
                                child,
                                child.len() as nat,
                                (s.len() - 1) as nat,
                            );
                        }
                        None
                    },
                    Some((more, k)) => {
                        proof {
                            let s = v@.skip(i as int);
                            let child = v@.skip(j + 1);
                            lemma_pitems_fuel(
                                child,
                                child.len() as nat,
                                (s.len() - 1) as nat,
                            );
                        }
                        if more.len() == 0 {
                            proof {
                                assert(views_of(more@).len() == 0);
                            }
                            None
                        } else {
                            let mut res: Vec<Workspace> = Vec::new();
                            res.push(w);
                            let mut rest_items = more;
                            res.append(&mut rest_items);
                            proof {
                                assert(views_of(more@).len() > 0);
                                assert(views_of(res@) =~= seq![view_of(w)] + views_of(more@));
                            }
                            Some((res, k))
                        }
                    },
                }
            } else if j < v.len() && v[j] == ']' {
                proof {
                    let rr = v@.skip(j as int);
                    assert(rr[0] == v@[j as int]);
                    assert(rr.skip(1) =~= v@.skip(j + 1));
                }
                let mut res: Vec<Workspace> = Vec::new();
                res.push(w);
                proof {
                    assert(views_of(res@) =~= seq![view_of(w)]);
                }
                Some((res, j + 1))
            } else {
                proof {
                    let rr = v@.skip(j as int);
                    if rr.len() > 0 {
                        assert(rr[0] == v@[j as int]);
                    }
                }
                None
            }
        },
    }
}

/// Parse a whole registry file: the records and the active id, exactly
/// as `p_registry` reads the text; `None` when the text is not a
/// registry rendering.
pub fn parse_registry(content: &str) -> (r: Option<(Vec<Workspace>, Option<String>)>)
    ensures
        match r {
            Some(p) => p_registry(content@) == Some(
                (
                    views_of(p.0@),
                    match p.1 {
                        Some(a) => Some(a@),
                        None => None,
                    },
                ),
            ),
            None => p_registry(content@) is None,
        },
{
    let v = chars_vec(content);
    proof {
        assert(v@.skip(0) =~= content@);
    }
    let j0 = match pe_lit(&v, 0, "{\"workspaces\":[") {
        None => {
            return None;
        },
        Some(j) => j,
    };
    let (ws, j1) = match pe_items(&v, j0) {
        None => {
            return None;
        },
        Some(p) => p,
    };
    let j2 = match pe_lit(&v, j1, ",\"activeWorkspaceId\":") {
        None => {
            return None;
        },
        Some(j) => j,
    };
    let (act, j3) = match pe_optstr(&v, j2) {
        None => {
            return None;
        },
        Some(p) => p,
    };
    let j4 = match pe_lit(&v, j3, "}") {
        None => {
            return None;
        },
        Some(j) => j,
    };
    if j4 != v.len() {
        proof {
            assert(v@.skip(j4 as int).len() > 0);
        }
        return None;
    }
    proof {
        assert(v@.skip(j4 as int).len() == 0);
    }
    Some((ws, act))
}

/// Append the characters of `lit` to `out`.
fn push_chars(out: &mut Vec<char>, lit: &str)
    ensures
        final(out)@ == old(out)@ + lit@,
{
    let cs = chars_vec(lit);
    let mut i: usize = 0;
    proof {
        assert(out@ =~= old(out)@ + lit@.take(0));
    }
    while i < cs.len()
        invariant
            cs@ == lit@,
            i <= lit@.len(),
            out@ == old(out)@ + lit@.take(i as int),
        decreases lit@.len() - i,
    {
        out.push(cs[i]);
        i = i + 1;
        proof {
            assert(old(out)@ + lit@.take(i as int) =~= (old(out)@ + lit@.take(i - 1)).push(
                lit@[i - 1],
            ));
        }
    }
    proof {
        assert(lit@.take(lit@.len() as int) =~= lit@);
    }
}

/// Append the escaped body of `s` to `out`.
fn push_escaped(out: &mut Vec<char>, s: &str)
    ensures
        final(out)@ == old(out)@ + escape_str(s@),
{
    let cs = chars_vec(s);
    let mut i: usize = 0;
    proof {
        assert(escape_str(s@.take(0)) =~= Seq::<char>::empty());
        assert(out@ =~= old(out)@ + escape_str(s@.take(0)));
    }
    while i < cs.len()
        invariant
            cs@ == s@,
            i <= s@.len(),
            out@ == old(out)@ + escape_str(s@.take(i as int)),
        decreases s@.len() - i,
    {
        let c = cs[i];
        if c == '"' {
            out.push('\\');
            out.push('"');
        } else if c == '\\' {
            out.push('\\');
            out.push('\\');
        } else {
            out.push(c);
        }
        i = i + 1;
        proof {
            lemma_escape_push(s@.take(i - 1), s@[i - 1]);
            assert(s@.take(i as int) =~= s@.take(i - 1).push(s@[i - 1]));
            assert(out@ =~= old(out)@ + escape_str(s@.take(i as int)));
        }
    }
    proof {
        assert(s@.take(s@.len() as int) =~= s@);
    }
}

/// Append the JSON string for `s` to `out`.
fn push_jstr(out: &mut Vec<char>, s: &str)
    ensures
        final(out)@ == old(out)@ + jstr(s@),
{
    out.push('"');
    push_escaped(out, s);
    out.push('"');
    proof {
        assert(out@ =~= old(out)@ + jstr(s@));
    }
}

/// Append the JSON for an optional string to `out`.
fn push_jopt(out: &mut Vec<char>, o: &Option<String>)
    ensures
        final(out)@ == old(out)@ + jopt(
            match o {
                Some(s) => Some(s@),
                None => None,
            },
        ),
{
    match o {
        None => push_chars(out, "null"),
        Some(s) => push_jstr(out, s.as_str()),
    }
}

/// Append one record to `out`.
#[verifier::rlimit(100)]
fn push_workspace(out: &mut Vec<char>, w: &Workspace)
    ensures
        final(out)@ == old(out)@ + jws(view_of(*w)),
{
    push_chars(out, "{\"id\":");
    push_jstr(out, w.id.as_str());
    push_chars(out, ",\"name\":");
    push_jstr(out, w.name.as_str());
    push_chars(out, ",\"sourceType\":");
    match w.source_type {
        WorkspaceSourceType::Local => push_jstr(out, "local"),
        WorkspaceSourceType::Github => push_jstr(out, "github"),
    }
    push_chars(out, ",\"source\":");
    push_jstr(out, w.source.as_str());
    proof {
        reveal(jws_head);
        assert(out@ =~= old(out)@ + jws_head(view_of(*w)));
    }
    push_chars(out, ",\"repoRootPath\":");
    push_jstr(out, w.repo_root_path.as_str());
    push_chars(out, ",\"worktreePath\":");
    push_jstr(out, w.worktree_path.as_str());
    push_chars(out, ",\"branch\":");
    push_jstr(out, w.branch.as_str());
    push_chars(out, ",\"baseRef\":");
    push_jopt(out, &w.base_ref);
    proof {
        reveal(jws_mid);
        assert(out@ =~= old(out)@ + jws_head(view_of(*w)) + jws_mid(view_of(*w)));
    }
    push_chars(out, ",\"status\":");
    match w.status {
        WorkspaceStatus::Ready => push_jstr(out, "ready"),
        WorkspaceStatus::Creating => push_jstr(out, "creating"),
        WorkspaceStatus::Error => push_jstr(out, "error"),
        WorkspaceStatus::Archived => push_jstr(out, "archived"),
    }
    push_chars(out, ",\"createdAt\":");
    push_jstr(out, w.created_at.as_str());
    push_chars(out, ",\"updatedAt\":");
    push_jstr(out, w.updated_at.as_str());
    push_chars(out, ",\"lastOpenedAt\":");
    push_jopt(out, &w.last_opened_at);
    push_chars(out, "}");
    proof {
        reveal(jws_tail);
        assert(out@ =~= old(out)@ + jws(view_of(*w)));
    }
}

/// Render the registry contents as the canonical file text.
#[verifier::rlimit(100)]
pub fn registry_to_json(workspaces: &Vec<Workspace>, active: &Option<String>) -> (r: String)
    ensures
        r@ == jregistry(
            views_of(workspaces@),
            match active {
                Some(a) => Some(a@),
                None => None,
            },
        ),
{
    let mut out: Vec<char> = Vec::new();
    push_chars(&mut out, "{\"workspaces\":[");
    let ghost views = views_of(workspaces@);
    let mut i: usize = 0;
    proof {
        assert(views.take(0) =~= Seq::<WorkspaceView>::empty());
        assert(out@ =~= "{\"workspaces\":["@ + jitems(views.take(0)));
    }
    while i < workspaces.len()
        invariant
            views == views_of(workspaces@),
            i <= workspaces@.len(),
            views.len() == workspaces@.len(),
            out@ == "{\"workspaces\":["@ + jitems(views.take(i as int)),
        decreases workspaces@.len() - i,
    {
        if i > 0 {
            push_chars(&mut out, ",");
        }
        push_workspace(&mut out, &workspaces[i]);
        i = i + 1;
        proof {
            lemma_jitems_push(views.take(i - 1), views[i - 1]);
            assert(views.take(i as int) =~= views.take(i - 1).push(views[i - 1]));
            assert(view_of(workspaces@[i - 1]) == views[i - 1]);
            assert(out@ =~= "{\"workspaces\":["@ + jitems(views.take(i as int)));
        }
    }
    proof {
        assert(views.take(views.len() as int) =~= views);
    }
    push_chars(&mut out, "],\"activeWorkspaceId\":");
    push_jopt(&mut out, active);
    push_chars(&mut out, "}");
    proof {
        assert(out@ =~= jregistry(
            views,
            match active {
                Some(a) => Some(a@),
                None => None,
            },
        ));
    }
    chars_to_string(&out)
}

} // verus!
