//! Ranking of remote repository candidates against a free-text query:
//! tokenization, per-candidate scoring, and the sort/filter/cap pipeline
//! that turns the full candidate list into at most twenty suggestions.

use vstd::prelude::*;

verus! {

use crate::strings::{chars_vec, spec_trim_spaces, str_concat, str_eq, trim_string};
use vstd::multiset::Multiset;
use vstd::relations::sorted_by;
use vstd::seq_lib::group_to_multiset_ensures;
use vstd::string::StrSliceExecFns;

/// The most query tokens any scoring call accepts; keeps the integer
/// score far from overflow.
pub const MAX_QUERY_TOKENS: usize = 100000;

/// A remote repository candidate as the hosting CLI lists it.
#[derive(Debug)]
pub struct GitHubRepoOption {
    pub name_with_owner: String,
    pub url: String,
    pub is_private: bool,
    pub updated_at: String,
}

impl Clone for GitHubRepoOption {
    fn clone(&self) -> (r: Self)
        ensures
            r == *self,
    {
        GitHubRepoOption {
            name_with_owner: self.name_with_owner.clone(),
            url: self.url.clone(),
            is_private: self.is_private,
            updated_at: self.updated_at.clone(),
        }
    }
}

/// What `str::to_lowercase` computes: a function of the characters
/// alone.
pub uninterp spec fn lower_of(s: Seq<char>) -> Seq<char>;

/// Relies on `str::to_lowercase`: the Unicode-lowercased text, a
/// function of the characters alone; an empty string stays empty.
#[verifier::external_body]
fn lowercase(s: &str) -> (r: String)
    ensures
        r@ == lower_of(s@),
        s@.len() == 0 ==> r@.len() == 0,
{
    s.to_lowercase()
}

/// What `str::split_whitespace` computes: the maximal whitespace-free
/// substrings, a function of the characters alone.
pub uninterp spec fn split_ws_of(s: Seq<char>) -> Seq<Seq<char>>;

/// Relies on `str::split_whitespace`: the non-empty substrings between
/// Unicode whitespace, in order; there are never more of them than the
/// text has characters.
#[verifier::external_body]
fn split_whitespace_vec(s: &str) -> (r: Vec<String>)
    ensures
        r.deep_view() == split_ws_of(s@),
        r@.len() <= s@.len(),
{
    s.split_whitespace().map(|t| t.to_string()).collect()
}

/// `n` occurs as a contiguous substring of `h`.
pub open spec fn spec_contains(h: Seq<char>, n: Seq<char>) -> bool {
    exists|i: int| 0 <= i <= h.len() - n.len() && #[trigger] h.subrange(i, i + n.len()) == n
}

/// `p` is a prefix of `a`.
pub open spec fn spec_starts_with(a: Seq<char>, p: Seq<char>) -> bool {
    p.len() <= a.len() && a.take(p.len() as int) == p
}

/// Substring search.
pub fn str_contains(hay: &str, needle: &str) -> (b: bool)
    ensures
        b == spec_contains(hay@, needle@),
{
    let hv = chars_vec(hay);
    let nv = chars_vec(needle);
    let hn: usize = hv.len();
    let nn: usize = nv.len();
    if nn > hn {
        return false;
    }
    if nn == 0 {
        proof {
            assert(hay@.subrange(0, 0 + needle@.len() as int) =~= needle@);
            assert(spec_contains(hay@, needle@));
        }
        return true;
    }
    let mut i: usize = 0;
    while i <= hn - nn
        invariant
            hv@ == hay@,
            nv@ == needle@,
            hn == hay@.len(),
            nn == needle@.len(),
            1 <= nn <= hn,
            i <= hn - nn + 1,
            forall|ii: int| 0 <= ii < i ==> #[trigger] hay@.subrange(ii, ii + nn) != needle@,
        decreases hn - nn + 1 - i,
    {
        let mut j: usize = 0;
        let mut matched: bool = true;
        while j < nn
            invariant
                hv@ == hay@,
                nv@ == needle@,
                hn == hay@.len(),
                nn == needle@.len(),
                i + nn <= hn,
                j <= nn,
                matched ==> forall|jj: int| 0 <= jj < j ==> hay@[i + jj] == needle@[jj],
                !matched ==> hay@.subrange(i as int, i + nn) != needle@,
            decreases nn - j,
        {
            if hv[i + j] != nv[j] {
                proof {
                    let sub = hay@.subrange(i as int, i + nn);
                    assert(sub[j as int] == hay@[i + j]);
                }
                matched = false;
                j = nn;
            } else {
                j = j + 1;
            }
        }
        if matched {
            proof {
                assert(hay@.subrange(i as int, i + nn) =~= needle@);
            }
            return true;
        }
        i = i + 1;
    }
    proof {
        if spec_contains(hay@, needle@) {
            let w = choose|w: int|
                0 <= w <= hay@.len() - needle@.len() && #[trigger] hay@.subrange(
                    w,
                    w + needle@.len(),
                ) == needle@;
            assert(hay@.subrange(w, w + nn) != needle@);
        }
    }
    false
}

/// Prefix test.
pub fn str_starts_with(a: &str, p: &str) -> (b: bool)
    ensures
        b == spec_starts_with(a@, p@),
{
    let av = chars_vec(a);
    let pv = chars_vec(p);
    if pv.len() > av.len() {
        return false;
    }
    let n: usize = pv.len();
    let mut i: usize = 0;
    while i < n
        invariant
            av@ == a@,
            pv@ == p@,
            n == p@.len(),
            n <= a@.len(),
            i <= n,
            forall|j: int| 0 <= j < i ==> a@[j] == p@[j],
        decreases n - i,
    {
        if av[i] != pv[i] {
            proof {
                assert(a@.take(n as int)[i as int] == a@[i as int]);
            }
            return false;
        }
        i = i + 1;
    }
    proof {
        assert(a@.take(n as int) =~= p@);
    }
    true
}

/// Lexicographic order on character sequences, by code point; the order
/// `String` comparison gives, since UTF-8 preserves code-point order.
pub open spec fn spec_str_le(a: Seq<char>, b: Seq<char>) -> bool
    decreases a.len(),
{
    if a.len() == 0 {
        true
    } else if b.len() == 0 {
        false
    } else if a[0] != b[0] {
        a[0] < b[0]
    } else {
        spec_str_le(a.drop_first(), b.drop_first())
    }
}

/// Dropping an equal prefix does not change the comparison.
proof fn lemma_str_le_skip(a: Seq<char>, b: Seq<char>, i: int)
    requires
        0 <= i <= a.len(),
        i <= b.len(),
        forall|j: int| 0 <= j < i ==> a[j] == b[j],
    ensures
        spec_str_le(a, b) == spec_str_le(a.skip(i), b.skip(i)),
    decreases i,
{
    if i > 0 {
        assert(a[0] == b[0]);
        assert(a.len() > 0 && b.len() > 0);
        let a1 = a.drop_first();
        let b1 = b.drop_first();
        assert forall|j: int| 0 <= j < i - 1 implies a1[j] == b1[j] by {
            assert(a1[j] == a[j + 1] && b1[j] == b[j + 1]);
        }
        lemma_str_le_skip(a1, b1, i - 1);
        assert(a1.skip(i - 1) =~= a.skip(i));
        assert(b1.skip(i - 1) =~= b.skip(i));
    } else {
        assert(a.skip(0) =~= a);
        assert(b.skip(0) =~= b);
    }
}

/// The lexicographic order is total.
pub proof fn lemma_str_le_total(a: Seq<char>, b: Seq<char>)
    ensures
        spec_str_le(a, b) || spec_str_le(b, a),
    decreases a.len(),
{
    if a.len() > 0 && b.len() > 0 && a[0] == b[0] {
        lemma_str_le_total(a.drop_first(), b.drop_first());
    }
}

/// The lexicographic order is antisymmetric.
pub proof fn lemma_str_le_antisym(a: Seq<char>, b: Seq<char>)
    requires
        spec_str_le(a, b),
        spec_str_le(b, a),
    ensures
        a == b,
    decreases a.len(),
{
    if a.len() == 0 {
        assert(b.len() == 0);
        assert(a =~= b);
    } else {
        assert(b.len() > 0);
        assert(a[0] == b[0]);
        lemma_str_le_antisym(a.drop_first(), b.drop_first());
        assert(a.drop_first().len() == b.drop_first().len());
        assert(a.len() == b.len());
        assert forall|j: int| 0 <= j < a.len() implies a[j] == b[j] by {
            if j > 0 {
                assert(a.drop_first()[j - 1] == a[j]);
                assert(b.drop_first()[j - 1] == b[j]);
            }
        }
        assert(a =~= b);
    }
}

/// The lexicographic order is transitive.
pub proof fn lemma_str_le_trans(a: Seq<char>, b: Seq<char>, c: Seq<char>)
    requires
        spec_str_le(a, b),
        spec_str_le(b, c),
    ensures
        spec_str_le(a, c),
    decreases a.len(),
{
    if a.len() > 0 && b.len() > 0 && c.len() > 0 && a[0] == b[0] && b[0] == c[0] {
        lemma_str_le_trans(a.drop_first(), b.drop_first(), c.drop_first());
    }
}

/// The single-token bonus: the highest applicable of exact match,
/// name-prefix, URL-prefix, name-contains, URL-contains.
pub open spec fn spec_bonus(name_l: Seq<char>, url_l: Seq<char>, t: Seq<char>) -> int {
    if name_l == t || url_l == t {
        150
    } else if spec_starts_with(name_l, t) {
        80
    } else if spec_starts_with(url_l, t) {
        60
    } else if spec_contains(name_l, t) {
        30
    } else if spec_contains(url_l, t) {
        20
    } else {
        0
    }
}

/// The sum of the per-token bonuses.
pub open spec fn bonus_sum(name_l: Seq<char>, url_l: Seq<char>, toks: Seq<Seq<char>>) -> int
    decreases toks.len(),
{
    if toks.len() == 0 {
        0
    } else {
        bonus_sum(name_l, url_l, toks.drop_last()) + spec_bonus(name_l, url_l, toks.last())
    }
}

/// The score of a candidate with lowered name `name_l` and lowered URL
/// `url_l` against lowered tokens: 1 for an empty query, 0 when some
/// token is missing from `<name> <url>`, else 10 plus the bonuses.
pub open spec fn spec_score(name_l: Seq<char>, url_l: Seq<char>, toks: Seq<Seq<char>>) -> int {
    if toks.len() == 0 {
        1
    } else if exists|i: int|
        0 <= i < toks.len() && !spec_contains(name_l + " "@ + url_l, #[trigger] toks[i]) {
        0
    } else {
        10 + bonus_sum(name_l, url_l, toks)
    }
}

/// Per-token bonuses never exceed 150 each.
proof fn lemma_bonus_sum_bound(name_l: Seq<char>, url_l: Seq<char>, toks: Seq<Seq<char>>)
    ensures
        0 <= bonus_sum(name_l, url_l, toks) <= 150 * toks.len(),
    decreases toks.len(),
{
    if toks.len() > 0 {
        lemma_bonus_sum_bound(name_l, url_l, toks.drop_last());
    }
}

/// The score of one candidate against the normalized query tokens:
/// exactly `spec_score` of its lowered name and URL.
pub fn repo_match_score(repo: &GitHubRepoOption, query_tokens: &Vec<String>) -> (r: i32)
    requires
        query_tokens@.len() <= MAX_QUERY_TOKENS,
    ensures
        r as int == spec_score(
            lower_of(repo.name_with_owner@),
            lower_of(repo.url@),
            query_tokens.deep_view(),
        ),
{
    if query_tokens.len() == 0 {
        return 1;
    }
    let name = lowercase(repo.name_with_owner.as_str());
    let url = lowercase(repo.url.as_str());
    let with_space = str_concat(name.as_str(), " ");
    let joined = str_concat(with_space.as_str(), url.as_str());
    proof {
        assert(joined@ =~= lower_of(repo.name_with_owner@) + " "@ + lower_of(repo.url@));
    }
    let ghost toks = query_tokens.deep_view();
    let n: usize = query_tokens.len();
    let mut i: usize = 0;
    while i < n
        invariant
            n == query_tokens@.len(),
            toks == query_tokens.deep_view(),
            i <= n,
            joined@ == lower_of(repo.name_with_owner@) + " "@ + lower_of(repo.url@),
            forall|j: int| 0 <= j < i ==> spec_contains(joined@, #[trigger] toks[j]),
        decreases n - i,
    {
        proof {
            assert(toks[i as int] == query_tokens@[i as int]@);
        }
        if !str_contains(joined.as_str(), query_tokens[i].as_str()) {
            return 0;
        }
        i = i + 1;
    }
    let mut score: i32 = 10;
    let mut k: usize = 0;
    while k < n
        invariant
            n == query_tokens@.len(),
            n <= MAX_QUERY_TOKENS,
            toks == query_tokens.deep_view(),
            k <= n,
            name@ == lower_of(repo.name_with_owner@),
            url@ == lower_of(repo.url@),
            score as int == 10 + bonus_sum(name@, url@, toks.take(k as int)),
            0 <= score as int <= 10 + 150 * k,
        decreases n - k,
    {
        proof {
            assert(toks[k as int] == query_tokens@[k as int]@);
            lemma_bonus_sum_bound(name@, url@, toks.take(k as int));
        }
        let t = &query_tokens[k];
        let bonus: i32 = if str_eq(name.as_str(), t.as_str()) || str_eq(url.as_str(), t.as_str()) {
            150
        } else if str_starts_with(name.as_str(), t.as_str()) {
            80
        } else if str_starts_with(url.as_str(), t.as_str()) {
            60
        } else if str_contains(name.as_str(), t.as_str()) {
            30
        } else if str_contains(url.as_str(), t.as_str()) {
            20
        } else {
            0
        };
        score = score + bonus;
        k = k + 1;
        proof {
            let p = toks.take(k as int);
            assert(p.drop_last() =~= toks.take(k - 1));
            assert(p.last() == toks[k - 1]);
        }
    }
    proof {
        assert(toks.take(n as int) =~= toks);
        if exists|i: int| 0 <= i < toks.len() && !spec_contains(joined@, #[trigger] toks[i]) {
            let w = choose|i: int|
                0 <= i < toks.len() && !spec_contains(joined@, #[trigger] toks[i]);
            assert(spec_contains(joined@, toks[w]));
        }
    }
    score
}

/// The normalized tokens of the raw whitespace-split parts: each one
/// trimmed and lowered, empties dropped.
pub open spec fn spec_norm_tokens(parts: Seq<Seq<char>>) -> Seq<Seq<char>>
    decreases parts.len(),
{
    if parts.len() == 0 {
        Seq::empty()
    } else {
        let pre = spec_norm_tokens(parts.drop_last());
        let t = lower_of(spec_trim_spaces(parts.last()));
        if t.len() > 0 {
            pre.push(t)
        } else {
            pre
        }
    }
}

/// Tokenize a query: split on whitespace, trim and lower-case each
/// token, drop what comes out empty.
pub fn normalize_search_tokens(query: &str) -> (r: Vec<String>)
    ensures
        r.deep_view() == spec_norm_tokens(split_ws_of(query@)),
        r@.len() <= query@.len(),
{
    let parts = split_whitespace_vec(query);
    let ghost pv = parts.deep_view();
    let mut tokens: Vec<String> = Vec::new();
    let mut i: usize = 0;
    proof {
        assert(tokens.deep_view() =~~= spec_norm_tokens(pv.take(0)));
    }
    while i < parts.len()
        invariant
            pv == parts.deep_view(),
            pv == split_ws_of(query@),
            i <= parts@.len(),
            parts@.len() == pv.len(),
            tokens.deep_view() == spec_norm_tokens(pv.take(i as int)),
            tokens@.len() <= i,
        decreases parts@.len() - i,
    {
        proof {
            assert(pv[i as int] == parts@[i as int]@);
        }
        let trimmed = trim_string(parts[i].as_str());
        let low = lowercase(trimmed.as_str());
        if low.as_str().unicode_len() > 0 {
            tokens.push(low);
        }
        i = i + 1;
        proof {
            let p = pv.take(i as int);
            assert(p.drop_last() =~= pv.take(i - 1));
            assert(p.last() == pv[i - 1]);
            assert(tokens.deep_view() =~~= spec_norm_tokens(pv.take(i as int)));
        }
    }
    proof {
        assert(pv.take(pv.len() as int) =~= pv);
    }
    tokens
}

/// The suggestion order: higher score first, then most recently updated,
/// then qualified name ascending.
pub open spec fn spec_repo_le(
    toks: Seq<Seq<char>>,
    x: GitHubRepoOption,
    y: GitHubRepoOption,
) -> bool {
    let sx = spec_score(lower_of(x.name_with_owner@), lower_of(x.url@), toks);
    let sy = spec_score(lower_of(y.name_with_owner@), lower_of(y.url@), toks);
    if sx != sy {
        sx > sy
    } else if x.updated_at@ != y.updated_at@ {
        !spec_str_le(x.updated_at@, y.updated_at@)
    } else {
        spec_str_le(x.name_with_owner@, y.name_with_owner@)
    }
}

/// The suggestion order is total.
pub proof fn lemma_repo_le_total(toks: Seq<Seq<char>>, x: GitHubRepoOption, y: GitHubRepoOption)
    ensures
        spec_repo_le(toks, x, y) || spec_repo_le(toks, y, x),
{
    lemma_str_le_total(x.updated_at@, y.updated_at@);
    if spec_str_le(x.updated_at@, y.updated_at@) && spec_str_le(y.updated_at@, x.updated_at@) {
        lemma_str_le_antisym(x.updated_at@, y.updated_at@);
    }
    lemma_str_le_total(x.name_with_owner@, y.name_with_owner@);
}

/// The suggestion order is transitive.
pub proof fn lemma_repo_le_trans(
    toks: Seq<Seq<char>>,
    x: GitHubRepoOption,
    y: GitHubRepoOption,
    z: GitHubRepoOption,
)
    requires
        spec_repo_le(toks, x, y),
        spec_repo_le(toks, y, z),
    ensures
        spec_repo_le(toks, x, z),
{
    lemma_str_le_total(x.updated_at@, y.updated_at@);
    lemma_str_le_total(y.updated_at@, z.updated_at@);
    lemma_str_le_total(x.updated_at@, z.updated_at@);
    if spec_str_le(x.updated_at@, z.updated_at@) && spec_str_le(z.updated_at@, x.updated_at@) {
        lemma_str_le_antisym(x.updated_at@, z.updated_at@);
    }
    if spec_str_le(x.updated_at@, y.updated_at@) && spec_str_le(y.updated_at@, x.updated_at@) {
        lemma_str_le_antisym(x.updated_at@, y.updated_at@);
    }
    if spec_str_le(y.updated_at@, z.updated_at@) && spec_str_le(z.updated_at@, y.updated_at@) {
        lemma_str_le_antisym(y.updated_at@, z.updated_at@);
    }
    if spec_str_le(x.updated_at@, y.updated_at@) && spec_str_le(y.updated_at@, z.updated_at@) {
        lemma_str_le_trans(x.updated_at@, y.updated_at@, z.updated_at@);
    }
    if spec_str_le(z.updated_at@, y.updated_at@) && spec_str_le(y.updated_at@, x.updated_at@) {
        lemma_str_le_trans(z.updated_at@, y.updated_at@, x.updated_at@);
    }
    if spec_str_le(x.name_with_owner@, y.name_with_owner@) && spec_str_le(
        y.name_with_owner@,
        z.name_with_owner@,
    ) {
        lemma_str_le_trans(x.name_with_owner@, y.name_with_owner@, z.name_with_owner@);
    }
}

/// One comparison of the suggestion order.
fn repo_le(x: &GitHubRepoOption, y: &GitHubRepoOption, query_tokens: &Vec<String>) -> (b: bool)
    requires
        query_tokens@.len() <= MAX_QUERY_TOKENS,
    ensures
        b == spec_repo_le(query_tokens.deep_view(), *x, *y),
{
    let sx = repo_match_score(x, query_tokens);
    let sy = repo_match_score(y, query_tokens);
    if sx != sy {
        sx > sy
    } else if !str_eq(x.updated_at.as_str(), y.updated_at.as_str()) {
        !str_lex_le(x.updated_at.as_str(), y.updated_at.as_str())
    } else {
        str_lex_le(x.name_with_owner.as_str(), y.name_with_owner.as_str())
    }
}

/// Lexicographic comparison of two strings.
pub fn str_lex_le(a: &str, b: &str) -> (r: bool)
    ensures
        r == spec_str_le(a@, b@),
{
    let av = chars_vec(a);
    let bv = chars_vec(b);
    let mut i: usize = 0;
    while i < av.len() && i < bv.len()
        invariant
            av@ == a@,
            bv@ == b@,
            i <= a@.len(),
            i <= b@.len(),
            forall|j: int| 0 <= j < i ==> a@[j] == b@[j],
        decreases a@.len() - i,
    {
        if av[i] != bv[i] {
            proof {
                lemma_str_le_skip(a@, b@, i as int);
                assert(a@.skip(i as int)[0] == a@[i as int]);
                assert(b@.skip(i as int)[0] == b@[i as int]);
            }
            return av[i] < bv[i];
        }
        i = i + 1;
    }
    proof {
        lemma_str_le_skip(a@, b@, i as int);
    }
    av.len() <= bv.len()
}

/// Sort candidates by the suggestion order. The result is a sorted
/// permutation of the input.
fn sort_repos(repos: Vec<GitHubRepoOption>, query_tokens: &Vec<String>) -> (r: Vec<
    GitHubRepoOption,
>)
    requires
        query_tokens@.len() <= MAX_QUERY_TOKENS,
    ensures
        r@.to_multiset() == repos@.to_multiset(),
        sorted_by(r@, |x, y| spec_repo_le(query_tokens.deep_view(), x, y)),
{
    broadcast use group_to_multiset_ensures;

    let ghost toks = query_tokens.deep_view();
    let ghost input_ms = repos@.to_multiset();
    let mut rest = repos;
    let mut out: Vec<GitHubRepoOption> = Vec::new();
    while rest.len() > 0
        invariant
            query_tokens@.len() <= MAX_QUERY_TOKENS,
            toks == query_tokens.deep_view(),
            out@.to_multiset().add(rest@.to_multiset()) == input_ms,
            forall|i: int, j: int|
                0 <= i < j < out@.len() ==> spec_repo_le(toks, #[trigger] out@[i], #[trigger] out@[j]),
            forall|i: int, j: int|
                0 <= i < out@.len() && 0 <= j < rest@.len() ==> spec_repo_le(
                    toks,
                    #[trigger] out@[i],
                    #[trigger] rest@[j],
                ),
        decreases rest@.len(),
    {
        let mut m: usize = 0;
        let mut k: usize = 1;
        proof {
            lemma_repo_le_total(toks, rest@[0], rest@[0]);
        }
        while k < rest.len()
            invariant
                query_tokens@.len() <= MAX_QUERY_TOKENS,
                toks == query_tokens.deep_view(),
                rest@.len() > 0,
                1 <= k <= rest@.len(),
                m < rest@.len(),
                forall|j: int|
                    0 <= j < k ==> spec_repo_le(toks, rest@[m as int], #[trigger] rest@[j]),
            decreases rest@.len() - k,
        {
            if !repo_le(&rest[m], &rest[k], query_tokens) {
                proof {
                    lemma_repo_le_total(toks, rest@[m as int], rest@[k as int]);
                    assert forall|j: int| 0 <= j < k + 1 implies spec_repo_le(
                        toks,
                        rest@[k as int],
                        #[trigger] rest@[j],
                    ) by {
                        if j < k {
                            lemma_repo_le_trans(toks, rest@[k as int], rest@[m as int], rest@[j]);
                        } else {
                            lemma_repo_le_total(toks, rest@[k as int], rest@[k as int]);
                        }
                    }
                }
                m = k;
            }
            k = k + 1;
        }
        let ghost old_out = out@;
        let ghost old_rest = rest@;
        let x = rest.remove(m);
        out.push(x);
        proof {
            assert(x == old_rest[m as int]);
            assert(out@ == old_out.push(x));
            assert(rest@ == old_rest.remove(m as int));
            old_out.to_multiset_ensures();
            old_rest.to_multiset_ensures();
            assert(old_out.push(x).to_multiset() =~= old_out.to_multiset().insert(x));
            assert(old_rest.remove(m as int).to_multiset() =~= old_rest.to_multiset().remove(
                old_rest[m as int],
            ));
            assert(old_rest.contains(x)) by {
                assert(old_rest[m as int] == x);
            }
            assert(old_rest.to_multiset().count(x) >= 1);
            assert(out@.to_multiset().add(rest@.to_multiset()) =~= input_ms);
            assert forall|i: int, j: int|
                0 <= i < out@.len() && 0 <= j < rest@.len() implies spec_repo_le(
                toks,
                #[trigger] out@[i],
                #[trigger] rest@[j],
            ) by {
                let oj: int = if j < m {
                    j
                } else {
                    j + 1
                };
                assert(rest@[j] == old_rest[oj]);
                if i < old_out.len() {
                    assert(out@[i] == old_out[i]);
                } else {
                    assert(out@[i] == x);
                }
            }
            assert forall|i: int, j: int| 0 <= i < j < out@.len() implies spec_repo_le(
                toks,
                #[trigger] out@[i],
                #[trigger] out@[j],
            ) by {
                if j < old_out.len() {
                    assert(old_out[i] == out@[i] && old_out[j] == out@[j]);
                } else {
                    assert(out@[j] == x);
                    assert(old_rest[m as int] == x);
                }
            }
        }
    }
    proof {
        rest@.to_multiset_ensures();
        assert(rest@.to_multiset() =~= Multiset::<GitHubRepoOption>::empty()) by {
            assert forall|a: GitHubRepoOption| rest@.to_multiset().count(a) == 0 by {
                if rest@.to_multiset().count(a) > 0 {
                    assert(rest@.contains(a));
                }
            }
        }
        assert(out@.to_multiset() =~= input_ms);
        assert(sorted_by(out@, |x, y| spec_repo_le(toks, x, y)));
    }
    out
}

/// The candidates that score above zero, in order.
pub open spec fn spec_keep(s: Seq<GitHubRepoOption>, toks: Seq<Seq<char>>) -> Seq<
    GitHubRepoOption,
>
    decreases s.len(),
{
    if s.len() == 0 {
        Seq::empty()
    } else {
        let pre = spec_keep(s.drop_last(), toks);
        let x = s.last();
        if spec_score(lower_of(x.name_with_owner@), lower_of(x.url@), toks) > 0 {
            pre.push(x)
        } else {
            pre
        }
    }
}

/// Every candidate that survives filtering scored above zero.
proof fn lemma_keep_positive(s: Seq<GitHubRepoOption>, toks: Seq<Seq<char>>)
    ensures
        forall|i: int|
            0 <= i < spec_keep(s, toks).len() ==> spec_score(
                lower_of((#[trigger] spec_keep(s, toks)[i]).name_with_owner@),
                lower_of(spec_keep(s, toks)[i].url@),
                toks,
            ) > 0,
    decreases s.len(),
{
    if s.len() > 0 {
        lemma_keep_positive(s.drop_last(), toks);
        let pre = spec_keep(s.drop_last(), toks);
        let x = s.last();
        if spec_score(lower_of(x.name_with_owner@), lower_of(x.url@), toks) > 0 {
            assert forall|i: int| 0 <= i < spec_keep(s, toks).len() implies spec_score(
                lower_of((#[trigger] spec_keep(s, toks)[i]).name_with_owner@),
                lower_of(spec_keep(s, toks)[i].url@),
                toks,
            ) > 0 by {
                if i < pre.len() {
                    assert(spec_keep(s, toks)[i] == pre[i]);
                } else {
                    assert(spec_keep(s, toks)[i] == x);
                }
            }
        }
    }
}

/// An empty query filters nothing: every candidate scores the baseline
/// 1 and survives, so ranking only reorders and caps the list.
pub proof fn lemma_empty_query_keeps_every_candidate(
    s: Seq<GitHubRepoOption>,
    toks: Seq<Seq<char>>,
)
    requires
        toks.len() == 0,
    ensures
        spec_keep(s, toks) == s,
        forall|i: int|
            0 <= i < s.len() ==> spec_score(
                lower_of((#[trigger] s[i]).name_with_owner@),
                lower_of(s[i].url@),
                toks,
            ) == 1,
    decreases s.len(),
{
    if s.len() > 0 {
        lemma_empty_query_keeps_every_candidate(s.drop_last(), toks);
        assert(spec_keep(s, toks) =~= s);
    } else {
        assert(spec_keep(s, toks) =~= s);
    }
}

/// Rank the candidate list against a query: sort by the suggestion
/// order, drop the candidates that match no token, and cap the result
/// at twenty. The result is exactly the capped, filtered form of some
/// sorted permutation of the input.
pub fn rank_repositories(repos: Vec<GitHubRepoOption>, query: &str) -> (r: Vec<GitHubRepoOption>)
    requires
        query@.len() <= MAX_QUERY_TOKENS,
    ensures
        ({
            let toks = spec_norm_tokens(split_ws_of(query@));
            exists|full: Seq<GitHubRepoOption>|
                #![trigger full.to_multiset()]
                {
                    &&& full.to_multiset() == repos@.to_multiset()
                    &&& sorted_by(full, |x, y| spec_repo_le(toks, x, y))
                    &&& r@ == (if spec_keep(full, toks).len() <= 20 {
                        spec_keep(full, toks)
                    } else {
                        spec_keep(full, toks).take(20)
                    })
                }
        }),
        r@.len() <= 20,
        forall|i: int|
            0 <= i < r@.len() ==> spec_score(
                lower_of((#[trigger] r@[i]).name_with_owner@),
                lower_of(r@[i].url@),
                spec_norm_tokens(split_ws_of(query@)),
            ) > 0,
{
    let tokens = normalize_search_tokens(query);
    let ghost toks = tokens.deep_view();
    let sorted = sort_repos(repos, &tokens);
    let ghost full = sorted@;
    let mut kept: Vec<GitHubRepoOption> = Vec::new();
    let mut i: usize = 0;
    proof {
        assert(kept@ =~= spec_keep(full.take(0), toks));
    }
    while i < sorted.len()
        invariant
            tokens@.len() <= MAX_QUERY_TOKENS,
            toks == tokens.deep_view(),
            full == sorted@,
            i <= full.len(),
            kept@ == spec_keep(full.take(i as int), toks),
        decreases full.len() - i,
    {
        if repo_match_score(&sorted[i], &tokens) > 0 {
            kept.push(sorted[i].clone());
        }
        i = i + 1;
        proof {
            let p = full.take(i as int);
            assert(p.drop_last() =~= full.take(i - 1));
            assert(p.last() == full[i - 1]);
        }
    }
    proof {
        assert(full.take(full.len() as int) =~= full);
        assert(kept@ == spec_keep(full, toks));
    }
    kept.truncate(20);
    proof {
        let toks2 = spec_norm_tokens(split_ws_of(query@));
        assert(toks2 == toks);
        lemma_keep_positive(full, toks);
        assert forall|i: int| 0 <= i < kept@.len() implies spec_score(
            lower_of((#[trigger] kept@[i]).name_with_owner@),
            lower_of(kept@[i].url@),
            toks2,
        ) > 0 by {
            assert(kept@[i] == spec_keep(full, toks)[i]);
        }
        assert(full.to_multiset() == repos@.to_multiset());
        assert(sorted_by(full, |x, y| spec_repo_le(toks2, x, y)));
        assert(kept@ == (if spec_keep(full, toks2).len() <= 20 {
            spec_keep(full, toks2)
        } else {
            spec_keep(full, toks2).take(20)
        }));
    }
    kept
}

} // verus!
