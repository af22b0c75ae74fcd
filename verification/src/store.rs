//! The workspace registry: an in-memory catalog of workspace records plus
//! the optional active workspace id, with uniqueness and single-active
//! invariants re-established by every mutation. Persistence of the
//! catalog is a separate concern (see `registry_json`).

use vstd::prelude::*;

verus! {

use crate::errors::WorkspaceError;
use crate::model::{now_iso8601, Workspace, WorkspaceStatus};
use crate::registry_json::{jregistry, p_registry, parse_registry, registry_to_json, view_of,
    views_of, WorkspaceView};
use crate::strings::{str_concat, str_eq};
use vstd::string::StringExecFns;

/// Durable store of workspace records; owns the uniqueness and
/// single-active invariants.
#[derive(Debug)]
pub struct WorkspaceStore {
    pub(crate) app_data_dir: String,
    pub(crate) workspaces: Vec<Workspace>,
    pub(crate) active_workspace_id: Option<String>,
}

/// Whether some record in `s` carries the id `id`.
pub open spec fn has_ws(s: Seq<Workspace>, id: Seq<char>) -> bool {
    exists|i: int| 0 <= i < s.len() && (#[trigger] s[i]).id@ == id
}

/// The index of the first record in `s` with id `id`, or `-1`.
pub open spec fn find_ws(s: Seq<Workspace>, id: Seq<char>) -> int
    decreases s.len(),
{
    if s.len() == 0 {
        -1
    } else if s[0].id@ == id {
        0
    } else {
        let r = find_ws(s.drop_first(), id);
        if r == -1 {
            -1
        } else {
            r + 1
        }
    }
}

/// `find_ws` finds the first matching index, and `-1` exactly when no
/// record matches.
pub proof fn lemma_find_ws(s: Seq<Workspace>, id: Seq<char>)
    ensures
        (find_ws(s, id) == -1) ==> !has_ws(s, id),
        find_ws(s, id) != -1 ==> 0 <= find_ws(s, id) < s.len() && s[find_ws(s, id)].id@ == id
            && (forall|j: int| 0 <= j < find_ws(s, id) ==> (#[trigger] s[j]).id@ != id),
    decreases s.len(),
{
    if s.len() == 0 {
    } else if s[0].id@ == id {
    } else {
        let t = s.drop_first();
        lemma_find_ws(t, id);
        if find_ws(t, id) == -1 {
            if has_ws(s, id) {
                let i = choose|i: int| 0 <= i < s.len() && (#[trigger] s[i]).id@ == id;
                assert(i != 0);
                assert(t[i - 1] == s[i]);
                assert(has_ws(t, id));
                assert(false);
            }
        } else {
            let r = find_ws(t, id);
            assert(s[r + 1] == t[r]);
            assert forall|j: int| 0 <= j < r + 1 implies (#[trigger] s[j]).id@ != id by {
                if j > 0 {
                    assert(t[j - 1] == s[j]);
                }
            }
        }
    }
}

/// The active pointer after an operation that touches the record `id`:
/// cleared iff it pointed at that record.
pub open spec fn cleared_active(active: Option<Seq<char>>, id: Seq<char>) -> Option<Seq<char>> {
    match active {
        Some(a) => if a == id {
            None
        } else {
            Some(a)
        },
        None => None,
    }
}

/// Fields an update never touches: everything but status and timestamps.
pub open spec fn same_core(a: Workspace, b: Workspace) -> bool {
    &&& b.id == a.id
    &&& b.name == a.name
    &&& b.source_type == a.source_type
    &&& b.source == a.source
    &&& b.repo_root_path == a.repo_root_path
    &&& b.worktree_path == a.worktree_path
    &&& b.branch == a.branch
    &&& b.base_ref == a.base_ref
    &&& b.created_at == a.created_at
}

/// `b` is `a` stamped by `set_active` at time `now`.
pub open spec fn stamped_active(a: Workspace, b: Workspace, now: Seq<char>) -> bool {
    &&& same_core(a, b)
    &&& b.status == a.status
    &&& b.updated_at@ == now
    &&& b.last_opened_at matches Some(t) && t@ == now
}

/// `b` is `a` archived at time `now`.
pub open spec fn stamped_archived(a: Workspace, b: Workspace, now: Seq<char>) -> bool {
    &&& same_core(a, b)
    &&& b.status == WorkspaceStatus::Archived
    &&& b.updated_at@ == now
    &&& b.last_opened_at == a.last_opened_at
}

/// The message every unknown-id operation fails with.
pub open spec fn spec_not_found_msg(id: Seq<char>) -> Seq<char> {
    "Workspace not found: "@ + id
}

fn not_found(id: &str) -> (r: WorkspaceError)
    ensures
        r matches WorkspaceError::NotFound(m) && m@ == spec_not_found_msg(id@),
{
    WorkspaceError::NotFound(str_concat("Workspace not found: ", id))
}

impl WorkspaceStore {
    /// The records, in insertion order.
    pub closed spec fn records(&self) -> Seq<Workspace> {
        self.workspaces@
    }

    /// The active workspace id, as text.
    pub closed spec fn active_id(&self) -> Option<Seq<char>> {
        match self.active_workspace_id {
            Some(ref s) => Some(s@),
            None => None,
        }
    }

    /// The application data directory this store was created with.
    pub closed spec fn data_dir(&self) -> Seq<char> {
        self.app_data_dir@
    }

    /// The registry invariants: unique ids, a valid active pointer, a
    /// worktree path distinct from the origin path, and no record on the
    /// literal `main`/`master` branch.
    pub open spec fn wf(&self) -> bool {
        &&& forall|i: int, j: int|
            0 <= i < j < self.records().len() ==> (#[trigger] self.records()[i]).id@ != (
            #[trigger] self.records()[j]).id@
        &&& match self.active_id() {
            Some(a) => has_ws(self.records(), a),
            None => true,
        }
        &&& forall|i: int|
            0 <= i < self.records().len() ==> (#[trigger] self.records()[i]).worktree_path@
                != self.records()[i].repo_root_path@
        &&& forall|i: int|
            0 <= i < self.records().len() ==> (#[trigger] self.records()[i]).branch@ != "main"@
                && self.records()[i].branch@ != "master"@
    }

    /// An empty store rooted at the given application data directory.
    pub fn new(app_data_dir: &str) -> (r: Self)
        ensures
            r.records() == Seq::<Workspace>::empty(),
            r.active_id() is None,
            r.data_dir() == app_data_dir@,
            r.wf(),
    {
        let r = WorkspaceStore {
            app_data_dir: String::from_str(app_data_dir),
            workspaces: Vec::new(),
            active_workspace_id: None,
        };
        proof {
            assert(r.records() =~= Seq::<Workspace>::empty());
        }
        r
    }

    /// The path of the registry file under the data directory.
    pub fn registry_path(&self) -> (r: String)
        ensures
            r@ == self.data_dir() + "/workspaces/workspaces.json"@,
    {
        str_concat(self.app_data_dir.as_str(), "/workspaces/workspaces.json")
    }

    /// A copy of all records, in insertion order.
    pub fn list(&self) -> (r: Vec<Workspace>)
        ensures
            r@ == self.records(),
    {
        let mut out: Vec<Workspace> = Vec::new();
        let mut i: usize = 0;
        while i < self.workspaces.len()
            invariant
                i <= self.records().len(),
                out@ == self.records().take(i as int),
            decreases self.records().len() - i,
        {
            out.push(self.workspaces[i].clone());
            i = i + 1;
            proof {
                assert(out@ =~= self.records().take(i as int));
            }
        }
        proof {
            assert(self.records().take(self.records().len() as int) =~= self.records());
        }
        out
    }

    /// Append a record. The caller guarantees what the registry
    /// invariants demand of a new record: a fresh id, a worktree path
    /// distinct from the origin, and a branch that is not `main`/`master`.
    pub fn insert(&mut self, workspace: Workspace)
        requires
            old(self).wf(),
            !has_ws(old(self).records(), workspace.id@),
            workspace.worktree_path@ != workspace.repo_root_path@,
            workspace.branch@ != "main"@,
            workspace.branch@ != "master"@,
        ensures
            final(self).records() == old(self).records().push(workspace),
            final(self).active_id() == old(self).active_id(),
            final(self).data_dir() == old(self).data_dir(),
            final(self).wf(),
    {
        self.workspaces.push(workspace);
        proof {
            let s = self.records();
            let o = old(self).records();
            assert forall|i: int, j: int| 0 <= i < j < s.len() implies (#[trigger] s[i]).id@ != (
            #[trigger] s[j]).id@ by {
                if j < o.len() {
                    assert(s[i] == o[i] && s[j] == o[j]);
                } else {
                    assert(s[j] == workspace);
                    assert(s[i] == o[i]);
                    assert(!(0 <= i < o.len() && o[i].id@ == workspace.id@));
                }
            }
            match self.active_id() {
                Some(a) => {
                    let i = choose|i: int| 0 <= i < o.len() && (#[trigger] o[i]).id@ == a;
                    assert(s[i] == o[i]);
                    assert(has_ws(s, a));
                },
                None => {},
            }
        }
    }

    fn find_index(&self, id: &str) -> (r: Option<usize>)
        ensures
            match r {
                Some(k) => k as int == find_ws(self.records(), id@),
                None => find_ws(self.records(), id@) == -1,
            },
    {
        let mut i: usize = 0;
        while i < self.workspaces.len()
            invariant
                i <= self.records().len(),
                forall|j: int| 0 <= j < i ==> (#[trigger] self.records()[j]).id@ != id@,
            decreases self.records().len() - i,
        {
            if str_eq(self.workspaces[i].id.as_str(), id) {
                proof {
                    lemma_find_ws(self.records(), id@);
                    let f = find_ws(self.records(), id@);
                    assert(has_ws(self.records(), id@));
                    assert(f != -1);
                    assert(!(f < i) && !(f > i));
                }
                return Some(i);
            }
            i = i + 1;
        }
        proof {
            lemma_find_ws(self.records(), id@);
            let f = find_ws(self.records(), id@);
            if f != -1 {
                assert(self.records()[f].id@ == id@);
                assert(false);
            }
        }
        None
    }

    /// The currently active workspace id, if any.
    pub fn active_workspace_id(&self) -> (r: Option<String>)
        ensures
            match r {
                Some(s) => self.active_id() == Some(s@),
                None => self.active_id() is None,
            },
    {
        match &self.active_workspace_id {
            Some(s) => Some(s.clone()),
            None => None,
        }
    }

    /// Mark the workspace `id` active at time `now`: stamp its
    /// `updated_at`/`last_opened_at` and point the active id at it.
    /// Fails with `NotFound` iff no record has that id, leaving the store
    /// unchanged.
    pub fn set_active_at(&mut self, id: &str, now: &str) -> (r: Result<(), WorkspaceError>)
        requires
            old(self).wf(),
        ensures
            final(self).data_dir() == old(self).data_dir(),
            final(self).wf(),
            ({
                let k = find_ws(old(self).records(), id@);
                if k == -1 {
                    &&& r matches Err(e) && e matches WorkspaceError::NotFound(m) && m@
                        == spec_not_found_msg(id@)
                    &&& final(self).records() == old(self).records()
                    &&& final(self).active_id() == old(self).active_id()
                } else {
                    &&& r matches Ok(u)
                    &&& final(self).records().len() == old(self).records().len()
                    &&& forall|j: int|
                        0 <= j < old(self).records().len() && j != k ==> final(self).records()[j]
                            == old(self).records()[j]
                    &&& stamped_active(old(self).records()[k], final(self).records()[k], now@)
                    &&& final(self).active_id() == Some(id@)
                }
            }),
    {
        proof {
            lemma_find_ws(old(self).records(), id@);
        }
        match self.find_index(id) {
            None => Err(not_found(id)),
            Some(k) => {
                self.workspaces[k].updated_at = String::from_str(now);
                self.workspaces[k].last_opened_at = Some(String::from_str(now));
                self.active_workspace_id = Some(String::from_str(id));
                proof {
                    let s = self.records();
                    let o = old(self).records();
                    assert forall|i: int, j: int| 0 <= i < j < s.len() implies (
                    #[trigger] s[i]).id@ != (#[trigger] s[j]).id@ by {
                        assert(s[i].id == o[i].id && s[j].id == o[j].id);
                    }
                    assert(s[k as int].id@ == id@);
                    assert(has_ws(s, id@));
                }
                Ok(())
            },
        }
    }

    /// Mark the workspace `id` active now. Fails with `NotFound` iff no
    /// record has that id.
    pub fn set_active(&mut self, id: &str) -> (r: Result<(), WorkspaceError>)
        requires
            old(self).wf(),
        ensures
            final(self).data_dir() == old(self).data_dir(),
            final(self).wf(),
            ({
                let k = find_ws(old(self).records(), id@);
                if k == -1 {
                    &&& r matches Err(e) && e matches WorkspaceError::NotFound(m) && m@
                        == spec_not_found_msg(id@)
                    &&& final(self).records() == old(self).records()
                    &&& final(self).active_id() == old(self).active_id()
                } else {
                    &&& r matches Ok(u)
                    &&& final(self).records().len() == old(self).records().len()
                    &&& forall|j: int|
                        0 <= j < old(self).records().len() && j != k ==> final(self).records()[j]
                            == old(self).records()[j]
                    &&& exists|t: Seq<char>|
                        stamped_active(
                            old(self).records()[k],
                            #[trigger] final(self).records()[k],
                            t,
                        )
                    &&& final(self).active_id() == Some(id@)
                }
            }),
    {
        let now = now_iso8601();
        self.set_active_at(id, now.as_str())
    }

    /// Archive the workspace `id` at time `now`: set its status to
    /// `Archived`, stamp `updated_at`, and clear the active pointer iff it
    /// pointed at this id. Fails with `NotFound` iff no record has that
    /// id, leaving the store unchanged.
    pub fn archive_at(&mut self, id: &str, now: &str) -> (r: Result<(), WorkspaceError>)
        requires
            old(self).wf(),
        ensures
            final(self).data_dir() == old(self).data_dir(),
            final(self).wf(),
            ({
                let k = find_ws(old(self).records(), id@);
                if k == -1 {
                    &&& r matches Err(e) && e matches WorkspaceError::NotFound(m) && m@
                        == spec_not_found_msg(id@)
                    &&& final(self).records() == old(self).records()
                    &&& final(self).active_id() == old(self).active_id()
                } else {
                    &&& r matches Ok(u)
                    &&& final(self).records().len() == old(self).records().len()
                    &&& forall|j: int|
                        0 <= j < old(self).records().len() && j != k ==> final(self).records()[j]
                            == old(self).records()[j]
                    &&& stamped_archived(old(self).records()[k], final(self).records()[k], now@)
                    &&& final(self).active_id() == cleared_active(old(self).active_id(), id@)
                }
            }),
    {
        proof {
            lemma_find_ws(old(self).records(), id@);
        }
        match self.find_index(id) {
            None => Err(not_found(id)),
            Some(k) => {
                self.workspaces[k].status = WorkspaceStatus::Archived;
                self.workspaces[k].updated_at = String::from_str(now);
                let clear = match &self.active_workspace_id {
                    Some(a) => str_eq(a.as_str(), id),
                    None => false,
                };
                if clear {
                    self.active_workspace_id = None;
                }
                proof {
                    let s = self.records();
                    let o = old(self).records();
                    assert forall|i: int, j: int| 0 <= i < j < s.len() implies (
                    #[trigger] s[i]).id@ != (#[trigger] s[j]).id@ by {
                        assert(s[i].id == o[i].id && s[j].id == o[j].id);
                    }
                    match self.active_id() {
                        Some(a) => {
                            let i = choose|i: int| 0 <= i < o.len() && (#[trigger] o[i]).id@ == a;
                            assert(s[i].id == o[i].id);
                            assert(has_ws(s, a));
                        },
                        None => {},
                    }
                }
                Ok(())
            },
        }
    }

    /// Archive the workspace `id` now; clears the active pointer iff it
    /// pointed at this id. Fails with `NotFound` iff no record has that id.
    pub fn archive(&mut self, id: &str) -> (r: Result<(), WorkspaceError>)
        requires
            old(self).wf(),
        ensures
            final(self).data_dir() == old(self).data_dir(),
            final(self).wf(),
            ({
                let k = find_ws(old(self).records(), id@);
                if k == -1 {
                    &&& r matches Err(e) && e matches WorkspaceError::NotFound(m) && m@
                        == spec_not_found_msg(id@)
                    &&& final(self).records() == old(self).records()
                    &&& final(self).active_id() == old(self).active_id()
                } else {
                    &&& r matches Ok(u)
                    &&& final(self).records().len() == old(self).records().len()
                    &&& forall|j: int|
                        0 <= j < old(self).records().len() && j != k ==> final(self).records()[j]
                            == old(self).records()[j]
                    &&& exists|t: Seq<char>|
                        stamped_archived(
                            old(self).records()[k],
                            #[trigger] final(self).records()[k],
                            t,
                        )
                    &&& final(self).active_id() == cleared_active(old(self).active_id(), id@)
                }
            }),
    {
        let now = now_iso8601();
        self.archive_at(id, now.as_str())
    }

    /// Remove the workspace `id` and return the removed record; clears the
    /// active pointer iff it pointed at this id. Fails with `NotFound` iff
    /// no record has that id, leaving the store unchanged.
    pub fn remove(&mut self, id: &str) -> (r: Result<Workspace, WorkspaceError>)
        requires
            old(self).wf(),
        ensures
            final(self).data_dir() == old(self).data_dir(),
            final(self).wf(),
            ({
                let k = find_ws(old(self).records(), id@);
                if k == -1 {
                    &&& r matches Err(e) && e matches WorkspaceError::NotFound(m) && m@
                        == spec_not_found_msg(id@)
                    &&& final(self).records() == old(self).records()
                    &&& final(self).active_id() == old(self).active_id()
                } else {
                    &&& r matches Ok(w) && w == old(self).records()[k]
                    &&& final(self).records() == old(self).records().remove(k)
                    &&& final(self).active_id() == cleared_active(old(self).active_id(), id@)
                }
            }),
    {
        proof {
            lemma_find_ws(old(self).records(), id@);
        }
        match self.find_index(id) {
            None => Err(not_found(id)),
            Some(k) => {
                let removed = self.workspaces.remove(k);
                let clear = match &self.active_workspace_id {
                    Some(a) => str_eq(a.as_str(), id),
                    None => false,
                };
                if clear {
                    self.active_workspace_id = None;
                }
                proof {
                    let s = self.records();
                    let o = old(self).records();
                    assert forall|i: int, j: int| 0 <= i < j < s.len() implies (
                    #[trigger] s[i]).id@ != (#[trigger] s[j]).id@ by {
                        let oi: int = if i < k { i } else { i + 1 };
                        let oj: int = if j < k { j } else { j + 1 };
                        assert(s[i] == o[oi] && s[j] == o[oj]);
                    }
                    match self.active_id() {
                        Some(a) => {
                            let i = choose|i: int| 0 <= i < o.len() && (#[trigger] o[i]).id@ == a;
                            assert(a != id@);
                            assert(o[k as int].id@ == id@);
                            assert(i != k);
                            let ni: int = if i < k { i } else { i - 1 };
                            assert(s[ni] == o[i]);
                            assert(has_ws(s, a));
                        },
                        None => {},
                    }
                }
                Ok(removed)
            },
        }
    }
}

/// Every record of a well-formed registry keeps the per-record
/// invariants: its worktree path differs from its origin repository
/// path, and its branch is never the literal `main` or `master`. Since
/// every mutation of the store re-establishes `wf`, this holds of every
/// successfully created workspace for as long as it is listed.
pub proof fn lemma_registry_record_invariants(st: WorkspaceStore)
    requires
        st.wf(),
    ensures
        forall|i: int|
            0 <= i < st.records().len() ==> (#[trigger] st.records()[i]).worktree_path@
                != st.records()[i].repo_root_path@,
        forall|i: int|
            0 <= i < st.records().len() ==> (#[trigger] st.records()[i]).branch@ != "main"@
                && st.records()[i].branch@ != "master"@,
        st.active_id() matches Some(a) ==> has_ws(st.records(), a),
{
}

/// A well-formed store's contents satisfy the parsed-file invariants,
/// so the text a store renders always loads back successfully: together
/// with `lemma_registry_round_trip`, saving any catalog and reloading
/// it yields the same records, in order, and the same active id.
pub proof fn lemma_wf_views(st: WorkspaceStore)
    requires
        st.wf(),
    ensures
        views_wf(views_of(st.records()), st.active_id()),
{
    let vs = views_of(st.records());
    assert forall|i: int| 0 <= i < st.records().len() implies vs[i] == view_of(
        #[trigger] st.records()[i],
    ) by {}
    assert forall|i: int, j: int| 0 <= i < j < vs.len() implies (#[trigger] vs[i]).id != (
    #[trigger] vs[j]).id by {
        assert(st.records()[i].id@ != st.records()[j].id@);
    }
    match st.active_id() {
        Some(a) => {
            assert(has_ws(st.records(), a));
            let k = choose|k: int|
                0 <= k < st.records().len() && (#[trigger] st.records()[k]).id@ == a;
            assert(vs[k].id == a);
        },
        None => {},
    }
    assert forall|i: int| 0 <= i < vs.len() implies (#[trigger] vs[i]).worktree_path
        != vs[i].repo_root_path by {
        assert(st.records()[i].worktree_path@ != st.records()[i].repo_root_path@);
    }
    assert forall|i: int| 0 <= i < vs.len() implies (#[trigger] vs[i]).branch != "main"@
        && vs[i].branch != "master"@ by {
        assert(st.records()[i].branch@ != "main"@ && st.records()[i].branch@ != "master"@);
    }
}

/// The registry invariants, stated of a parsed file's contents.
pub open spec fn views_wf(vs: Seq<WorkspaceView>, act: Option<Seq<char>>) -> bool {
    &&& forall|i: int, j: int|
        0 <= i < j < vs.len() ==> (#[trigger] vs[i]).id != (#[trigger] vs[j]).id
    &&& match act {
        Some(a) => exists|i: int| 0 <= i < vs.len() && (#[trigger] vs[i]).id == a,
        None => true,
    }
    &&& forall|i: int|
        0 <= i < vs.len() ==> (#[trigger] vs[i]).worktree_path != vs[i].repo_root_path
    &&& forall|i: int|
        0 <= i < vs.len() ==> (#[trigger] vs[i]).branch != "main"@ && vs[i].branch != "master"@
}

/// Check a parsed file's contents against the registry invariants.
fn records_valid(workspaces: &Vec<Workspace>, active: &Option<String>) -> (b: bool)
    ensures
        b == views_wf(
            views_of(workspaces@),
            match active {
                Some(a) => Some(a@),
                None => None,
            },
        ),
{
    let ghost vs = views_of(workspaces@);
    proof {
        assert forall|i: int| 0 <= i < workspaces@.len() implies vs[i] == view_of(
            #[trigger] workspaces@[i],
        ) by {}
    }
    let n: usize = workspaces.len();
    let mut i: usize = 0;
    while i < n
        invariant
            vs == views_of(workspaces@),
            n == workspaces@.len(),
            i <= n,
            forall|a: int, b: int| 0 <= a < b < n && a < i ==> (#[trigger] vs[a]).id != (
            #[trigger] vs[b]).id,
            forall|a: int|
                0 <= a < i ==> (#[trigger] vs[a]).worktree_path != vs[a].repo_root_path,
            forall|a: int|
                0 <= a < i ==> (#[trigger] vs[a]).branch != "main"@ && vs[a].branch != "master"@,
        decreases n - i,
    {
        if str_eq(workspaces[i].worktree_path.as_str(), workspaces[i].repo_root_path.as_str()) {
            return false;
        }
        if str_eq(workspaces[i].branch.as_str(), "main") || str_eq(
            workspaces[i].branch.as_str(),
            "master",
        ) {
            return false;
        }
        let mut j: usize = i + 1;
        while j < n
            invariant
                vs == views_of(workspaces@),
                n == workspaces@.len(),
                i < j <= n,
                i < n,
                forall|b: int| i < b < j ==> (#[trigger] vs[b]).id != vs[i as int].id,
            decreases n - j,
        {
            if str_eq(workspaces[i].id.as_str(), workspaces[j].id.as_str()) {
                proof {
                    assert(vs[i as int].id == workspaces@[i as int].id@);
                    assert(vs[j as int].id == workspaces@[j as int].id@);
                    assert(vs[i as int].id == vs[j as int].id);
                }
                return false;
            }
            j = j + 1;
        }
        i = i + 1;
    }
    match active {
        None => true,
        Some(a) => {
            let mut k: usize = 0;
            while k < n
                invariant
                    vs == views_of(workspaces@),
                    n == workspaces@.len(),
                    k <= n,
                    active matches Some(aa) && aa == a,
                    forall|b: int| 0 <= b < k ==> (#[trigger] vs[b]).id != a@,
                    forall|x: int, y: int| 0 <= x < y < n ==> (#[trigger] vs[x]).id != (
                    #[trigger] vs[y]).id,
                    forall|x: int|
                        0 <= x < n ==> (#[trigger] vs[x]).worktree_path != vs[x].repo_root_path,
                    forall|x: int|
                        0 <= x < n ==> (#[trigger] vs[x]).branch != "main"@ && vs[x].branch
                            != "master"@,
                decreases n - k,
            {
                if str_eq(workspaces[k].id.as_str(), a.as_str()) {
                    proof {
                        assert(vs[k as int].id == workspaces@[k as int].id@);
                        assert(vs[k as int].id == a@);
                        assert(views_of(workspaces@)[k as int].id == a@);
                        assert(exists|b: int|
                            0 <= b < views_of(workspaces@).len() && (#[trigger] views_of(
                                workspaces@,
                            )[b]).id == a@);
                        assert(views_wf(vs, Some(a@)));
                    }
                    return true;
                }
                k = k + 1;
            }
            false
        },
    }
}

impl WorkspaceStore {
    /// Render this store's catalog as the canonical registry file text.
    pub fn to_json(&self) -> (r: String)
        ensures
            r@ == jregistry(views_of(self.records()), self.active_id()),
    {
        registry_to_json(&self.workspaces, &self.active_workspace_id)
    }

    /// Rebuild a store from registry file text. Text that is not a
    /// registry rendering, or one whose contents break the registry
    /// invariants, is rejected as malformed state.
    pub fn from_json(app_data_dir: &str, content: &str) -> (r: Result<
        WorkspaceStore,
        WorkspaceError,
    >)
        ensures
            match r {
                Ok(st) => {
                    &&& st.wf()
                    &&& st.data_dir() == app_data_dir@
                    &&& p_registry(content@) matches Some(p)
                    &&& views_of(st.records()) == p.0
                    &&& st.active_id() == p.1
                },
                Err(e) => {
                    &&& e matches WorkspaceError::Serde(m)
                    &&& match p_registry(content@) {
                        None => m@ == "Registry file is not valid registry JSON"@,
                        Some(p) => !views_wf(p.0, p.1) && m@
                            == "Registry file violates registry invariants"@,
                    }
                },
            },
    {
        match parse_registry(content) {
            None => Err(
                WorkspaceError::Serde(String::from_str("Registry file is not valid registry JSON")),
            ),
            Some((ws, act)) => {
                if records_valid(&ws, &act) {
                    let st = WorkspaceStore {
                        app_data_dir: String::from_str(app_data_dir),
                        workspaces: ws,
                        active_workspace_id: act,
                    };
                    proof {
                        let vs = views_of(st.records());
                        assert forall|i: int| 0 <= i < st.records().len() implies vs[i] == view_of(
                            #[trigger] st.records()[i],
                        ) by {}
                        assert forall|i: int, j: int|
                            0 <= i < j < st.records().len() implies (
                        #[trigger] st.records()[i]).id@ != (#[trigger] st.records()[j]).id@ by {
                            assert(vs[i].id != vs[j].id);
                        }
                        match st.active_id() {
                            Some(a) => {
                                let i = choose|i: int|
                                    0 <= i < vs.len() && (#[trigger] vs[i]).id == a;
                                assert(st.records()[i].id@ == a);
                                assert(has_ws(st.records(), a));
                            },
                            None => {},
                        }
                        assert forall|i: int| 0 <= i < st.records().len() implies (
                        #[trigger] st.records()[i]).worktree_path@
                            != st.records()[i].repo_root_path@ by {
                            assert(vs[i].worktree_path != vs[i].repo_root_path);
                        }
                        assert forall|i: int| 0 <= i < st.records().len() implies (
                        #[trigger] st.records()[i]).branch@ != "main"@ && st.records()[i].branch@
                            != "master"@ by {
                            assert(vs[i].branch != "main"@ && vs[i].branch != "master"@);
                        }
                    }
                    Ok(st)
                } else {
                    Err(
                        WorkspaceError::Serde(
                            String::from_str("Registry file violates registry invariants"),
                        ),
                    )
                }
            },
        }
    }
}

} // verus!
