//! Workspaces: named collections of parts that a user works on together, kept in memory.

use vstd::prelude::*;
use crate::text::{owned, push_str, str_eq, decimal, u64_to_decimal, i64_to_decimal, signed_decimal};
use crate::clock::{now_rfc3339, is_clock_error, is_instant_text};

verus! {

/// A part as a workspace lists it.
#[derive(Debug)]
pub struct WorkspacePart {
    /// Part ID.
    pub id: i64,
    /// Part number.
    pub part_number: String,
    /// Part name.
    pub name: String,
    /// Part status.
    pub status: String,
}

/// The texts of a workspace part.
pub struct WorkspacePartView {
    /// Part ID.
    pub id: i64,
    /// Part number.
    pub part_number: Seq<char>,
    /// Part name.
    pub name: Seq<char>,
    /// Part status.
    pub status: Seq<char>,
}

impl View for WorkspacePart {
    type V = WorkspacePartView;

    open spec fn view(&self) -> WorkspacePartView {
        WorkspacePartView {
            id: self.id,
            part_number: self.part_number@,
            name: self.name@,
            status: self.status@,
        }
    }
}

impl Clone for WorkspacePart {
    fn clone(&self) -> (r: WorkspacePart)
        ensures
            r@ == self@,
    {
        WorkspacePart {
            id: self.id,
            part_number: self.part_number.clone(),
            name: self.name.clone(),
            status: self.status.clone(),
        }
    }
}

/// A workspace.
#[derive(Debug)]
pub struct Workspace {
    /// Workspace ID.
    pub id: String,
    /// Workspace name.
    pub name: String,
    /// Workspace description.
    pub description: String,
    /// When it was created.
    pub created_at: String,
    /// When it was last changed.
    pub updated_at: String,
    /// The parts in the workspace, in the order they were added.
    pub parts: Vec<WorkspacePart>,
}

/// The texts of a workspace.
pub struct WorkspaceView {
    /// Workspace ID.
    pub id: Seq<char>,
    /// Workspace name.
    pub name: Seq<char>,
    /// Workspace description.
    pub description: Seq<char>,
    /// When it was created.
    pub created_at: Seq<char>,
    /// When it was last changed.
    pub updated_at: Seq<char>,
    /// The parts in the workspace.
    pub parts: Seq<WorkspacePartView>,
}

/// The views of a list of parts.
pub open spec fn part_views(v: Seq<WorkspacePart>) -> Seq<WorkspacePartView> {
    v.map_values(|p: WorkspacePart| p@)
}

impl View for Workspace {
    type V = WorkspaceView;

    open spec fn view(&self) -> WorkspaceView {
        WorkspaceView {
            id: self.id@,
            name: self.name@,
            description: self.description@,
            created_at: self.created_at@,
            updated_at: self.updated_at@,
            parts: part_views(self.parts@),
        }
    }
}

/// A copy of a list of parts.
fn copy_parts(parts: &Vec<WorkspacePart>) -> (r: Vec<WorkspacePart>)
    ensures
        part_views(r@) == part_views(parts@),
{
    let mut r: Vec<WorkspacePart> = Vec::new();
    for i in 0..parts.len()
        invariant
            part_views(r@) == part_views(parts@.subrange(0, i as int)),
    {
        let ghost before = r@;
        let c = parts[i].clone();
        r.push(c);
        assert(r@ == before.push(c));
        assert(part_views(r@) =~= part_views(before).push(parts@[i as int]@));
        assert(part_views(parts@.subrange(0, i + 1)) =~= part_views(parts@.subrange(0, i as int)).push(parts@[i as int]@));
    }
    assert(parts@.subrange(0, parts.len() as int) =~= parts@);
    r
}

impl Clone for Workspace {
    fn clone(&self) -> (r: Workspace)
        ensures
            r@ == self@,
    {
        let parts = copy_parts(&self.parts);
        Workspace {
            id: self.id.clone(),
            name: self.name.clone(),
            description: self.description.clone(),
            created_at: self.created_at.clone(),
            updated_at: self.updated_at.clone(),
            parts,
        }
    }
}

/// What a new workspace is given.
#[derive(Debug, Clone)]
pub struct WorkspaceCreationData {
    /// Workspace name.
    pub name: String,
    /// Workspace description.
    pub description: String,
}

/// What is changed in a workspace; a field left out stays as it is.
#[derive(Debug, Clone)]
pub struct WorkspaceUpdateData {
    /// New name.
    pub name: Option<String>,
    /// New description.
    pub description: Option<String>,
}

/// The identifier of the `n`th workspace created: `ws-<n>`.
pub open spec fn ws_id(n: nat) -> Seq<char> {
    "ws-"@ + decimal(n)
}

/// The first position at or after `i` of a workspace of `ws` whose identifier is `id`.
pub open spec fn index_from(ws: Seq<WorkspaceView>, id: Seq<char>, i: int) -> Option<int>
    decreases ws.len() - i,
{
    if i < 0 || i >= ws.len() {
        None
    } else if ws[i].id == id {
        Some(i)
    } else {
        index_from(ws, id, i + 1)
    }
}

/// The position of the first workspace of `ws` whose identifier is `id`, if there is one.
pub open spec fn index_of(ws: Seq<WorkspaceView>, id: Seq<char>) -> Option<int> {
    index_from(ws, id, 0)
}

/// What `index_from` finds: a workspace with the identifier and none before it, or none at
/// all from `i` on.
pub proof fn lemma_index_from(ws: Seq<WorkspaceView>, id: Seq<char>, i: int)
    requires
        0 <= i,
    ensures
        match index_from(ws, id, i) {
            Some(k) => i <= k < ws.len() && ws[k].id == id && forall|j: int| i <= j < k ==> (#[trigger] ws[j]).id != id,
            None => forall|j: int| i <= j < ws.len() ==> (#[trigger] ws[j]).id != id,
        },
    decreases ws.len() - i,
{
    if i < ws.len() && ws[i].id != id {
        lemma_index_from(ws, id, i + 1);
    }
}

/// No identifier occurs twice.
pub open spec fn distinct_ids(ws: Seq<WorkspaceView>) -> bool {
    forall|i: int, j: int| 0 <= i < j < ws.len() ==> (#[trigger] ws[i]).id != (#[trigger] ws[j]).id
}

/// The first position at or after `i` of a part of `parts` with the given ID.
pub open spec fn part_index_from(parts: Seq<WorkspacePartView>, part_id: i64, i: int) -> Option<int>
    decreases parts.len() - i,
{
    if i < 0 || i >= parts.len() {
        None
    } else if parts[i].id == part_id {
        Some(i)
    } else {
        part_index_from(parts, part_id, i + 1)
    }
}

/// The position of the first part of `parts` with the given ID, if there is one.
pub open spec fn part_index(parts: Seq<WorkspacePartView>, part_id: i64) -> Option<int> {
    part_index_from(parts, part_id, 0)
}

/// What `part_index_from` finds: a part with the ID and none before it, or none at all from
/// `i` on.
pub proof fn lemma_part_index_from(parts: Seq<WorkspacePartView>, part_id: i64, i: int)
    requires
        0 <= i,
    ensures
        match part_index_from(parts, part_id, i) {
            Some(k) => i <= k < parts.len() && parts[k].id == part_id
                && forall|j: int| i <= j < k ==> (#[trigger] parts[j]).id != part_id,
            None => forall|j: int| i <= j < parts.len() ==> (#[trigger] parts[j]).id != part_id,
        },
    decreases parts.len() - i,
{
    if i < parts.len() && parts[i].id != part_id {
        lemma_part_index_from(parts, part_id, i + 1);
    }
}

/// No part is listed twice.
pub open spec fn distinct_part_ids(parts: Seq<WorkspacePartView>) -> bool {
    forall|i: int, j: int| 0 <= i < j < parts.len() ==> (#[trigger] parts[i]).id != (#[trigger] parts[j]).id
}

/// The message given when a workspace does not exist.
pub open spec fn not_found_message(id: Seq<char>) -> Seq<char> {
    "Workspace not found: "@ + id
}

/// The part that is listed when a part is added by its ID: `PART-<id>`, named `Part <id>`,
/// in status `Draft`.
pub open spec fn listed_part(part_id: i64) -> WorkspacePartView {
    WorkspacePartView {
        id: part_id,
        part_number: "PART-"@ + signed_decimal(part_id as int),
        name: "Part "@ + signed_decimal(part_id as int),
        status: "Draft"@,
    }
}

/// The views of a list of workspaces.
pub open spec fn views(v: Seq<Workspace>) -> Seq<WorkspaceView> {
    v.map_values(|w: Workspace| w@)
}

/// Workspaces are consistent with the number the next one is given: identifiers are
/// distinct, each is `ws-<n>` for a number below the next one, which is at least one, and no
/// workspace lists a part twice.
pub open spec fn consistent(ws: Seq<WorkspaceView>, next: nat) -> bool {
    &&& 1 <= next
    &&& distinct_ids(ws)
    &&& forall|i: int| 0 <= i < ws.len() ==> distinct_part_ids(#[trigger] ws[i].parts)
    &&& forall|i: int| 0 <= i < ws.len() ==> numbered_below(#[trigger] ws[i].id, next)
}

/// The identifier is `ws-<k>` for a number `k` from one up to below `next`.
pub open spec fn numbered_below(id: Seq<char>, next: nat) -> bool {
    exists|k: nat| 1 <= k < next && id == ws_id(k)
}

/// Workspaces consistent with a number stay consistent with any later number.
proof fn lemma_consistent_with_later_number(ws: Seq<WorkspaceView>, next: nat, later: nat)
    requires
        consistent(ws, next),
        next <= later,
    ensures
        consistent(ws, later),
{
    assert forall|i: int| 0 <= i < ws.len() implies numbered_below(#[trigger] ws[i].id, later) by {
        assert(numbered_below(ws[i].id, next));
        let k = choose|k: nat| 1 <= k < next && ws[i].id == ws_id(k);
        assert(1 <= k < later && ws[i].id == ws_id(k));
    }
}

/// The workspaces kept in memory, and the number the next one is given.
pub struct WorkspaceState {
    workspaces: Vec<Workspace>,
    next_id: u64,
}

impl WorkspaceState {
    /// The workspaces, in the order they were created.
    pub closed spec fn spec_workspaces(&self) -> Seq<WorkspaceView> {
        views(self.workspaces@)
    }

    /// The number the next workspace is given.
    pub closed spec fn spec_next_id(&self) -> nat {
        self.next_id as nat
    }

    /// The state is consistent: identifiers are distinct, each is `ws-<n>` for a number
    /// below the next one, which is at least one, and no workspace lists a part twice.
    pub open spec fn wf(&self) -> bool {
        consistent(self.spec_workspaces(), self.spec_next_id())
    }

    /// Every state is consistent.
    #[verifier::type_invariant]
    spec fn always_consistent(&self) -> bool {
        self.wf()
    }

    /// The number the next workspace is given.
    pub fn next_number(&self) -> (r: u64)
        ensures
            r == self.spec_next_id(),
    {
        self.next_id
    }

    /// An empty state, whose first workspace will be `ws-1`.
    pub fn new() -> (r: WorkspaceState)
        ensures
            r.wf(),
            r.spec_workspaces() == Seq::<WorkspaceView>::empty(),
            r.spec_next_id() == 1,
    {
        let r = WorkspaceState { workspaces: Vec::new(), next_id: 1 };
        assert(r.spec_workspaces() =~= Seq::<WorkspaceView>::empty());
        r
    }

    /// The identifier for the next workspace, `ws-<n>` for the current number `n`; the counter
    /// moves on to `n + 1`, so no later call gives the same identifier again.
    pub fn get_next_id(&mut self) -> (r: String)
        requires
            old(self).spec_next_id() < u64::MAX,
        ensures
            r@ == ws_id(old(self).spec_next_id()),
            final(self).spec_next_id() == old(self).spec_next_id() + 1,
            final(self).spec_workspaces() == old(self).spec_workspaces(),
    {
        proof {
            use_type_invariant(&*self);
        }
        let current = self.next_id;
        proof {
            lemma_consistent_with_later_number(self.spec_workspaces(), current as nat, (current + 1) as nat);
        }
        self.next_id = current + 1;
        let mut r = owned("ws-");
        let n = u64_to_decimal(current);
        push_str(&mut r, n.as_str());
        r
    }

    /// Where the workspace `id` is kept.
    fn find(&self, id: &str) -> (r: Option<usize>)
        ensures
            match r {
                Some(i) => index_of(self.spec_workspaces(), id@) == Some(i as int),
                None => index_of(self.spec_workspaces(), id@) is None,
            },
    {
        let ghost ws = self.spec_workspaces();
        proof {
            lemma_index_from(ws, id@, 0);
        }
        for i in 0..self.workspaces.len()
            invariant
                ws == self.spec_workspaces(),
                ws.len() == self.workspaces.len(),
                forall|j: int| 0 <= j < i ==> (#[trigger] ws[j]).id != id@,
        {
            assert(ws[i as int] == self.workspaces@[i as int]@);
            if str_eq(self.workspaces[i].id.as_str(), id) {
                assert(ws[i as int].id == id@);
                proof {
                    if index_from(ws, id@, 0) != Some(i as int) {
                        lemma_index_from(ws, id@, 0);
                    }
                }
                return Some(i);
            }
        }
        None
    }

    /// All workspaces, in the order they were created.
    pub fn get_workspaces(&self) -> (r: Vec<Workspace>)
        ensures
            r@.map_values(|w: Workspace| w@) == self.spec_workspaces(),
    {
        let mut r: Vec<Workspace> = Vec::new();
        for i in 0..self.workspaces.len()
            invariant
                r@.map_values(|w: Workspace| w@) == self.spec_workspaces().subrange(0, i as int),
                self.spec_workspaces().len() == self.workspaces.len(),
        {
            let ghost before = r@;
            let c = self.workspaces[i].clone();
            r.push(c);
            assert(r@ == before.push(c));
            assert(r@.map_values(|w: Workspace| w@) =~= before.map_values(|w: Workspace| w@).push(c@));
            assert(self.spec_workspaces().subrange(0, i + 1) =~= self.spec_workspaces().subrange(0, i as int).push(self.workspaces@[i as int]@));
        }
        assert(self.spec_workspaces().subrange(0, self.workspaces.len() as int) =~= self.spec_workspaces());
        r
    }

    /// The workspace `id`.
    pub fn get_workspace(&self, id: &str) -> (r: Result<Workspace, String>)
        ensures
            match index_of(self.spec_workspaces(), id@) {
                Some(i) => r matches Ok(w) && w@ == self.spec_workspaces()[i],
                None => r matches Err(m) && m@ == not_found_message(id@),
            },
    {
        proof {
            lemma_index_from(self.spec_workspaces(), id@, 0);
        }
        match self.find(id) {
            Some(i) => Ok(self.workspaces[i].clone()),
            None => {
                let mut m = owned("Workspace not found: ");
                push_str(&mut m, id);
                Err(m)
            },
        }
    }

    /// Creates a workspace from `data`, stamped `now`, under the next identifier.
    pub fn create_workspace_at(&mut self, data: WorkspaceCreationData, now: String) -> (r: Workspace)
        requires
            old(self).spec_next_id() < u64::MAX,
        ensures
            r@ == (WorkspaceView {
                id: ws_id(old(self).spec_next_id()),
                name: data.name@,
                description: data.description@,
                created_at: now@,
                updated_at: now@,
                parts: Seq::empty(),
            }),
            final(self).spec_workspaces() == old(self).spec_workspaces().push(r@),
            final(self).spec_next_id() == old(self).spec_next_id() + 1,
            index_of(final(self).spec_workspaces(), r@.id) == Some(old(self).spec_workspaces().len() as int),
    {
        proof {
            use_type_invariant(&*self);
        }
        let ghost ws = self.spec_workspaces();
        let ghost n = self.spec_next_id();
        let id = self.get_next_id();
        let w = Workspace {
            id,
            name: data.name,
            description: data.description,
            created_at: now.clone(),
            updated_at: now,
            parts: Vec::new(),
        };
        assert(part_views(w.parts@) =~= Seq::empty());
        let r = w.clone();
        let mut v: Vec<Workspace> = Vec::new();
        std::mem::swap(&mut v, &mut self.workspaces);
        v.push(w);
        proof {
            assert(views(v@) =~= ws.push(r@));
            assert forall|i: int| 0 <= i < ws.len() implies (#[trigger] ws[i]).id != ws_id(n) by {
                let k = choose|k: nat| 1 <= k < n && ws[i].id == ws_id(k);
                if ws[i].id == ws_id(n) {
                    lemma_ws_id_injective(k, n);
                }
            }
            assert forall|i: int| 0 <= i < views(v@).len() implies exists|k: nat|
                1 <= k < self.spec_next_id() && (#[trigger] views(v@)[i]).id == ws_id(k) by {
                if i == ws.len() {
                    assert(views(v@)[i].id == ws_id(n));
                } else {
                    assert(views(v@)[i] == ws[i]);
                }
            }
            let new_ws = views(v@);
            lemma_index_from(new_ws, r@.id, 0);
            assert(new_ws[ws.len() as int] == r@);
            match index_from(new_ws, r@.id, 0) {
                Some(k) => {
                    if k < ws.len() {
                        assert(new_ws[k] == ws[k]);
                    }
                },
                None => {},
            }
        }
        self.workspaces = v;
        r
    }

    /// Creates a workspace from `data`, stamped with the current time, under the next
    /// identifier; where the clock cannot be read as a date, nothing changes and the error says
    /// so.
    pub fn create_workspace(&mut self, data: WorkspaceCreationData) -> (r: Result<Workspace, String>)
        requires
            old(self).spec_next_id() < u64::MAX,
        ensures
            match r {
                Ok(w) => {
                    &&& w@.id == ws_id(old(self).spec_next_id())
                    &&& w@.name == data.name@
                    &&& w@.description == data.description@
                    &&& w@.created_at == w@.updated_at
                    &&& is_instant_text(w@.created_at)
                    &&& w@.parts == Seq::<WorkspacePartView>::empty()
                    &&& final(self).spec_workspaces() == old(self).spec_workspaces().push(w@)
                    &&& final(self).spec_next_id() == old(self).spec_next_id() + 1
                    &&& index_of(final(self).spec_workspaces(), w@.id) == Some(old(self).spec_workspaces().len() as int)
                },
                Err(m) => {
                    &&& is_clock_error(m@)
                    &&& final(self).spec_workspaces() == old(self).spec_workspaces()
                    &&& final(self).spec_next_id() == old(self).spec_next_id()
                },
            },
    {
        proof {
            use_type_invariant(&*self);
        }
        let now = match now_rfc3339() {
            Ok(t) => t,
            Err(m) => return Err(m),
        };
        Ok(self.create_workspace_at(data, now))
    }

    /// Changes the name and description of the workspace `id` where `data` gives them, and
    /// stamps it `now`.
    pub fn update_workspace_at(&mut self, id: &str, data: WorkspaceUpdateData, now: String) -> (r: Result<Workspace, String>)
        ensures
            final(self).spec_next_id() == old(self).spec_next_id(),
            match index_of(old(self).spec_workspaces(), id@) {
                Some(i) => {
                    let w = old(self).spec_workspaces()[i];
                    let u = WorkspaceView {
                        name: match data.name { Some(n) => n@, None => w.name },
                        description: match data.description { Some(d) => d@, None => w.description },
                        updated_at: now@,
                        ..w
                    };
                    &&& r matches Ok(x) && x@ == u
                    &&& final(self).spec_workspaces() == old(self).spec_workspaces().update(i, u)
                },
                None => {
                    &&& r matches Err(m) && m@ == not_found_message(id@)
                    &&& final(self).spec_workspaces() == old(self).spec_workspaces()
                },
            },
    {
        proof {
            use_type_invariant(&*self);
        }
        let ghost ws = self.spec_workspaces();
        proof {
            lemma_index_from(ws, id@, 0);
        }
        let i = match self.find(id) {
            Some(i) => i,
            None => return Err(self.not_found(id)),
        };
        let mut w = self.workspaces[i].clone();
        match data.name {
            Some(n) => w.name = n,
            None => {},
        }
        match data.description {
            Some(d) => w.description = d,
            None => {},
        }
        w.updated_at = now;
        let r = w.clone();
        let mut v: Vec<Workspace> = Vec::new();
        std::mem::swap(&mut v, &mut self.workspaces);
        v.set(i, w);
        proof {
            assert(views(v@) =~= ws.update(i as int, r@));
            assert(forall|k: int| 0 <= k < ws.len() ==> (#[trigger] views(v@)[k]).id == ws[k].id);
        }
        self.workspaces = v;
        Ok(r)
    }

    /// Changes the name and description of the workspace `id` where `data` gives them, and
    /// stamps it with the current time; where the clock cannot be read as a date, nothing
    /// changes and the error says so.
    pub fn update_workspace(&mut self, id: &str, data: WorkspaceUpdateData) -> (r: Result<Workspace, String>)
        ensures
            final(self).spec_next_id() == old(self).spec_next_id(),
            match index_of(old(self).spec_workspaces(), id@) {
                Some(i) => {
                    let w = old(self).spec_workspaces()[i];
                    match r {
                        Ok(x) => {
                            &&& x@ == WorkspaceView {
                                name: match data.name { Some(n) => n@, None => w.name },
                                description: match data.description { Some(d) => d@, None => w.description },
                                updated_at: x@.updated_at,
                                ..w
                            }
                            &&& is_instant_text(x@.updated_at)
                            &&& final(self).spec_workspaces() == old(self).spec_workspaces().update(i, x@)
                        },
                        Err(m) => is_clock_error(m@) && final(self).spec_workspaces() == old(self).spec_workspaces(),
                    }
                },
                None => {
                    &&& r matches Err(m) && m@ == not_found_message(id@)
                    &&& final(self).spec_workspaces() == old(self).spec_workspaces()
                },
            },
    {
        proof {
            use_type_invariant(&*self);
        }
        if self.find(id).is_none() {
            return Err(self.not_found(id));
        }
        let now = match now_rfc3339() {
            Ok(t) => t,
            Err(m) => return Err(m),
        };
        let ghost stamp = now@;
        let r = self.update_workspace_at(id, data, now);
        assert(r matches Ok(x) ==> x@.updated_at == stamp);
        r
    }

    /// The error given when the workspace `id` does not exist.
    fn not_found(&self, id: &str) -> (m: String)
        ensures
            m@ == not_found_message(id@),
    {
        let mut m = owned("Workspace not found: ");
        push_str(&mut m, id);
        m
    }

    /// Deletes the workspace `id`.
    pub fn delete_workspace(&mut self, id: &str) -> (r: Result<(), String>)
        ensures
            final(self).spec_next_id() == old(self).spec_next_id(),
            match index_of(old(self).spec_workspaces(), id@) {
                Some(i) => r is Ok && final(self).spec_workspaces() == old(self).spec_workspaces().remove(i),
                None => (r matches Err(m) && m@ == not_found_message(id@))
                    && final(self).spec_workspaces() == old(self).spec_workspaces(),
            },
    {
        proof {
            use_type_invariant(&*self);
        }
        let ghost ws = self.spec_workspaces();
        proof {
            lemma_index_from(ws, id@, 0);
        }
        let i = match self.find(id) {
            Some(i) => i,
            None => return Err(self.not_found(id)),
        };
        let mut v: Vec<Workspace> = Vec::new();
        std::mem::swap(&mut v, &mut self.workspaces);
        v.remove(i);
        proof {
            assert(views(v@) =~= ws.remove(i as int));
            assert forall|a: int, b: int| 0 <= a < b < views(v@).len() implies
                (#[trigger] views(v@)[a]).id != (#[trigger] views(v@)[b]).id by {
                let a0 = if a < i { a } else { a + 1 };
                let b0 = if b < i { b } else { b + 1 };
                assert(views(v@)[a] == ws[a0]);
                assert(views(v@)[b] == ws[b0]);
            }
            assert forall|k: int| 0 <= k < views(v@).len() implies exists|n: nat|
                1 <= n < self.spec_next_id() && (#[trigger] views(v@)[k]).id == ws_id(n) by {
                let k0 = if k < i { k } else { k + 1 };
                assert(views(v@)[k] == ws[k0]);
            }
        }
        self.workspaces = v;
        Ok(())
    }

    /// Where the part `part_id` is listed in `parts`.
    fn find_part(parts: &Vec<WorkspacePart>, part_id: i64) -> (r: Option<usize>)
        ensures
            match r {
                Some(i) => part_index(part_views(parts@), part_id) == Some(i as int),
                None => part_index(part_views(parts@), part_id) is None,
            },
    {
        let ghost ps = part_views(parts@);
        proof {
            lemma_part_index_from(ps, part_id, 0);
        }
        for i in 0..parts.len()
            invariant
                ps == part_views(parts@),
                ps.len() == parts.len(),
                forall|j: int| 0 <= j < i ==> (#[trigger] ps[j]).id != part_id,
        {
            assert(ps[i as int] == parts@[i as int]@);
            if parts[i].id == part_id {
                proof {
                    if part_index_from(ps, part_id, 0) != Some(i as int) {
                        lemma_part_index_from(ps, part_id, 0);
                    }
                }
                return Some(i);
            }
        }
        None
    }

    /// Adds the part `part_id` to the workspace `id`, listed as `PART-<id>`, named
    /// `Part <id>`, in status `Draft`, and stamps the workspace `now`. A part is listed once.
    pub fn add_part_to_workspace_at(&mut self, id: &str, part_id: i64, now: String) -> (r: Result<(), String>)
        ensures
            final(self).spec_next_id() == old(self).spec_next_id(),
            match index_of(old(self).spec_workspaces(), id@) {
                Some(i) => {
                    let w = old(self).spec_workspaces()[i];
                    if part_index(w.parts, part_id) is Some {
                        &&& r matches Err(m) && m@ == "Part "@ + signed_decimal(part_id as int)
                            + " is already in workspace "@ + id@
                        &&& final(self).spec_workspaces() == old(self).spec_workspaces()
                    } else {
                        &&& r is Ok
                        &&& final(self).spec_workspaces() == old(self).spec_workspaces().update(
                            i,
                            WorkspaceView { parts: w.parts.push(listed_part(part_id)), updated_at: now@, ..w },
                        )
                    }
                },
                None => {
                    &&& r matches Err(m) && m@ == not_found_message(id@)
                    &&& final(self).spec_workspaces() == old(self).spec_workspaces()
                },
            },
    {
        proof {
            use_type_invariant(&*self);
        }
        let ghost ws = self.spec_workspaces();
        proof {
            lemma_index_from(ws, id@, 0);
        }
        let i = match self.find(id) {
            Some(i) => i,
            None => return Err(self.not_found(id)),
        };
        assert(ws[i as int] == self.workspaces@[i as int]@);
        if Self::find_part(&self.workspaces[i].parts, part_id).is_some() {
            let mut m = owned("Part ");
            let n = i64_to_decimal(part_id);
            push_str(&mut m, n.as_str());
            push_str(&mut m, " is already in workspace ");
            push_str(&mut m, id);
            return Err(m);
        }
        let n = i64_to_decimal(part_id);
        let mut part_number = owned("PART-");
        push_str(&mut part_number, n.as_str());
        let mut name = owned("Part ");
        push_str(&mut name, n.as_str());
        let part = WorkspacePart { id: part_id, part_number, name, status: owned("Draft") };
        let mut w = self.workspaces[i].clone();
        let ghost before = w.parts@;
        w.parts.push(part);
        w.updated_at = now;
        proof {
            assert(part_views(w.parts@) =~= part_views(before).push(listed_part(part_id)));
        }
        let mut v: Vec<Workspace> = Vec::new();
        std::mem::swap(&mut v, &mut self.workspaces);
        v.set(i, w);
        proof {
            assert(forall|k: int| 0 <= k < ws.len() ==> (#[trigger] views(v@)[k]).id == ws[k].id);
            lemma_part_index_from(ws[i as int].parts, part_id, 0);
            let old_parts = ws[i as int].parts;
            let np = old_parts.push(listed_part(part_id));
            assert forall|a: int, b: int| 0 <= a < b < np.len() implies (#[trigger] np[a]).id != (#[trigger] np[b]).id by {
                assert(np[a] == old_parts[a]);
                if b < old_parts.len() {
                    assert(np[b] == old_parts[b]);
                }
            }
            assert(distinct_part_ids(np));
            assert(views(v@) =~= ws.update(
                i as int,
                WorkspaceView { parts: np, updated_at: now@, ..ws[i as int] },
            ));
        }
        self.workspaces = v;
        Ok(())
    }

    /// Adds the part `part_id` to the workspace `id`, stamping it with the current time; where
    /// the clock cannot be read as a date, nothing changes and the error says so.
    pub fn add_part_to_workspace(&mut self, id: &str, part_id: i64) -> (r: Result<(), String>)
        ensures
            final(self).spec_next_id() == old(self).spec_next_id(),
            match index_of(old(self).spec_workspaces(), id@) {
                Some(i) => {
                    let w = old(self).spec_workspaces()[i];
                    if part_index(w.parts, part_id) is Some {
                        &&& r matches Err(m) && m@ == "Part "@ + signed_decimal(part_id as int)
                            + " is already in workspace "@ + id@
                        &&& final(self).spec_workspaces() == old(self).spec_workspaces()
                    } else {
                        match r {
                            Ok(_) => {
                                let stamp = final(self).spec_workspaces()[i].updated_at;
                                &&& is_instant_text(stamp)
                                &&& final(self).spec_workspaces() == old(self).spec_workspaces().update(
                                    i,
                                    WorkspaceView { parts: w.parts.push(listed_part(part_id)), updated_at: stamp, ..w },
                                )
                            },
                            Err(m) => is_clock_error(m@) && final(self).spec_workspaces() == old(self).spec_workspaces(),
                        }
                    }
                },
                None => {
                    &&& r matches Err(m) && m@ == not_found_message(id@)
                    &&& final(self).spec_workspaces() == old(self).spec_workspaces()
                },
            },
    {
        proof {
            use_type_invariant(&*self);
        }
        proof {
            lemma_index_from(self.spec_workspaces(), id@, 0);
        }
        let i = match self.find(id) {
            Some(i) => i,
            None => return Err(self.not_found(id)),
        };
        if Self::find_part(&self.workspaces[i].parts, part_id).is_some() {
            return self.add_part_to_workspace_at(id, part_id, String::new());
        }
        let now = match now_rfc3339() {
            Ok(t) => t,
            Err(m) => return Err(m),
        };
        let ghost stamp = now@;
        let r = self.add_part_to_workspace_at(id, part_id, now);
        proof {
            assert(self.spec_workspaces()[i as int].updated_at == stamp);
        }
        r
    }

    /// Takes the first listing of the part `part_id` out of the workspace `id`, and stamps the
    /// workspace `now`.
    pub fn remove_part_from_workspace_at(&mut self, id: &str, part_id: i64, now: String) -> (r: Result<(), String>)
        ensures
            final(self).spec_next_id() == old(self).spec_next_id(),
            match index_of(old(self).spec_workspaces(), id@) {
                Some(i) => {
                    let w = old(self).spec_workspaces()[i];
                    match part_index(w.parts, part_id) {
                        Some(p) => {
                            &&& r is Ok
                            &&& final(self).spec_workspaces() == old(self).spec_workspaces().update(
                                i,
                                WorkspaceView { parts: w.parts.remove(p), updated_at: now@, ..w },
                            )
                        },
                        None => {
                            &&& r matches Err(m) && m@ == "Part "@ + signed_decimal(part_id as int)
                                + " not found in workspace "@ + id@
                            &&& final(self).spec_workspaces() == old(self).spec_workspaces()
                        },
                    }
                },
                None => {
                    &&& r matches Err(m) && m@ == not_found_message(id@)
                    &&& final(self).spec_workspaces() == old(self).spec_workspaces()
                },
            },
    {
        proof {
            use_type_invariant(&*self);
        }
        let ghost ws = self.spec_workspaces();
        proof {
            lemma_index_from(ws, id@, 0);
        }
        let i = match self.find(id) {
            Some(i) => i,
            None => return Err(self.not_found(id)),
        };
        assert(ws[i as int] == self.workspaces@[i as int]@);
        let p = match Self::find_part(&self.workspaces[i].parts, part_id) {
            Some(p) => p,
            None => {
                let mut m = owned("Part ");
                let n = i64_to_decimal(part_id);
                push_str(&mut m, n.as_str());
                push_str(&mut m, " not found in workspace ");
                push_str(&mut m, id);
                return Err(m);
            },
        };
        proof {
            lemma_part_index_from(ws[i as int].parts, part_id, 0);
        }
        let mut w = self.workspaces[i].clone();
        let ghost before = w.parts@;
        w.parts.remove(p);
        w.updated_at = now;
        proof {
            assert(part_views(w.parts@) =~= part_views(before).remove(p as int));
        }
        let mut v: Vec<Workspace> = Vec::new();
        std::mem::swap(&mut v, &mut self.workspaces);
        v.set(i, w);
        proof {
            assert(forall|k: int| 0 <= k < ws.len() ==> (#[trigger] views(v@)[k]).id == ws[k].id);
            assert(views(v@) =~= ws.update(
                i as int,
                WorkspaceView { parts: ws[i as int].parts.remove(p as int), updated_at: now@, ..ws[i as int] },
            ));
        }
        self.workspaces = v;
        Ok(())
    }

    /// Takes the first listing of the part `part_id` out of the workspace `id`, stamping the
    /// workspace with the current time; where the clock cannot be read as a date, nothing
    /// changes and the error says so.
    pub fn remove_part_from_workspace(&mut self, id: &str, part_id: i64) -> (r: Result<(), String>)
        ensures
            final(self).spec_next_id() == old(self).spec_next_id(),
            match index_of(old(self).spec_workspaces(), id@) {
                Some(i) => {
                    let w = old(self).spec_workspaces()[i];
                    match part_index(w.parts, part_id) {
                        Some(p) => match r {
                            Ok(_) => {
                                let stamp = final(self).spec_workspaces()[i].updated_at;
                                &&& is_instant_text(stamp)
                                &&& final(self).spec_workspaces() == old(self).spec_workspaces().update(
                                    i,
                                    WorkspaceView { parts: w.parts.remove(p), updated_at: stamp, ..w },
                                )
                            },
                            Err(m) => is_clock_error(m@) && final(self).spec_workspaces() == old(self).spec_workspaces(),
                        },
                        None => {
                            &&& r matches Err(m) && m@ == "Part "@ + signed_decimal(part_id as int)
                                + " not found in workspace "@ + id@
                            &&& final(self).spec_workspaces() == old(self).spec_workspaces()
                        },
                    }
                },
                None => {
                    &&& r matches Err(m) && m@ == not_found_message(id@)
                    &&& final(self).spec_workspaces() == old(self).spec_workspaces()
                },
            },
    {
        proof {
            use_type_invariant(&*self);
        }
        proof {
            lemma_index_from(self.spec_workspaces(), id@, 0);
        }
        let i = match self.find(id) {
            Some(i) => i,
            None => return Err(self.not_found(id)),
        };
        if Self::find_part(&self.workspaces[i].parts, part_id).is_none() {
            return self.remove_part_from_workspace_at(id, part_id, String::new());
        }
        let now = match now_rfc3339() {
            Ok(t) => t,
            Err(m) => return Err(m),
        };
        let ghost stamp = now@;
        let r = self.remove_part_from_workspace_at(id, part_id, now);
        proof {
            assert(self.spec_workspaces()[i as int].updated_at == stamp);
        }
        r
    }
}

/// Identifiers handed out for different numbers differ: successive calls of `get_next_id`,
/// whose numbers strictly increase, never give the same identifier twice.
pub proof fn law_next_ids_distinct(a: nat, b: nat)
    requires
        a != b,
    ensures
        ws_id(a) != ws_id(b),
{
    if ws_id(a) == ws_id(b) {
        lemma_ws_id_injective(a, b);
    }
}

/// Two workspace identifiers are the same only for the same number.
pub proof fn lemma_ws_id_injective(a: nat, b: nat)
    requires
        ws_id(a) == ws_id(b),
    ensures
        a == b,
{
    reveal_strlit("ws-");
    assert(ws_id(a).subrange(3, ws_id(a).len() as int) =~= decimal(a));
    assert(ws_id(b).subrange(3, ws_id(b).len() as int) =~= decimal(b));
    crate::text::lemma_decimal_injective(a, b);
}

/// A new state for the workspaces.
pub fn init_workspace_state() -> (r: WorkspaceState)
    ensures
        r.wf(),
        r.spec_workspaces() == Seq::<WorkspaceView>::empty(),
        r.spec_next_id() == 1,
{
    WorkspaceState::new()
}

/// A workspace that is deleted is gone: no workspace with its identifier is left, where
/// identifiers are distinct.
pub proof fn law_deleted_workspace_is_gone(ws: Seq<WorkspaceView>, i: int)
    requires
        distinct_ids(ws),
        0 <= i < ws.len(),
    ensures
        index_of(ws.remove(i), ws[i].id) is None,
{
    let rest = ws.remove(i);
    lemma_index_from(rest, ws[i].id, 0);
    match index_of(rest, ws[i].id) {
        Some(k) => {
            let k0 = if k < i { k } else { k + 1 };
            assert(rest[k] == ws[k0]);
        },
        None => {},
    }
}

/// A part that is added to a workspace that does not list it, and then removed, leaves the
/// workspace's parts as they were.
pub proof fn law_add_then_remove_part(parts: Seq<WorkspacePartView>, part_id: i64)
    requires
        part_index(parts, part_id) is None,
    ensures
        part_index(parts.push(listed_part(part_id)), part_id) == Some(parts.len() as int),
        parts.push(listed_part(part_id)).remove(parts.len() as int) == parts,
{
    let added = parts.push(listed_part(part_id));
    lemma_part_index_from(parts, part_id, 0);
    lemma_part_index_from(added, part_id, 0);
    assert(added[parts.len() as int] == listed_part(part_id));
    match part_index(added, part_id) {
        Some(k) => {
            if k < parts.len() {
                assert(added[k] == parts[k]);
            }
        },
        None => {},
    }
    assert(added.remove(parts.len() as int) =~= parts);
}

} // verus!
