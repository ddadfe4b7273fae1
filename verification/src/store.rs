//! The storage layer: the authoritative record state, held as a table
//! ordered by identifier, with one operation per request kind.
//!
//! The table is modelled as a sequence of record views sorted strictly
//! by identifier; the next identifier to assign exceeds every stored
//! one, so an identifier names at most one record for the lifetime of
//! the store, and is never reused after a delete.

use vstd::prelude::*;

use crate::model::{Todo, TodoView, UpdateTodoSchema, UpdateView};

verus! {

/// The views of a sequence of records.
pub open spec fn views_of(s: Seq<Todo>) -> Seq<TodoView> {
    s.map_values(|t: Todo| t@)
}

/// Identifiers strictly increase along the sequence.
pub open spec fn ids_sorted(s: Seq<TodoView>) -> bool {
    forall|i: int, j: int| 0 <= i < j < s.len() ==> s[i].id < s[j].id
}

/// Some record in the sequence carries this identifier.
pub open spec fn has_id(s: Seq<TodoView>, id: int) -> bool {
    exists|i: int| 0 <= i < s.len() && s[i].id == id
}

/// The position of the record carrying this identifier (meaningful only
/// when `has_id` holds and identifiers are unique).
pub open spec fn index_of_id(s: Seq<TodoView>, id: int) -> int {
    choose|i: int| 0 <= i < s.len() && s[i].id == id
}

/// The record carrying this identifier.
pub open spec fn record_of(s: Seq<TodoView>, id: int) -> TodoView {
    s[index_of_id(s, id)]
}

/// The record a create operation persists: the given fields, a fresh
/// identifier, `completed` false, and both timestamps set to `now`.
pub open spec fn spec_new_todo(id: int, title: Seq<char>, content: Seq<char>, now: int) -> TodoView {
    TodoView { id, title, content, completed: false, created_at: now, updated_at: now }
}

/// The record an update operation persists: each present field replaces
/// the current value, each absent field keeps it, the identifier and
/// creation time never change, and `updated_at` is refreshed to `now`.
pub open spec fn spec_merged(cur: TodoView, upd: UpdateView, now: int) -> TodoView {
    TodoView {
        id: cur.id,
        title: match upd.title {
            Some(t) => t,
            None => cur.title,
        },
        content: match upd.content {
            Some(c) => c,
            None => cur.content,
        },
        completed: match upd.completed {
            Some(c) => c,
            None => cur.completed,
        },
        created_at: cur.created_at,
        updated_at: now,
    }
}

/// The pagination window: skip `offset` records, keep at most `limit`,
/// clamped to the sequence.
pub open spec fn spec_page_of(s: Seq<TodoView>, limit: int, offset: int) -> Seq<TodoView>
    recommends
        limit >= 0,
        offset >= 0,
{
    let start = if offset <= s.len() {
        offset
    } else {
        s.len() as int
    };
    let end = if offset + limit <= s.len() {
        offset + limit
    } else {
        s.len() as int
    };
    s.subrange(start, end)
}

/// Builds the record an update persists: each present field of `upd`
/// replaces the current value, absent fields keep it, the identifier
/// and creation time never change, and `updated_at` becomes `now`.
pub fn merge_update(cur: &Todo, upd: &UpdateTodoSchema, now: i64) -> (t: Todo)
    ensures
        t@ == spec_merged(cur@, upd@, now as int),
{
    let title = match &upd.title {
        Some(t) => t.clone(),
        None => cur.title.clone(),
    };
    let content = match &upd.content {
        Some(c) => c.clone(),
        None => cur.content.clone(),
    };
    let completed = match upd.completed {
        Some(c) => c,
        None => cur.completed,
    };
    Todo { id: cur.id, title, content, completed, created_at: cur.created_at, updated_at: now }
}

/// In a sequence of strictly increasing identifiers, an identifier
/// names at most one position.
proof fn lemma_found_is_record(s: Seq<TodoView>, i: int)
    requires
        ids_sorted(s),
        0 <= i < s.len(),
    ensures
        has_id(s, s[i].id),
        index_of_id(s, s[i].id) == i,
        record_of(s, s[i].id) == s[i],
{
    assert(0 <= i < s.len() && s[i].id == s[i].id);
    let j = index_of_id(s, s[i].id);
    if j < i {
        assert(s[j].id < s[i].id);
    } else if j > i {
        assert(s[i].id < s[j].id);
    }
}

/// The authoritative store of todo records.
pub struct TodoStore {
    todos: Vec<Todo>,
    next_id: i32,
}

impl View for TodoStore {
    type V = Seq<TodoView>;

    closed spec fn view(&self) -> Seq<TodoView> {
        views_of(self.todos@)
    }
}

impl TodoStore {
    /// The identifier the next created record will receive.
    pub closed spec fn spec_next_id(&self) -> int {
        self.next_id as int
    }

    /// The store's invariant: identifiers strictly increase, start at 1,
    /// and stay below the next identifier to assign.
    pub open spec fn wf(&self) -> bool {
        &&& ids_sorted(self@)
        &&& forall|i: int| 0 <= i < self@.len() ==> 1 <= (#[trigger] self@[i]).id
            < self.spec_next_id()
        &&& 1 <= self.spec_next_id()
    }

    /// A fresh identifier can still be assigned without overflowing.
    pub open spec fn can_assign_id(&self) -> bool {
        self.spec_next_id() < i32::MAX
    }

    /// An empty store; the first record created will receive identifier 1.
    pub fn new() -> (s: TodoStore)
        ensures
            s.wf(),
            s@ == Seq::<TodoView>::empty(),
            s.spec_next_id() == 1,
    {
        let s = TodoStore { todos: Vec::new(), next_id: 1 };
        proof {
            assert(s@ =~= Seq::<TodoView>::empty());
        }
        s
    }

    /// The position of the record with this identifier, if any.
    fn find_index(&self, id: i32) -> (r: Option<usize>)
        ensures
            match r {
                Some(i) => i < self@.len() && self@[i as int].id == id as int,
                None => !has_id(self@, id as int),
            },
    {
        let n = self.todos.len();
        let mut i: usize = 0;
        while i < n
            invariant
                i <= n == self@.len(),
                n == self.todos@.len(),
                forall|k: int| 0 <= k < i ==> self@[k].id != id as int,
            decreases n - i,
        {
            assert(self@[i as int] == self.todos@[i as int]@);
            if self.todos[i].id == id {
                return Some(i);
            }
            i = i + 1;
        }
        None
    }

    /// Returns the record with this identifier, or `None` if none
    /// exists. Absence is a normal outcome, not an error.
    pub fn get_by_id(&self, id: i32) -> (r: Option<Todo>)
        requires
            self.wf(),
        ensures
            match r {
                Some(t) => has_id(self@, id as int) && t@ == record_of(self@, id as int),
                None => !has_id(self@, id as int),
            },
    {
        match self.find_index(id) {
            Some(i) => {
                let t = self.todos[i].clone();
                proof {
                    assert(self@[i as int] == self.todos@[i as int]@);
                    lemma_found_is_record(self@, i as int);
                }
                Some(t)
            },
            None => None,
        }
    }

    /// Inserts a new record with the given fields, a fresh identifier,
    /// `completed` false, and both timestamps set to `now`; returns the
    /// persisted record, generated fields included.
    pub fn create(&mut self, title: String, content: String, now: i64) -> (t: Todo)
        requires
            old(self).wf(),
            old(self).can_assign_id(),
        ensures
            final(self).wf(),
            t@ == spec_new_todo(old(self).spec_next_id(), title@, content@, now as int),
            final(self)@ == old(self)@.push(t@),
            final(self).spec_next_id() == old(self).spec_next_id() + 1,
            final(self).can_assign_id() || final(self).spec_next_id() == i32::MAX,
    {
        let id = self.next_id;
        self.next_id = self.next_id + 1;
        let stored = Todo { id, title, content, completed: false, created_at: now, updated_at: now };
        let t = stored.clone();
        let ghost pre = self@;
        self.todos.push(stored);
        proof {
            assert(self@ =~= pre.push(t@));
            assert forall|a: int, b: int| 0 <= a < b < self@.len() implies self@[a].id
                < self@[b].id by {
                if b < pre.len() {
                    assert(pre[a].id < pre[b].id);
                } else {
                    assert(1 <= pre[a].id < id as int);
                }
            }
        }
        t
    }

    /// Returns the records of the pagination window, ordered by
    /// identifier ascending: `offset` records are skipped and at most
    /// `limit` returned. An empty window is not an error.
    pub fn list(&self, limit: usize, offset: usize) -> (r: Vec<Todo>)
        requires
            self.wf(),
        ensures
            views_of(r@) == spec_page_of(self@, limit as int, offset as int),
            r@.len() <= limit,
            ids_sorted(views_of(r@)),
    {
        let len = self.todos.len();
        let start = if offset < len {
            offset
        } else {
            len
        };
        let remaining = len - start;
        let count = if limit < remaining {
            limit
        } else {
            remaining
        };
        let mut r: Vec<Todo> = Vec::new();
        let mut k: usize = 0;
        while k < count
            invariant
                k <= count,
                start + count <= len == self.todos@.len(),
                len == self@.len(),
                r@.len() == k,
                forall|m: int| 0 <= m < k ==> (#[trigger] r@[m])@ == self@[start + m],
            decreases count - k,
        {
            assert(self@[start + k] == self.todos@[start + k]@);
            r.push(self.todos[start + k].clone());
            k = k + 1;
        }
        proof {
            assert(views_of(r@) =~= spec_page_of(self@, limit as int, offset as int));
        }
        r
    }

    /// Applies a partial update to the record with this identifier: each
    /// present field of `upd` replaces the current value, absent fields
    /// keep it, and `updated_at` is refreshed to `now`. Returns the
    /// persisted record, or `None` without any mutation if no record
    /// carries the identifier.
    pub fn update(&mut self, id: i32, upd: &UpdateTodoSchema, now: i64) -> (r: Option<Todo>)
        requires
            old(self).wf(),
        ensures
            final(self).wf(),
            final(self).spec_next_id() == old(self).spec_next_id(),
            !has_id(old(self)@, id as int) ==> r is None && final(self)@ == old(self)@,
            has_id(old(self)@, id as int) ==> {
                let merged = spec_merged(record_of(old(self)@, id as int), upd@, now as int);
                &&& r matches Some(t) && t@ == merged
                &&& final(self)@ == old(self)@.update(index_of_id(old(self)@, id as int), merged)
            },
    {
        match self.find_index(id) {
            None => None,
            Some(i) => {
                proof {
                    lemma_found_is_record(self@, i as int);
                    assert(self@[i as int] == self.todos@[i as int]@);
                }
                let stored = merge_update(&self.todos[i], upd, now);
                let t = stored.clone();
                let ghost pre = self@;
                self.todos[i] = stored;
                proof {
                    assert(self@ =~= pre.update(i as int, t@));
                    assert forall|a: int, b: int| 0 <= a < b < self@.len() implies self@[a].id
                        < self@[b].id by {
                        assert(pre[a].id < pre[b].id);
                    }
                }
                Some(t)
            },
        }
    }

    /// Deletes the record with this identifier and returns the number
    /// of records removed: 1 if it existed, 0 otherwise. The identifier
    /// is never assigned again afterwards.
    pub fn delete(&mut self, id: i32) -> (n: u64)
        requires
            old(self).wf(),
        ensures
            final(self).wf(),
            final(self).spec_next_id() == old(self).spec_next_id(),
            !has_id(old(self)@, id as int) ==> n == 0 && final(self)@ == old(self)@,
            has_id(old(self)@, id as int) ==> n == 1 && final(self)@ == old(self)@.remove(
                index_of_id(old(self)@, id as int),
            ),
            !has_id(final(self)@, id as int),
    {
        match self.find_index(id) {
            None => 0,
            Some(i) => {
                proof {
                    lemma_found_is_record(self@, i as int);
                }
                let ghost pre = self@;
                self.todos.remove(i);
                proof {
                    assert(self@ =~= pre.remove(i as int));
                    assert forall|a: int, b: int| 0 <= a < b < self@.len() implies self@[a].id
                        < self@[b].id by {
                        if a < i as int {
                            if b < i as int {
                                assert(pre[a].id < pre[b].id);
                            } else {
                                assert(pre[a].id < pre[b + 1].id);
                            }
                        } else {
                            assert(pre[a + 1].id < pre[b + 1].id);
                        }
                    }
                    assert forall|j: int| 0 <= j < self@.len() implies (#[trigger] self@[j]).id
                        != id as int by {
                        if j < i as int {
                            if pre[j].id == id as int {
                                lemma_found_is_record(pre, j);
                            }
                        } else {
                            if pre[j + 1].id == id as int {
                                lemma_found_is_record(pre, j + 1);
                            }
                        }
                    }
                }
                1
            },
        }
    }
}

/// A record just created is found again under its identifier, exactly
/// as persisted: the submitted title and content, `completed` false,
/// and equal creation and update times. The hypothesis is what the
/// store's invariant grants a fresh identifier: it exceeds every
/// stored one.
pub proof fn lemma_create_then_get(s: Seq<TodoView>, id: int, title: Seq<char>, content: Seq<char>, now: int)
    requires
        forall|i: int| 0 <= i < s.len() ==> (#[trigger] s[i]).id < id,
    ensures
        has_id(s.push(spec_new_todo(id, title, content, now)), id),
        record_of(s.push(spec_new_todo(id, title, content, now)), id) == spec_new_todo(
            id,
            title,
            content,
            now,
        ),
        spec_new_todo(id, title, content, now).completed == false,
        spec_new_todo(id, title, content, now).created_at == spec_new_todo(
            id,
            title,
            content,
            now,
        ).updated_at,
{
    let t = spec_new_todo(id, title, content, now);
    let s2 = s.push(t);
    assert(s2[s.len() as int].id == id);
    let j = index_of_id(s2, id);
    if j < s.len() {
        assert(s[j].id < id);
    }
}

/// An update with every field absent leaves the stored record unchanged
/// except for `updated_at`, which is refreshed.
pub proof fn lemma_update_all_absent(s: Seq<TodoView>, id: int, now: int)
    requires
        ids_sorted(s),
        has_id(s, id),
    ensures
        ({
            let cur = record_of(s, id);
            let upd = UpdateView { title: None, content: None, completed: None };
            let merged = spec_merged(cur, upd, now);
            let s2 = s.update(index_of_id(s, id), merged);
            &&& merged.id == cur.id
            &&& merged.title == cur.title
            &&& merged.content == cur.content
            &&& merged.completed == cur.completed
            &&& merged.created_at == cur.created_at
            &&& merged.updated_at == now
            &&& has_id(s2, id)
            &&& record_of(s2, id) == merged
        }),
{
    let cur = record_of(s, id);
    let upd = UpdateView { title: None, content: None, completed: None };
    let merged = spec_merged(cur, upd, now);
    let i = index_of_id(s, id);
    assert(0 <= i < s.len() && s[i].id == id);
    let s2 = s.update(i, merged);
    assert(s2[i].id == id);
    let j = index_of_id(s2, id);
    if j != i {
        assert(s[j].id == id);
        lemma_found_is_record(s, j);
    }
}

/// Deleting an existing identifier removes it for good: no record in
/// the remaining table carries it, so a later lookup finds nothing and
/// a later delete removes zero records.
pub proof fn lemma_delete_then_get(s: Seq<TodoView>, id: int)
    requires
        ids_sorted(s),
        has_id(s, id),
    ensures
        !has_id(s.remove(index_of_id(s, id)), id),
{
    let i = index_of_id(s, id);
    assert(0 <= i < s.len() && s[i].id == id);
    let s2 = s.remove(i);
    assert forall|j: int| 0 <= j < s2.len() implies (#[trigger] s2[j]).id != id by {
        if j < i {
            if s[j].id == id {
                lemma_found_is_record(s, j);
            }
        } else {
            if s[j + 1].id == id {
                lemma_found_is_record(s, j + 1);
            }
        }
    }
}

} // verus!
