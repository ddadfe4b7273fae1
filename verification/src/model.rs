//! The todo data model: the record itself, the creation and update
//! payloads, and the pagination options, each with a mathematical view.
//!
//! Timestamps are carried as plain integers (seconds since the Unix
//! epoch); whatever clock produces them lives outside this crate and
//! hands the value in.

use vstd::prelude::*;

verus! {

/// A stored todo record. The identifier is server-assigned, unique, and
/// immutable after creation; `completed` starts out false; both
/// timestamps are server-assigned.
pub struct Todo {
    pub id: i32,
    pub title: String,
    pub content: String,
    pub completed: bool,
    pub created_at: i64,
    pub updated_at: i64,
}

/// The mathematical value of a [`Todo`].
pub struct TodoView {
    pub id: int,
    pub title: Seq<char>,
    pub content: Seq<char>,
    pub completed: bool,
    pub created_at: int,
    pub updated_at: int,
}

impl View for Todo {
    type V = TodoView;

    open spec fn view(&self) -> TodoView {
        TodoView {
            id: self.id as int,
            title: self.title@,
            content: self.content@,
            completed: self.completed,
            created_at: self.created_at as int,
            updated_at: self.updated_at as int,
        }
    }
}

impl Clone for Todo {
    fn clone(&self) -> (r: Self)
        ensures
            r@ == self@,
    {
        Todo {
            id: self.id,
            title: self.title.clone(),
            content: self.content.clone(),
            completed: self.completed,
            created_at: self.created_at,
            updated_at: self.updated_at,
        }
    }
}

/// The creation payload: both fields are required; the server assigns
/// everything else.
pub struct CreateTodoSchema {
    pub title: String,
    pub content: String,
}

/// The update payload: each field is optional, and an absent field
/// means "leave unchanged."
pub struct UpdateTodoSchema {
    pub title: Option<String>,
    pub content: Option<String>,
    pub completed: Option<bool>,
}

/// The mathematical value of an [`UpdateTodoSchema`].
pub struct UpdateView {
    pub title: Option<Seq<char>>,
    pub content: Option<Seq<char>>,
    pub completed: Option<bool>,
}

impl View for UpdateTodoSchema {
    type V = UpdateView;

    open spec fn view(&self) -> UpdateView {
        UpdateView {
            title: match self.title {
                Some(t) => Some(t@),
                None => None,
            },
            content: match self.content {
                Some(c) => Some(c@),
                None => None,
            },
            completed: self.completed,
        }
    }
}

/// Pagination query options: `page` and `limit` are optional positive
/// integers, defaulting to 1 and 10.
pub struct QueryOptions {
    pub page: Option<usize>,
    pub limit: Option<usize>,
}

impl QueryOptions {
    /// The page size after applying the default.
    pub open spec fn spec_limit(self) -> int {
        match self.limit {
            Some(l) => l as int,
            None => 10,
        }
    }

    /// The page number after applying the default.
    pub open spec fn spec_page(self) -> int {
        match self.page {
            Some(p) => p as int,
            None => 1,
        }
    }

    /// The number of rows the pagination window skips.
    pub open spec fn spec_offset(self) -> int {
        (self.spec_page() - 1) * self.spec_limit()
    }

    /// The page size after applying the default.
    pub fn effective_limit(&self) -> (r: usize)
        ensures
            r == self.spec_limit(),
    {
        match self.limit {
            Some(l) => l,
            None => 10,
        }
    }

    /// The derived offset `(page - 1) * limit`. A page number of zero
    /// or a window past `usize::MAX` is left to the caller to reject.
    pub fn offset(&self) -> (r: usize)
        requires
            self.spec_page() >= 1,
            self.spec_offset() <= usize::MAX,
        ensures
            r == self.spec_offset(),
    {
        let page = match self.page {
            Some(p) => p,
            None => 1,
        };
        let limit = self.effective_limit();
        (page - 1) * limit
    }
}

} // verus!
