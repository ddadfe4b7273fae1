//! Request handlers: each parses nothing but plain values, invokes one
//! storage operation, and shapes the response envelope. A handler's
//! `Ok` result maps to a 200 response (204 for delete), its `Err`
//! envelope to a 404; whatever serves HTTP performs that mapping and
//! hands identifiers, payloads and the current time in as plain values.

use vstd::prelude::*;

use crate::model::{CreateTodoSchema, QueryOptions, UpdateTodoSchema};
use crate::response::{
    fail_not_found, spec_not_found_message, GenericResponse, SingleTodoResponse, Status, TodoData,
    TodoListResponse,
};
use crate::store::{
    has_id, ids_sorted, index_of_id, record_of, spec_merged, spec_new_todo, spec_page_of, views_of,
    TodoStore,
};

verus! {

/// The body of the unprefixed root endpoint.
pub fn status() -> (r: Status)
    ensures
        r.status@ == "OK"@,
{
    Status { status: "OK".to_owned() }
}

/// The health-check envelope: always a success with a fixed message.
pub fn health_checker_handler() -> (r: GenericResponse)
    ensures
        r.status@ == "success"@,
        r.message@ == "Build Simple CRUD API with Rust, Actix Web, and PostgreSQL"@,
{
    GenericResponse {
        status: "success".to_owned(),
        message: "Build Simple CRUD API with Rust, Actix Web, and PostgreSQL".to_owned(),
    }
}

/// Lists the pagination window of the store: defaults applied, never
/// rejected, an empty window answered with an empty list.
pub fn todos_list_handler(store: &TodoStore, opts: &QueryOptions) -> (r: TodoListResponse)
    requires
        store.wf(),
        opts.spec_page() >= 1,
        opts.spec_offset() <= usize::MAX,
    ensures
        r.status@ == "success"@,
        r.results == r.todos@.len(),
        views_of(r.todos@) == spec_page_of(store@, opts.spec_limit(), opts.spec_offset()),
        r.todos@.len() <= opts.spec_limit(),
        ids_sorted(views_of(r.todos@)),
{
    let limit = opts.effective_limit();
    let offset = opts.offset();
    let todos = store.list(limit, offset);
    TodoListResponse { status: "success".to_owned(), results: todos.len(), todos }
}

/// Creates a record from the (already validated) payload and answers
/// with the persisted record, generated fields included.
pub fn create_todo_handler(store: &mut TodoStore, body: CreateTodoSchema, now: i64) -> (r:
    SingleTodoResponse)
    requires
        old(store).wf(),
        old(store).can_assign_id(),
    ensures
        final(store).wf(),
        r.status@ == "success"@,
        r.data.todo@ == spec_new_todo(
            old(store).spec_next_id(),
            body.title@,
            body.content@,
            now as int,
        ),
        final(store)@ == old(store)@.push(r.data.todo@),
        final(store).spec_next_id() == old(store).spec_next_id() + 1,
{
    let todo = store.create(body.title, body.content, now);
    SingleTodoResponse { status: "success".to_owned(), data: TodoData { todo } }
}

/// Answers with the record carrying the identifier, or the not-found
/// failure envelope. Absence is a normal outcome, never an error.
pub fn get_todo_handler(store: &TodoStore, id: i32) -> (r: Result<
    SingleTodoResponse,
    GenericResponse,
>)
    requires
        store.wf(),
    ensures
        has_id(store@, id as int) ==> (r matches Ok(resp) && resp.status@ == "success"@
            && resp.data.todo@ == record_of(store@, id as int)),
        !has_id(store@, id as int) ==> (r matches Err(e) && e.status@ == "fail"@ && e.message@
            == spec_not_found_message(id as int)),
{
    match store.get_by_id(id) {
        Some(todo) => Ok(
            SingleTodoResponse { status: "success".to_owned(), data: TodoData { todo } },
        ),
        None => Err(fail_not_found(id)),
    }
}

/// Applies a partial update to the record carrying the identifier and
/// answers with the persisted result, or with the not-found failure
/// envelope and no mutation at all.
pub fn edit_todo_handler(store: &mut TodoStore, id: i32, body: &UpdateTodoSchema, now: i64) -> (r:
    Result<SingleTodoResponse, GenericResponse>)
    requires
        old(store).wf(),
    ensures
        final(store).wf(),
        final(store).spec_next_id() == old(store).spec_next_id(),
        !has_id(old(store)@, id as int) ==> (r matches Err(e) && e.status@ == "fail"@ && e.message@
            == spec_not_found_message(id as int)) && final(store)@ == old(store)@,
        has_id(old(store)@, id as int) ==> {
            let merged = spec_merged(record_of(old(store)@, id as int), body@, now as int);
            &&& r matches Ok(resp) && resp.status@ == "success"@ && resp.data.todo@ == merged
            &&& final(store)@ == old(store)@.update(index_of_id(old(store)@, id as int), merged)
        },
{
    match store.update(id, body, now) {
        Some(todo) => Ok(
            SingleTodoResponse { status: "success".to_owned(), data: TodoData { todo } },
        ),
        None => Err(fail_not_found(id)),
    }
}

/// Deletes the record carrying the identifier. `Ok` stands for the
/// empty 204 response; a missing identifier is answered with the
/// not-found failure envelope and no mutation.
pub fn delete_todo_handler(store: &mut TodoStore, id: i32) -> (r: Result<(), GenericResponse>)
    requires
        old(store).wf(),
    ensures
        final(store).wf(),
        final(store).spec_next_id() == old(store).spec_next_id(),
        has_id(old(store)@, id as int) ==> r is Ok && final(store)@ == old(store)@.remove(
            index_of_id(old(store)@, id as int),
        ),
        !has_id(old(store)@, id as int) ==> (r matches Err(e) && e.status@ == "fail"@ && e.message@
            == spec_not_found_message(id as int)) && final(store)@ == old(store)@,
        !has_id(final(store)@, id as int),
{
    let n = store.delete(id);
    if n == 0 {
        Err(fail_not_found(id))
    } else {
        Ok(())
    }
}

} // verus!
