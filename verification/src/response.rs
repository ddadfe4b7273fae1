//! Response envelopes: the generic status/message shape, the
//! single-record shape, the list shape, and the root status body.

use vstd::prelude::*;

use crate::model::Todo;
use crate::numeric::{i32_to_string, spec_int_chars};

verus! {

use vstd::string::StringExecFns;

/// The body of the root status endpoint.
pub struct Status {
    pub status: String,
}

/// The generic envelope for health and failure responses.
pub struct GenericResponse {
    pub status: String,
    pub message: String,
}

/// The payload of a single-record envelope.
pub struct TodoData {
    pub todo: Todo,
}

/// The envelope wrapping one record.
pub struct SingleTodoResponse {
    pub status: String,
    pub data: TodoData,
}

/// The envelope wrapping a page of records, with `results` holding the
/// returned count.
pub struct TodoListResponse {
    pub status: String,
    pub results: usize,
    pub todos: Vec<Todo>,
}

/// The message of the not-found failure envelope for an identifier.
pub open spec fn spec_not_found_message(id: int) -> Seq<char> {
    "Todo with ID: "@ + spec_int_chars(id) + " not found"@
}

/// Renders the not-found message for an identifier.
pub fn not_found_message(id: i32) -> (r: String)
    ensures
        r@ == spec_not_found_message(id as int),
{
    let mut s = "Todo with ID: ".to_owned();
    let digits = i32_to_string(id);
    s.append(digits.as_str());
    s.append(" not found");
    proof {
        assert(s@ =~= spec_not_found_message(id as int));
    }
    s
}

/// The failure envelope a missing identifier is answered with (the
/// handler maps it to a 404 response).
pub fn fail_not_found(id: i32) -> (r: GenericResponse)
    ensures
        r.status@ == "fail"@,
        r.message@ == spec_not_found_message(id as int),
{
    GenericResponse { status: "fail".to_owned(), message: not_found_message(id) }
}

} // verus!
