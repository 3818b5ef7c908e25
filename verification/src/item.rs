//! The records the service works with: the stored todo item, the request
//! payloads of the create and delete handlers, and the JSON-level outcome
//! a mutating handler reports.

use vstd::prelude::*;

verus! {

/// One stored row of the `todo_app.lists` table, as the application sees it.
///
/// `id` is the canonical hyphenated string form of the row's 128-bit UUID
/// key; `timestamp` is the caller-supplied `insertion_time` value; `status`
/// is the completion flag, false at creation.
#[derive(Debug)]
pub struct TodoData {
    pub id: String,
    pub title: String,
    pub description: String,
    pub timestamp: i64,
    pub status: bool,
}

/// The mathematical value of a stored record: its five fields with strings
/// as character sequences.
pub struct TodoView {
    pub id: Seq<char>,
    pub title: Seq<char>,
    pub description: Seq<char>,
    pub timestamp: int,
    pub status: bool,
}

impl View for TodoData {
    type V = TodoView;

    open spec fn view(&self) -> TodoView {
        TodoView {
            id: self.id@,
            title: self.title@,
            description: self.description@,
            timestamp: self.timestamp as int,
            status: self.status,
        }
    }
}

/// Payload of the create handler: everything but the id (which the store
/// assigns) and the status (which starts false).
pub struct CreateData {
    pub title: String,
    pub description: String,
    pub timestamp: i64,
}

/// The mathematical value of a create payload.
pub struct CreateView {
    pub title: Seq<char>,
    pub description: Seq<char>,
    pub timestamp: int,
}

impl View for CreateData {
    type V = CreateView;

    open spec fn view(&self) -> CreateView {
        CreateView {
            title: self.title@,
            description: self.description@,
            timestamp: self.timestamp as int,
        }
    }
}

/// Payload of the delete handler.
pub struct DeleteData {
    pub id: String,
}

impl Clone for TodoData {
    fn clone(&self) -> (res: Self)
        ensures
            res@ == self@,
    {
        TodoData {
            id: self.id.clone(),
            title: self.title.clone(),
            description: self.description.clone(),
            timestamp: self.timestamp,
            status: self.status,
        }
    }
}

/// Outcome flag of a mutating handler.  The wire spelling of the success
/// case is `"Sucess"`, kept exactly as the service has always reported it.
#[derive(PartialEq, Eq, Structural, Clone, Copy, Debug)]
pub enum ApiStatus {
    Sucess,
    Failed,
}

/// What a mutating handler reports back: a status flag and a free-text
/// message.  The HTTP layer renders it as `{"status": ..., "message": ...}`
/// with status 200 in every case.
pub struct ApiResponse {
    pub status: ApiStatus,
    pub message: String,
}

impl ApiResponse {
    /// The wire text of the status flag.
    pub fn status_text(&self) -> (r: &'static str)
        ensures
            self.status == ApiStatus::Sucess ==> r@ == "Sucess"@,
            self.status == ApiStatus::Failed ==> r@ == "Failed"@,
    {
        match self.status {
            ApiStatus::Sucess => "Sucess",
            ApiStatus::Failed => "Failed",
        }
    }
}

} // verus!
