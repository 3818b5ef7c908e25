//! Verified core of a small todo-list backend over a wide-column store.
//!
//! The library holds everything the service decides or computes: the
//! row-to-record mapping, the query texts each handler executes, the
//! semantic model of the single `todo_app.lists` table, and the JSON-level
//! outcome each handler reports.  Networking, the HTTP server and the
//! database driver live outside the library and hand it plain values.

pub mod item;
pub mod numfmt;
pub mod uuidfmt;
pub mod query;
pub mod row;
pub mod store;
