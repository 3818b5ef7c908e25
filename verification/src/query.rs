//! The exact query text each handler executes.  Free-text fields are
//! escaped before interpolation (a single quote inside a quoted literal is
//! written twice), and an id is interpolated unquoted only after it has
//! been checked to be a well-formed row key, so no request value can change
//! the shape of a query.

use vstd::prelude::*;
use vstd::string::StringExecFns;
use vstd::string::StrSliceExecFns;
use crate::item::CreateData;
use crate::item::TodoData;
use crate::numfmt::bool_chars;
use crate::numfmt::bool_str;
use crate::numfmt::dec_i64;
use crate::numfmt::i64_to_string;
use crate::uuidfmt::is_uuid;
use crate::uuidfmt::is_uuid_seq;

verus! {

/// How one character is written inside a single-quoted query literal.
pub open spec fn escape_char(c: char) -> Seq<char> {
    if c == '\'' {
        seq!['\'', '\'']
    } else {
        seq![c]
    }
}

/// A string as it is written inside a single-quoted query literal: every
/// single quote doubled, every other character kept.
pub open spec fn escaped(s: Seq<char>) -> Seq<char>
    decreases s.len(),
{
    if s.len() == 0 {
        Seq::empty()
    } else {
        escape_char(s[0]) + escaped(s.drop_first())
    }
}

/// Escaping works element by element from either end.
proof fn lemma_escaped_push(s: Seq<char>, c: char)
    ensures
        escaped(s.push(c)) == escaped(s) + escape_char(c),
    decreases s.len(),
{
    if s.len() == 0 {
        assert(s.push(c)[0] == c);
        assert(s.push(c).drop_first() =~= Seq::<char>::empty());
        assert(escaped(s.push(c).drop_first()) =~= Seq::<char>::empty());
        assert(escaped(s.push(c)) =~= escape_char(c));
        assert(escaped(s) + escape_char(c) =~= escape_char(c));
    } else {
        assert(s.push(c)[0] == s[0]);
        assert(s.push(c).drop_first() =~= s.drop_first().push(c));
        lemma_escaped_push(s.drop_first(), c);
        assert(escaped(s.push(c)) =~= escaped(s) + escape_char(c));
    }
}

/// Relies on `String::push`: appends exactly one character.
#[verifier::external_body]
fn push_char(s: &mut String, c: char)
    ensures
        final(s)@ == old(s)@ + seq![c],
{
    s.push(c);
}

/// The text of `s` as it stands inside a single-quoted query literal.
pub fn escape_cql(s: &str) -> (r: String)
    ensures
        r@ == escaped(s@),
{
    let len = s.unicode_len();
    let mut r = String::new();
    let mut i: usize = 0;
    while i < len
        invariant
            0 <= i <= len,
            len == s@.len(),
            r@ == escaped(s@.take(i as int)),
        decreases len - i,
    {
        let c = s.get_char(i);
        if c == '\'' {
            push_char(&mut r, '\'');
            push_char(&mut r, '\'');
        } else {
            push_char(&mut r, c);
        }
        proof {
            lemma_escaped_push(s@.take(i as int), s@[i as int]);
            assert(s@.take(i + 1) =~= s@.take(i as int).push(s@[i as int]));
            assert(r@ =~= escaped(s@.take(i + 1)));
        }
        i += 1;
    }
    proof {
        assert(s@.take(len as int) =~= s@);
    }
    r
}

/// Text of the idempotent keyspace-creation statement.
pub fn create_keyspace_query() -> (r: String)
    ensures
        r@ == "CREATE KEYSPACE IF NOT EXISTS todo_app WITH REPLICATION = { 'class' : 'SimpleStrategy', 'replication_factor' : 1 };"@,
{
    "CREATE KEYSPACE IF NOT EXISTS todo_app WITH REPLICATION = { 'class' : 'SimpleStrategy', 'replication_factor' : 1 };".to_owned()
}

/// Text of the idempotent table-creation statement.
pub fn create_table_query() -> (r: String)
    ensures
        r@ == "CREATE TABLE IF NOT EXISTS todo_app.lists (id UUID PRIMARY KEY, insertion_time TIME, title TEXT, description TEXT, status BOOLEAN);"@,
{
    "CREATE TABLE IF NOT EXISTS todo_app.lists (id UUID PRIMARY KEY, insertion_time TIME, title TEXT, description TEXT, status BOOLEAN);".to_owned()
}

/// Text of the read-all statement.
pub fn read_query() -> (r: String)
    ensures
        r@ == "SELECT * FROM todo_app.lists"@,
{
    "SELECT * FROM todo_app.lists".to_owned()
}

/// Text of the insert statement for a create payload: the store picks the
/// id (`uuid()`), the status starts false.
pub open spec fn create_query_seq(title: Seq<char>, description: Seq<char>, timestamp: int) -> Seq<
    char,
> {
    "INSERT INTO todo_app.lists (id, title, description, insertion_time, status) VALUES (uuid(), '"@
        + escaped(title) + "', '"@ + escaped(description) + "', "@ + dec_i64(timestamp)
        + ", false);"@
}

/// Builds the insert statement for `data`.
pub fn create_query(data: &CreateData) -> (r: String)
    ensures
        r@ == create_query_seq(data.title@, data.description@, data.timestamp as int),
{
    let mut r =
        "INSERT INTO todo_app.lists (id, title, description, insertion_time, status) VALUES (uuid(), '".to_owned();
    let title = escape_cql(data.title.as_str());
    r.append(title.as_str());
    r.append("', '");
    let description = escape_cql(data.description.as_str());
    r.append(description.as_str());
    r.append("', ");
    let ts = i64_to_string(data.timestamp);
    r.append(ts.as_str());
    r.append(", false);");
    proof {
        assert(r@ =~= create_query_seq(data.title@, data.description@, data.timestamp as int));
    }
    r
}

/// Text of the full-replace update statement for an item, keyed by its id.
pub open spec fn update_query_seq(item: TodoData) -> Seq<char> {
    "UPDATE todo_app.lists SET status = "@ + bool_chars(item.status) + ", description = '"@
        + escaped(item.description@) + "', title = '"@ + escaped(item.title@)
        + "', insertion_time = "@ + dec_i64(item.timestamp as int) + " WHERE id = "@ + item.id@
}

/// Builds the update statement for `data`, or nothing when the id is not a
/// well-formed row key (such an id never reaches query text).
pub fn update_query(data: &TodoData) -> (r: Option<String>)
    ensures
        r is Some <==> is_uuid_seq(data.id@),
        r matches Some(q) ==> q@ == update_query_seq(*data),
{
    if !is_uuid(data.id.as_str()) {
        return None;
    }
    let mut r = "UPDATE todo_app.lists SET status = ".to_owned();
    r.append(bool_str(data.status));
    r.append(", description = '");
    let description = escape_cql(data.description.as_str());
    r.append(description.as_str());
    r.append("', title = '");
    let title = escape_cql(data.title.as_str());
    r.append(title.as_str());
    r.append("', insertion_time = ");
    let ts = i64_to_string(data.timestamp);
    r.append(ts.as_str());
    r.append(" WHERE id = ");
    r.append(data.id.as_str());
    proof {
        assert(r@ =~= update_query_seq(*data));
    }
    Some(r)
}

/// Text of the conditional delete statement for an id.
pub open spec fn delete_query_seq(id: Seq<char>) -> Seq<char> {
    "DELETE FROM todo_app.lists WHERE id="@ + id + " IF EXISTS;"@
}

/// Builds the delete statement for `id`, or nothing when `id` is not a
/// well-formed row key (such an id never reaches query text).
pub fn delete_query(id: &str) -> (r: Option<String>)
    ensures
        r is Some <==> is_uuid_seq(id@),
        r matches Some(q) ==> q@ == delete_query_seq(id@),
{
    if !is_uuid(id) {
        return None;
    }
    let mut r = "DELETE FROM todo_app.lists WHERE id=".to_owned();
    r.append(id);
    r.append(" IF EXISTS;");
    proof {
        assert(r@ =~= delete_query_seq(id@));
    }
    Some(r)
}

} // verus!
