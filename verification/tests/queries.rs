use todo_app::item::CreateData;
use todo_app::item::TodoData;
use todo_app::numfmt::i64_to_string;
use todo_app::numfmt::u64_to_string;
use todo_app::query::create_keyspace_query;
use todo_app::query::create_query;
use todo_app::query::create_table_query;
use todo_app::query::delete_query;
use todo_app::query::escape_cql;
use todo_app::query::read_query;
use todo_app::query::update_query;
use todo_app::row::Column;
use todo_app::row::DbRow;
use todo_app::uuidfmt::is_uuid;

#[test]
fn schema_statements() {
    assert_eq!(
        create_keyspace_query(),
        "CREATE KEYSPACE IF NOT EXISTS todo_app WITH REPLICATION = { 'class' : 'SimpleStrategy', 'replication_factor' : 1 };"
    );
    assert_eq!(
        create_table_query(),
        "CREATE TABLE IF NOT EXISTS todo_app.lists (id UUID PRIMARY KEY, insertion_time TIME, title TEXT, description TEXT, status BOOLEAN);"
    );
    assert_eq!(read_query(), "SELECT * FROM todo_app.lists");
}

#[test]
fn create_statement_text() {
    let data = CreateData {
        title: String::from("buy milk"),
        description: String::from("2%"),
        timestamp: 1700000000,
    };
    assert_eq!(
        create_query(&data),
        "INSERT INTO todo_app.lists (id, title, description, insertion_time, status) VALUES (uuid(), 'buy milk', '2%', 1700000000, false);"
    );
}

#[test]
fn create_statement_escapes_quotes() {
    let data = CreateData {
        title: String::from("it's urgent"),
        description: String::from("don't; DROP TABLE"),
        timestamp: -5,
    };
    assert_eq!(
        create_query(&data),
        "INSERT INTO todo_app.lists (id, title, description, insertion_time, status) VALUES (uuid(), 'it''s urgent', 'don''t; DROP TABLE', -5, false);"
    );
}

#[test]
fn update_statement_text() {
    let item = TodoData {
        id: String::from("67e55044-10b1-426f-9247-bb680e5fe0c8"),
        title: String::from("buy milk"),
        description: String::from("2%"),
        timestamp: 1700000000,
        status: true,
    };
    assert_eq!(
        update_query(&item).unwrap(),
        "UPDATE todo_app.lists SET status = true, description = '2%', title = 'buy milk', insertion_time = 1700000000 WHERE id = 67e55044-10b1-426f-9247-bb680e5fe0c8"
    );
}

#[test]
fn update_statement_rejects_bad_id() {
    let item = TodoData {
        id: String::from("1 OR 1=1"),
        title: String::new(),
        description: String::new(),
        timestamp: 0,
        status: false,
    };
    assert!(update_query(&item).is_none());
}

#[test]
fn delete_statement_text() {
    let q = delete_query("67e55044-10b1-426f-9247-bb680e5fe0c8").unwrap();
    assert_eq!(
        q,
        "DELETE FROM todo_app.lists WHERE id=67e55044-10b1-426f-9247-bb680e5fe0c8 IF EXISTS;"
    );
}

#[test]
fn delete_statement_rejects_bad_id() {
    assert!(delete_query("").is_none());
    assert!(delete_query("67e55044-10b1-426f-9247").is_none());
    assert!(delete_query("67e55044-10b1-426f-9247-bb680e5fe0c8; DROP").is_none());
    assert!(delete_query("67E55044-10B1-426F-9247-BB680E5FE0C8").is_none());
}

#[test]
fn escaping_doubles_single_quotes() {
    assert_eq!(escape_cql(""), "");
    assert_eq!(escape_cql("plain"), "plain");
    assert_eq!(escape_cql("it's"), "it''s");
    assert_eq!(escape_cql("''"), "''''");
}

#[test]
fn unsigned_decimal_text() {
    assert_eq!(u64_to_string(0), "0");
    assert_eq!(u64_to_string(7), "7");
    assert_eq!(u64_to_string(1700000000), "1700000000");
    assert_eq!(u64_to_string(u64::MAX), "18446744073709551615");
}

#[test]
fn signed_decimal_text() {
    assert_eq!(i64_to_string(0), "0");
    assert_eq!(i64_to_string(42), "42");
    assert_eq!(i64_to_string(-42), "-42");
    assert_eq!(i64_to_string(i64::MAX), "9223372036854775807");
    assert_eq!(i64_to_string(i64::MIN), "-9223372036854775808");
}

fn mapped_id(key: u128) -> String {
    let row = DbRow {
        id: Column::Present(key),
        title: Column::Present(String::new()),
        description: Column::Present(String::new()),
        insertion_time: Column::Present(0i64),
        status: Column::Present(false),
    };
    TodoData::try_from_row(row).unwrap().id
}

#[test]
fn uuid_text_shape() {
    let s = mapped_id(0);
    assert_eq!(s, "00000000-0000-0000-0000-000000000000");
    assert!(is_uuid(&s));
    let s = mapped_id(u128::MAX);
    assert_eq!(s, "ffffffff-ffff-ffff-ffff-ffffffffffff");
    assert!(is_uuid(&s));
}

#[test]
fn uuid_validation() {
    assert!(is_uuid("67e55044-10b1-426f-9247-bb680e5fe0c8"));
    assert!(!is_uuid("67e55044-10b1-426f-9247-bb680e5fe0c"));
    assert!(!is_uuid("67e55044+10b1-426f-9247-bb680e5fe0c8"));
    assert!(!is_uuid("67e55044-10b1-426f-9247-bb680e5fe0cg"));
    assert!(!is_uuid(""));
}
