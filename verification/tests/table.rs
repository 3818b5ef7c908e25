use todo_app::item::ApiStatus;
use todo_app::item::CreateData;
use todo_app::item::DeleteData;
use todo_app::item::TodoData;
use todo_app::store::Table;
use todo_app::uuidfmt::is_uuid;

const KEY_A: u128 = 0x67e55044_10b1_426f_9247_bb680e5fe0c8;
const KEY_B: u128 = 0x00000000_0000_0000_0000_000000000001;

fn milk_payload() -> CreateData {
    CreateData {
        title: String::from("buy milk"),
        description: String::from("2%"),
        timestamp: 1700000000,
    }
}

#[test]
fn read_on_empty_table_is_empty() {
    let table = Table::new();
    let rows = table.read_data();
    assert!(rows.is_empty());
}

#[test]
fn created_row_is_retrievable() {
    let mut table = Table::new();
    let resp = table.create_data(&milk_payload(), KEY_A);
    assert_eq!(resp.status, ApiStatus::Sucess);
    assert_eq!(resp.message, "Successfully create data");
    assert_eq!(resp.status_text(), "Sucess");

    let rows = table.read_data();
    assert_eq!(rows.len(), 1);
    assert_eq!(rows[0].title, "buy milk");
    assert_eq!(rows[0].description, "2%");
    assert_eq!(rows[0].timestamp, 1700000000);
    assert!(!rows[0].status);
    assert!(is_uuid(&rows[0].id));
}

#[test]
fn update_of_existing_row_is_reflected() {
    let mut table = Table::new();
    table.create_data(&milk_payload(), KEY_A);
    let id = table.read_data()[0].id.clone();

    let resp = table.update_data(&TodoData {
        id: id.clone(),
        title: String::from("buy oat milk"),
        description: String::from("barista"),
        timestamp: 1800000000,
        status: true,
    });
    assert_eq!(resp.status, ApiStatus::Sucess);
    assert_eq!(resp.message, "Successfully update data");

    let rows = table.read_data();
    assert_eq!(rows.len(), 1);
    assert_eq!(rows[0].id, id);
    assert_eq!(rows[0].title, "buy oat milk");
    assert_eq!(rows[0].description, "barista");
    assert_eq!(rows[0].timestamp, 1800000000);
    assert!(rows[0].status);
}

#[test]
fn update_of_absent_id_is_noop_success() {
    let mut table = Table::new();
    table.create_data(&milk_payload(), KEY_A);

    let resp = table.update_data(&TodoData {
        id: String::from("00000000-0000-0000-0000-00000000ffff"),
        title: String::from("nothing"),
        description: String::from("nothing"),
        timestamp: 0,
        status: true,
    });
    assert_eq!(resp.status, ApiStatus::Sucess);

    let rows = table.read_data();
    assert_eq!(rows.len(), 1);
    assert_eq!(rows[0].title, "buy milk");
    assert!(!rows[0].status);
}

#[test]
fn update_with_malformed_id_is_reported() {
    let mut table = Table::new();
    let resp = table.update_data(&TodoData {
        id: String::from("not-a-uuid"),
        title: String::new(),
        description: String::new(),
        timestamp: 0,
        status: false,
    });
    assert_eq!(resp.status, ApiStatus::Failed);
    assert_eq!(
        resp.message,
        "Failed to execute update query : id is not a well-formed UUID"
    );
    assert_eq!(resp.status_text(), "Failed");
}

#[test]
fn deleted_row_is_gone() {
    let mut table = Table::new();
    table.create_data(&milk_payload(), KEY_A);
    table.create_data(
        &CreateData {
            title: String::from("water plants"),
            description: String::from("balcony"),
            timestamp: 10,
        },
        KEY_B,
    );
    let id = table.read_data()[0].id.clone();

    let resp = table.delete_data(&DeleteData { id: id.clone() });
    assert_eq!(resp.status, ApiStatus::Sucess);
    assert_eq!(resp.message, "Successfully delete requested id");

    let rows = table.read_data();
    assert_eq!(rows.len(), 1);
    assert!(rows.iter().all(|r| r.id != id));
    assert_eq!(rows[0].title, "water plants");
}

#[test]
fn delete_of_absent_id_is_reported_miss() {
    let mut table = Table::new();
    table.create_data(&milk_payload(), KEY_A);
    let resp = table.delete_data(&DeleteData {
        id: String::from("00000000-0000-0000-0000-00000000ffff"),
    });
    assert_eq!(resp.status, ApiStatus::Failed);
    assert_eq!(
        resp.message,
        "Failed to execute delete query : no row matches the requested id"
    );
    assert_eq!(table.read_data().len(), 1);
}

#[test]
fn delete_with_malformed_id_is_reported() {
    let mut table = Table::new();
    let resp = table.delete_data(&DeleteData { id: String::from("zz") });
    assert_eq!(resp.status, ApiStatus::Failed);
    assert_eq!(
        resp.message,
        "Failed to execute delete query : id is not a well-formed UUID"
    );
}

#[test]
fn create_update_delete_scenario() {
    let mut table = Table::new();

    let resp = table.create_data(&milk_payload(), KEY_A);
    assert_eq!(resp.status, ApiStatus::Sucess);

    let rows = table.read_data();
    assert_eq!(rows.len(), 1);
    assert_eq!(rows[0].title, "buy milk");
    assert_eq!(rows[0].description, "2%");
    assert_eq!(rows[0].timestamp, 1700000000);
    assert!(!rows[0].status);
    let id = rows[0].id.clone();
    assert_eq!(id.len(), 36);
    assert!(id.chars().all(|c| c == '-' || c.is_ascii_hexdigit()));
    assert!(id.chars().all(|c| !c.is_ascii_uppercase()));

    let resp = table.update_data(&TodoData {
        id: id.clone(),
        title: String::from("buy milk"),
        description: String::from("2%"),
        timestamp: 1700000000,
        status: true,
    });
    assert_eq!(resp.status, ApiStatus::Sucess);
    let rows = table.read_data();
    assert_eq!(rows.len(), 1);
    assert!(rows[0].status);

    let resp = table.delete_data(&DeleteData { id });
    assert_eq!(resp.status, ApiStatus::Sucess);
    assert!(table.read_data().is_empty());
}

#[test]
fn distinct_keys_keep_distinct_ids() {
    let mut table = Table::new();
    table.create_data(&milk_payload(), KEY_A);
    table.create_data(&milk_payload(), KEY_B);
    let rows = table.read_data();
    assert_eq!(rows.len(), 2);
    assert_ne!(rows[0].id, rows[1].id);
}
