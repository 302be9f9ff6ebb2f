use gimbal::database::drivers::postgres::{get_column_type, Postgres};
use gimbal::database::ColumnType;

#[test]
fn conn_string_layout() {
    let db = Postgres::new("localhost", "admin", "appdb", "secret");
    assert_eq!(
        db.conn_string(),
        "host=localhost user=admin dbname=appdb user=admin password=secret"
    );
}

#[test]
fn varchar_maps_to_string_column() {
    assert_eq!(get_column_type("varchar"), ColumnType::Str);
}
