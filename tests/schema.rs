use church_fund_records::schema::table_columns;
use church_fund_records::{
    migrations, Column, ColumnName, ColumnType, MigrationKind, Schema, StoreError, TableName,
    LATEST_VERSION,
};

fn names(s: &Schema) -> Vec<TableName> {
    s.tables().iter().map(|t| t.name).collect()
}

#[test]
fn upgrade_creates_four_tables_and_downgrade_drops_them() {
    let mut s = Schema::new();
    assert_eq!(s.version(), 0);
    assert!(s.tables().is_empty());
    assert_eq!(s.upgrade(1), Ok(()));
    assert_eq!(s.version(), 1);
    assert_eq!(
        names(&s),
        vec![TableName::Church, TableName::Member, TableName::FundType, TableName::Fund]
    );
    let counts: Vec<usize> = s.tables().iter().map(|t| t.columns.len()).collect();
    assert_eq!(counts, vec![8, 9, 5, 7]);
    for t in s.tables() {
        assert_eq!(t.columns, table_columns(t.name));
    }
    assert_eq!(s.downgrade(0), Ok(()));
    assert_eq!(s.version(), 0);
    assert!(s.tables().is_empty());
}

#[test]
fn upgrade_to_unknown_version_fails_and_changes_nothing() {
    let mut s = Schema::new();
    assert_eq!(s.upgrade(LATEST_VERSION + 1), Err(StoreError::StorageError));
    assert_eq!(s.version(), 0);
    assert!(s.tables().is_empty());
}

#[test]
fn upgrade_and_downgrade_apply_at_most_once() {
    let mut s = Schema::new();
    assert_eq!(s.downgrade(0), Ok(()));
    assert_eq!(s.version(), 0);
    assert_eq!(s.upgrade(1), Ok(()));
    assert_eq!(s.upgrade(1), Ok(()));
    assert_eq!(s.upgrade(0), Ok(()));
    assert_eq!(s.version(), 1);
    assert_eq!(s.tables().len(), 4);
    assert_eq!(s.downgrade(1), Ok(()));
    assert_eq!(s.tables().len(), 4);
}

#[test]
fn fund_table_columns() {
    let cols = table_columns(TableName::Fund);
    assert_eq!(
        cols[0],
        Column { name: ColumnName::Id, ty: ColumnType::Integer, nullable: false, primary_key: true }
    );
    assert_eq!(cols[2].name, ColumnName::Amount);
    assert_eq!(cols[2].ty, ColumnType::Real);
    assert_eq!(cols[3].name, ColumnName::EndowDate);
    assert_eq!(cols[3].ty, ColumnType::Text);
    let nullable: Vec<ColumnName> =
        table_columns(TableName::Church).iter().filter(|c| c.nullable).map(|c| c.name).collect();
    assert_eq!(nullable, vec![ColumnName::Email, ColumnName::Phone2]);
}

#[test]
fn migration_scripts_text() {
    let ms = migrations();
    assert_eq!(ms.len(), 2);
    assert_eq!(ms[0].version, 1);
    assert_eq!(ms[0].kind, MigrationKind::Down);
    assert_eq!(ms[0].description, "drop_tables_if_exist");
    assert_eq!(
        ms[0].sql,
        "DROP TABLE IF EXISTS church;\nDROP TABLE IF EXISTS member;\n\
         DROP TABLE IF EXISTS fund_type;\nDROP TABLE IF EXISTS fund;\n"
    );
    assert_eq!(ms[1].version, 1);
    assert_eq!(ms[1].kind, MigrationKind::Up);
    assert_eq!(ms[1].description, "create_initial_tables");
    let expected = "CREATE TABLE church (id INTEGER PRIMARY KEY, name TEXT, email TEXT NULLABLE, \
         address TEXT, phone1 TEXT, phone2 TEXT NULLABLE, created_at INTEGER, modified_at INTEGER);\n\
         CREATE TABLE member (id INTEGER PRIMARY KEY, name TEXT, email TEXT NULLABLE, \
         address TEXT, phone1 TEXT, phone2 TEXT NULLABLE, church_id INTEGER, created_at INTEGER, \
         modified_at INTEGER);\n\
         CREATE TABLE fund_type (id INTEGER PRIMARY KEY, name TEXT, description TEXT NULLABLE, \
         created_at INTEGER, modified_at INTEGER);\n\
         CREATE TABLE fund (id INTEGER PRIMARY KEY, member_id INTEGER, amount REAL, \
         endow_date TEXT, fund_type_id INTEGER, created_at INTEGER, modified_at INTEGER);\n";
    assert_eq!(ms[1].sql, expected);
}
