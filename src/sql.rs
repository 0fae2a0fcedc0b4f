//! SQL text of the migration scripts, generated from the schema model.
use vstd::prelude::*;
use crate::schema::{columns_of, table_columns, tables_at, Column, ColumnName, ColumnType, TableName};

verus! {

/// Relies on `String::push_str`: appends the slice to the end of the string.
#[verifier::external_body]
fn append(s: &mut String, t: &str)
    ensures
        final(s)@ == old(s)@ + t@,
{
    s.push_str(t)
}

pub open spec fn table_text(t: TableName) -> Seq<char> {
    match t {
        TableName::Church => "church"@,
        TableName::Member => "member"@,
        TableName::FundType => "fund_type"@,
        TableName::Fund => "fund"@,
    }
}

pub open spec fn column_name_text(c: ColumnName) -> Seq<char> {
    match c {
        ColumnName::Id => "id"@,
        ColumnName::Name => "name"@,
        ColumnName::Email => "email"@,
        ColumnName::Address => "address"@,
        ColumnName::Phone1 => "phone1"@,
        ColumnName::Phone2 => "phone2"@,
        ColumnName::ChurchId => "church_id"@,
        ColumnName::Description => "description"@,
        ColumnName::MemberId => "member_id"@,
        ColumnName::Amount => "amount"@,
        ColumnName::EndowDate => "endow_date"@,
        ColumnName::FundTypeId => "fund_type_id"@,
        ColumnName::CreatedAt => "created_at"@,
        ColumnName::ModifiedAt => "modified_at"@,
    }
}

pub open spec fn column_type_text(t: ColumnType) -> Seq<char> {
    match t {
        ColumnType::Integer => "INTEGER"@,
        ColumnType::Text => "TEXT"@,
        ColumnType::Real => "REAL"@,
    }
}

pub open spec fn column_suffix(c: Column) -> Seq<char> {
    if c.primary_key {
        " PRIMARY KEY"@
    } else if c.nullable {
        " NULLABLE"@
    } else {
        Seq::empty()
    }
}

/// A column definition: `name TYPE`, with `PRIMARY KEY` or `NULLABLE` where it applies.
pub open spec fn column_sql(c: Column) -> Seq<char> {
    column_name_text(c.name) + " "@ + column_type_text(c.ty) + column_suffix(c)
}

/// Column definitions separated by `, `.
pub open spec fn columns_sql(cols: Seq<Column>) -> Seq<char>
    decreases cols.len(),
{
    if cols.len() == 0 {
        Seq::empty()
    } else if cols.len() == 1 {
        column_sql(cols[0])
    } else {
        columns_sql(cols.drop_last()) + ", "@ + column_sql(cols.last())
    }
}

pub open spec fn create_table_sql(t: TableName) -> Seq<char> {
    "CREATE TABLE "@ + table_text(t) + " ("@ + columns_sql(columns_of(t)) + ");\n"@
}

pub open spec fn drop_table_sql(t: TableName) -> Seq<char> {
    "DROP TABLE IF EXISTS "@ + table_text(t) + ";\n"@
}

/// One `CREATE TABLE` statement per table, in order.
pub open spec fn create_script(ts: Seq<TableName>) -> Seq<char>
    decreases ts.len(),
{
    if ts.len() == 0 {
        Seq::empty()
    } else {
        create_script(ts.drop_last()) + create_table_sql(ts.last())
    }
}

/// One `DROP TABLE IF EXISTS` statement per table, in order.
pub open spec fn drop_script(ts: Seq<TableName>) -> Seq<char>
    decreases ts.len(),
{
    if ts.len() == 0 {
        Seq::empty()
    } else {
        drop_script(ts.drop_last()) + drop_table_sql(ts.last())
    }
}

fn table_name_str(t: TableName) -> (r: &'static str)
    ensures
        r@ == table_text(t),
{
    match t {
        TableName::Church => "church",
        TableName::Member => "member",
        TableName::FundType => "fund_type",
        TableName::Fund => "fund",
    }
}

fn column_name_str(c: ColumnName) -> (r: &'static str)
    ensures
        r@ == column_name_text(c),
{
    match c {
        ColumnName::Id => "id",
        ColumnName::Name => "name",
        ColumnName::Email => "email",
        ColumnName::Address => "address",
        ColumnName::Phone1 => "phone1",
        ColumnName::Phone2 => "phone2",
        ColumnName::ChurchId => "church_id",
        ColumnName::Description => "description",
        ColumnName::MemberId => "member_id",
        ColumnName::Amount => "amount",
        ColumnName::EndowDate => "endow_date",
        ColumnName::FundTypeId => "fund_type_id",
        ColumnName::CreatedAt => "created_at",
        ColumnName::ModifiedAt => "modified_at",
    }
}

fn column_type_str(t: ColumnType) -> (r: &'static str)
    ensures
        r@ == column_type_text(t),
{
    match t {
        ColumnType::Integer => "INTEGER",
        ColumnType::Text => "TEXT",
        ColumnType::Real => "REAL",
    }
}

fn push_column(s: &mut String, c: Column)
    ensures
        final(s)@ == old(s)@ + column_sql(c),
{
    let ghost s0 = s@;
    append(s, column_name_str(c.name));
    append(s, " ");
    append(s, column_type_str(c.ty));
    if c.primary_key {
        append(s, " PRIMARY KEY");
    } else if c.nullable {
        append(s, " NULLABLE");
    }
    assert(s@ =~= s0 + column_sql(c));
}

/// Appends the `CREATE TABLE` statement of `t`.
fn push_create_table(s: &mut String, t: TableName)
    ensures
        final(s)@ == old(s)@ + create_table_sql(t),
{
    let ghost s0 = s@;
    append(s, "CREATE TABLE ");
    append(s, table_name_str(t));
    append(s, " (");
    let ghost head = s@;
    let cols = table_columns(t);
    let mut i: usize = 0;
    while i < cols.len()
        invariant
            cols@ == columns_of(t),
            i <= cols@.len(),
            s@ == head + columns_sql(cols@.subrange(0, i as int)),
        decreases cols@.len() - i,
    {
        if i > 0 {
            append(s, ", ");
        }
        push_column(s, cols[i]);
        proof {
            let sub = cols@.subrange(0, i + 1);
            assert(sub.drop_last() =~= cols@.subrange(0, i as int));
            assert(sub.last() == cols@[i as int]);
            assert(s@ =~= head + columns_sql(sub));
        }
        i = i + 1;
    }
    append(s, ");\n");
    assert(cols@.subrange(0, cols@.len() as int) =~= columns_of(t));
    assert(s@ =~= s0 + create_table_sql(t));
}

/// Appends the `DROP TABLE IF EXISTS` statement of `t`.
fn push_drop_table(s: &mut String, t: TableName)
    ensures
        final(s)@ == old(s)@ + drop_table_sql(t),
{
    let ghost s0 = s@;
    append(s, "DROP TABLE IF EXISTS ");
    append(s, table_name_str(t));
    append(s, ";\n");
    assert(s@ =~= s0 + drop_table_sql(t));
}

fn version_tables(version: u32) -> (r: Vec<TableName>)
    requires
        version >= 1,
    ensures
        r@ == tables_at(version),
{
    let r = vec![TableName::Church, TableName::Member, TableName::FundType, TableName::Fund];
    assert(r@ =~= tables_at(version));
    r
}

/// The script that creates the tables of version 1.
pub fn create_tables_sql() -> (r: String)
    ensures
        r@ == create_script(tables_at(1)),
{
    let ts = version_tables(1);
    let mut s = String::new();
    let mut i: usize = 0;
    while i < ts.len()
        invariant
            ts@ == tables_at(1),
            i <= ts@.len(),
            s@ == create_script(ts@.subrange(0, i as int)),
        decreases ts@.len() - i,
    {
        push_create_table(&mut s, ts[i]);
        proof {
            let sub = ts@.subrange(0, i + 1);
            assert(sub.drop_last() =~= ts@.subrange(0, i as int));
        }
        i = i + 1;
    }
    assert(ts@.subrange(0, ts@.len() as int) =~= ts@);
    s
}

/// The script that drops the tables of version 1.
pub fn drop_tables_sql() -> (r: String)
    ensures
        r@ == drop_script(tables_at(1)),
{
    let ts = version_tables(1);
    let mut s = String::new();
    let mut i: usize = 0;
    while i < ts.len()
        invariant
            ts@ == tables_at(1),
            i <= ts@.len(),
            s@ == drop_script(ts@.subrange(0, i as int)),
        decreases ts@.len() - i,
    {
        push_drop_table(&mut s, ts[i]);
        proof {
            let sub = ts@.subrange(0, i + 1);
            assert(sub.drop_last() =~= ts@.subrange(0, i as int));
        }
        i = i + 1;
    }
    assert(ts@.subrange(0, ts@.len() as int) =~= ts@);
    s
}

/// Whether a script leads to its version or back from it.
#[derive(Debug, Clone, Copy, PartialEq, Eq, Structural)]
pub enum MigrationKind {
    Up,
    Down,
}

/// A versioned script of the store's schema.
pub struct Migration {
    pub version: u32,
    pub description: &'static str,
    pub sql: String,
    pub kind: MigrationKind,
}

/// The migrations of the schema: for version 1, the script that drops its
/// tables and the script that creates them.
pub fn migrations() -> (r: Vec<Migration>)
    ensures
        r@.len() == 2,
        r@[0].version == 1,
        r@[0].kind == MigrationKind::Down,
        r@[0].description@ == "drop_tables_if_exist"@,
        r@[0].sql@ == drop_script(tables_at(1)),
        r@[1].version == 1,
        r@[1].kind == MigrationKind::Up,
        r@[1].description@ == "create_initial_tables"@,
        r@[1].sql@ == create_script(tables_at(1)),
{
    let down = Migration {
        version: 1,
        description: "drop_tables_if_exist",
        sql: drop_tables_sql(),
        kind: MigrationKind::Down,
    };
    let up = Migration {
        version: 1,
        description: "create_initial_tables",
        sql: create_tables_sql(),
        kind: MigrationKind::Up,
    };
    vec![down, up]
}

} // verus!
