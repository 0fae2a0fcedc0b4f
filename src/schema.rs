//! The relational schema of the store: its four tables and their columns,
//! and the versioned migration that creates or drops them.
use vstd::prelude::*;
use crate::error::StoreError;

verus! {

/// The newest schema version that a migration leads to.
pub const LATEST_VERSION: u32 = 1;

#[derive(Debug, Clone, Copy, PartialEq, Eq, Structural)]
pub enum TableName {
    Church,
    Member,
    FundType,
    Fund,
}

#[derive(Debug, Clone, Copy, PartialEq, Eq, Structural)]
pub enum ColumnName {
    Id,
    Name,
    Email,
    Address,
    Phone1,
    Phone2,
    ChurchId,
    Description,
    MemberId,
    Amount,
    EndowDate,
    FundTypeId,
    CreatedAt,
    ModifiedAt,
}

#[derive(Debug, Clone, Copy, PartialEq, Eq, Structural)]
pub enum ColumnType {
    Integer,
    Text,
    Real,
}

/// One column of a table.
#[derive(Debug, Clone, Copy, PartialEq, Eq, Structural)]
pub struct Column {
    pub name: ColumnName,
    pub ty: ColumnType,
    pub nullable: bool,
    pub primary_key: bool,
}

pub open spec fn key_column() -> Column {
    Column { name: ColumnName::Id, ty: ColumnType::Integer, nullable: false, primary_key: true }
}

pub open spec fn column(name: ColumnName, ty: ColumnType, nullable: bool) -> Column {
    Column { name, ty, nullable, primary_key: false }
}

/// The documented columns of each table, in order.
pub open spec fn columns_of(t: TableName) -> Seq<Column> {
    match t {
        TableName::Church => seq![
            key_column(),
            column(ColumnName::Name, ColumnType::Text, false),
            column(ColumnName::Email, ColumnType::Text, true),
            column(ColumnName::Address, ColumnType::Text, false),
            column(ColumnName::Phone1, ColumnType::Text, false),
            column(ColumnName::Phone2, ColumnType::Text, true),
            column(ColumnName::CreatedAt, ColumnType::Integer, false),
            column(ColumnName::ModifiedAt, ColumnType::Integer, false),
        ],
        TableName::Member => seq![
            key_column(),
            column(ColumnName::Name, ColumnType::Text, false),
            column(ColumnName::Email, ColumnType::Text, true),
            column(ColumnName::Address, ColumnType::Text, false),
            column(ColumnName::Phone1, ColumnType::Text, false),
            column(ColumnName::Phone2, ColumnType::Text, true),
            column(ColumnName::ChurchId, ColumnType::Integer, false),
            column(ColumnName::CreatedAt, ColumnType::Integer, false),
            column(ColumnName::ModifiedAt, ColumnType::Integer, false),
        ],
        TableName::FundType => seq![
            key_column(),
            column(ColumnName::Name, ColumnType::Text, false),
            column(ColumnName::Description, ColumnType::Text, true),
            column(ColumnName::CreatedAt, ColumnType::Integer, false),
            column(ColumnName::ModifiedAt, ColumnType::Integer, false),
        ],
        TableName::Fund => seq![
            key_column(),
            column(ColumnName::MemberId, ColumnType::Integer, false),
            column(ColumnName::Amount, ColumnType::Real, false),
            column(ColumnName::EndowDate, ColumnType::Text, false),
            column(ColumnName::FundTypeId, ColumnType::Integer, false),
            column(ColumnName::CreatedAt, ColumnType::Integer, false),
            column(ColumnName::ModifiedAt, ColumnType::Integer, false),
        ],
    }
}

/// The tables that exist at a schema version, in order of creation.
pub open spec fn tables_at(version: u32) -> Seq<TableName> {
    if version == 0 {
        seq![]
    } else {
        seq![TableName::Church, TableName::Member, TableName::FundType, TableName::Fund]
    }
}

/// A table's model: its name and its columns.
pub open spec fn table_model(t: TableName) -> (TableName, Seq<Column>) {
    (t, columns_of(t))
}

/// The tables, with their columns, that exist at a schema version.
pub open spec fn schema_at(version: u32) -> Seq<(TableName, Seq<Column>)> {
    tables_at(version).map_values(|t: TableName| table_model(t))
}

fn new_column(name: ColumnName, ty: ColumnType, nullable: bool) -> (r: Column)
    ensures
        r == column(name, ty, nullable),
{
    Column { name, ty, nullable, primary_key: false }
}

/// The documented columns of a table.
pub fn table_columns(t: TableName) -> (r: Vec<Column>)
    ensures
        r@ == columns_of(t),
{
    let key = Column { name: ColumnName::Id, ty: ColumnType::Integer, nullable: false, primary_key: true };
    let created = new_column(ColumnName::CreatedAt, ColumnType::Integer, false);
    let modified = new_column(ColumnName::ModifiedAt, ColumnType::Integer, false);
    let r = match t {
        TableName::Church => vec![
            key,
            new_column(ColumnName::Name, ColumnType::Text, false),
            new_column(ColumnName::Email, ColumnType::Text, true),
            new_column(ColumnName::Address, ColumnType::Text, false),
            new_column(ColumnName::Phone1, ColumnType::Text, false),
            new_column(ColumnName::Phone2, ColumnType::Text, true),
            created,
            modified,
        ],
        TableName::Member => vec![
            key,
            new_column(ColumnName::Name, ColumnType::Text, false),
            new_column(ColumnName::Email, ColumnType::Text, true),
            new_column(ColumnName::Address, ColumnType::Text, false),
            new_column(ColumnName::Phone1, ColumnType::Text, false),
            new_column(ColumnName::Phone2, ColumnType::Text, true),
            new_column(ColumnName::ChurchId, ColumnType::Integer, false),
            created,
            modified,
        ],
        TableName::FundType => vec![
            key,
            new_column(ColumnName::Name, ColumnType::Text, false),
            new_column(ColumnName::Description, ColumnType::Text, true),
            created,
            modified,
        ],
        TableName::Fund => vec![
            key,
            new_column(ColumnName::MemberId, ColumnType::Integer, false),
            new_column(ColumnName::Amount, ColumnType::Real, false),
            new_column(ColumnName::EndowDate, ColumnType::Text, false),
            new_column(ColumnName::FundTypeId, ColumnType::Integer, false),
            created,
            modified,
        ],
    };
    assert(r@ =~= columns_of(t));
    r
}

/// A table as the schema holds it.
pub struct TableSchema {
    pub name: TableName,
    pub columns: Vec<Column>,
}

impl TableSchema {
    pub open spec fn model(&self) -> (TableName, Seq<Column>) {
        (self.name, self.columns@)
    }
}

/// The model of a schema: its version and its tables.
pub struct SchemaView {
    pub version: u32,
    pub tables: Seq<(TableName, Seq<Column>)>,
}

impl SchemaView {
    pub open spec fn empty() -> SchemaView {
        SchemaView { version: 0, tables: seq![] }
    }

    /// The tables are exactly those of the recorded version.
    pub open spec fn wf(self) -> bool {
        self.version <= LATEST_VERSION && self.tables == schema_at(self.version)
    }

    /// Applies the pending forward migrations up to `target`, or fails on an
    /// unknown version and changes nothing.
    pub open spec fn upgrade(self, target: u32) -> Result<SchemaView, StoreError> {
        if target > LATEST_VERSION {
            Err(StoreError::StorageError)
        } else if target <= self.version {
            Ok(self)
        } else {
            Ok(SchemaView { version: target, tables: schema_at(target) })
        }
    }

    /// Applies the reverse migrations down to `target`.
    pub open spec fn downgrade(self, target: u32) -> Result<SchemaView, StoreError> {
        if target >= self.version {
            Ok(self)
        } else {
            Ok(SchemaView { version: target, tables: schema_at(target) })
        }
    }
}

/// The schema of the store, with its recorded version.
pub struct Schema {
    version: u32,
    tables: Vec<TableSchema>,
}

impl View for Schema {
    type V = SchemaView;

    closed spec fn view(&self) -> SchemaView {
        SchemaView {
            version: self.version,
            tables: self.tables@.map_values(|t: TableSchema| t.model()),
        }
    }
}

impl Schema {
    pub open spec fn wf(&self) -> bool {
        self@.wf()
    }

    /// A store with no tables, at version 0.
    pub fn new() -> (r: Self)
        ensures
            r@ == SchemaView::empty(),
            r.wf(),
    {
        let r = Schema { version: 0, tables: Vec::new() };
        assert(r@.tables =~= seq![]);
        assert(schema_at(0) =~= seq![]);
        r
    }

    /// The recorded version.
    pub fn version(&self) -> (r: u32)
        ensures
            r == self@.version,
    {
        self.version
    }

    /// The tables, in order of creation.
    pub fn tables(&self) -> (r: &Vec<TableSchema>)
        ensures
            r@.map_values(|t: TableSchema| t.model()) == self@.tables,
    {
        &self.tables
    }

    /// The forward script of version `version + 1`.
    fn apply_up(&mut self)
        requires
            old(self).wf(),
            old(self)@.version < LATEST_VERSION,
        ensures
            final(self).wf(),
            final(self)@.version == old(self)@.version + 1,
    {
        let mut tables: Vec<TableSchema> = Vec::new();
        tables.push(TableSchema { name: TableName::Church, columns: table_columns(TableName::Church) });
        tables.push(TableSchema { name: TableName::Member, columns: table_columns(TableName::Member) });
        tables.push(
            TableSchema { name: TableName::FundType, columns: table_columns(TableName::FundType) },
        );
        tables.push(TableSchema { name: TableName::Fund, columns: table_columns(TableName::Fund) });
        self.tables = tables;
        self.version = self.version + 1;
        assert(self@.tables =~= schema_at(self.version));
    }

    /// The reverse script of version `version`.
    fn apply_down(&mut self)
        requires
            old(self).wf(),
            old(self)@.version > 0,
        ensures
            final(self).wf(),
            final(self)@.version == old(self)@.version - 1,
    {
        self.tables = Vec::new();
        self.version = self.version - 1;
        assert(self@.tables =~= schema_at(self.version));
    }

    /// Performs `SchemaView::upgrade`, one version at a time.
    pub fn upgrade(&mut self, target: u32) -> (r: Result<(), StoreError>)
        requires
            old(self).wf(),
        ensures
            final(self).wf(),
            match r {
                Ok(()) => old(self)@.upgrade(target) == Ok::<SchemaView, StoreError>(final(self)@),
                Err(e) => old(self)@.upgrade(target) == Err::<SchemaView, StoreError>(e)
                    && final(self)@ == old(self)@,
            },
    {
        if target > LATEST_VERSION {
            return Err(StoreError::StorageError);
        }
        while self.version < target
            invariant
                self.wf(),
                target <= LATEST_VERSION,
                old(self)@.version <= self@.version,
                self@.version <= target || self@.version == old(self)@.version,
            decreases target - self.version,
        {
            self.apply_up();
        }
        Ok(())
    }

    /// Performs `SchemaView::downgrade`, one version at a time.
    pub fn downgrade(&mut self, target: u32) -> (r: Result<(), StoreError>)
        requires
            old(self).wf(),
        ensures
            final(self).wf(),
            match r {
                Ok(()) => old(self)@.downgrade(target) == Ok::<SchemaView, StoreError>(final(self)@),
                Err(e) => old(self)@.downgrade(target) == Err::<SchemaView, StoreError>(e)
                    && final(self)@ == old(self)@,
            },
    {
        while self.version > target
            invariant
                self.wf(),
                self@.version <= old(self)@.version,
                self@.version >= target || self@.version == old(self)@.version,
            decreases self.version - target,
        {
            self.apply_down();
        }
        Ok(())
    }
}

/// Upgrading an empty store to version 1 creates exactly the four tables
/// with their documented columns; downgrading it to version 0 drops them all.
pub proof fn law_migration_round_trip()
    ensures
        SchemaView::empty().upgrade(1) == Ok::<SchemaView, StoreError>(
            SchemaView {
                version: 1,
                tables: seq![
                    (TableName::Church, columns_of(TableName::Church)),
                    (TableName::Member, columns_of(TableName::Member)),
                    (TableName::FundType, columns_of(TableName::FundType)),
                    (TableName::Fund, columns_of(TableName::Fund)),
                ],
            },
        ),
        SchemaView::empty().upgrade(1)->Ok_0.downgrade(0) == Ok::<SchemaView, StoreError>(
            SchemaView::empty(),
        ),
{
    assert(schema_at(1) =~= seq![
        (TableName::Church, columns_of(TableName::Church)),
        (TableName::Member, columns_of(TableName::Member)),
        (TableName::FundType, columns_of(TableName::FundType)),
        (TableName::Fund, columns_of(TableName::Fund)),
    ]);
    assert(schema_at(0) =~= seq![]);
}

} // verus!
