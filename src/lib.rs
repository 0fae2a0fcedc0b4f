//! A verified data-access layer for a register of churches, their members,
//! kinds of funds and members' contributions, with the versioned schema of
//! the relational store that holds them.
pub mod entity;
pub mod error;
pub mod laws;
pub mod schema;
pub mod sql;
pub mod store;
pub mod table;

pub use entity::{
    Church, ChurchId, ChurchMember, ChurchMemberFunds, ChurchMemberFundsId, ChurchMemberId,
    FundTypeId, FundsType, Record,
};
pub use error::StoreError;
pub use schema::{Column, ColumnName, ColumnType, Schema, TableName, LATEST_VERSION};
pub use sql::{migrations, Migration, MigrationKind};
pub use store::Store;
