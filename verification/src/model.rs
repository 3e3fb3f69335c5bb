//! The canonical entities: schema, table, column, index, keys, enum, sequence.
//!
//! Entities are plain owned trees. Nothing points back at its parent; a table,
//! enum or sequence is found again by name from the schema.

use vstd::prelude::*;
use vstd::string::*;

verus! {

/// Enumeration of column type families.
#[derive(Debug, Clone, Copy, PartialEq, Eq, Structural)]
pub enum ColumnTypeFamily {
    /// Integer types.
    Int,
    /// Floating point types.
    Float,
    /// Boolean types.
    Boolean,
    /// String types.
    String,
    /// DateTime types.
    DateTime,
    /// Binary types.
    Binary,
    /// JSON types.
    Json,
    /// UUID types.
    Uuid,
    /// Geometric types.
    Geometric,
    /// Log sequence number types.
    LogSequenceNumber,
    /// Text search types.
    TextSearch,
    /// Transaction ID types.
    TransactionId,
}

/// A column's arity.
#[derive(Debug, Clone, Copy, PartialEq, Eq, Structural)]
pub enum ColumnArity {
    /// Required column.
    Required,
    /// Nullable column.
    Nullable,
    /// List type column.
    List,
}

/// Foreign key action types (for ON DELETE|ON UPDATE) constraints.
#[derive(Debug, Clone, Copy, PartialEq, Eq, Structural)]
pub enum ForeignKeyAction {
    /// Produce an error indicating that the deletion or update would create a
    /// foreign key constraint violation. This is the default action.
    NoAction,
    /// The same as `NoAction`, except that the check is not deferrable.
    Restrict,
    /// Delete any rows referencing the deleted row, or update the values of the
    /// referencing column(s) to the new values of the referenced columns.
    Cascade,
    /// Set the referencing column(s) to null.
    SetNull,
    /// Set the referencing column(s) to their default values.
    SetDefault,
}

/// The type of a column.
#[derive(Debug, Clone)]
pub struct ColumnType {
    /// The raw SQL type, exactly as the vendor spells it.
    pub raw: String,
    /// The family of the raw type.
    pub family: ColumnTypeFamily,
}

/// A column of a table.
#[derive(Debug, Clone)]
pub struct Column {
    /// Column name.
    pub name: String,
    /// Column type.
    pub tpe: ColumnType,
    /// Column arity.
    pub arity: ColumnArity,
    /// Column default: the raw default expression, never evaluated.
    pub default: Option<String>,
    /// Column auto increment setting.
    pub auto_increment: bool,
}

/// An index of a table.
#[derive(Debug, Clone)]
pub struct Index {
    /// Index name.
    pub name: String,
    /// Index columns, in key order.
    pub columns: Vec<String>,
    /// Is index unique?
    pub unique: bool,
}

/// The primary key of a table.
#[derive(Debug, Clone)]
pub struct PrimaryKey {
    /// Columns, in key order.
    pub columns: Vec<String>,
}

/// A foreign key.
#[derive(Debug, Clone)]
pub struct ForeignKey {
    /// Column names.
    pub columns: Vec<String>,
    /// Referenced table.
    pub referenced_table: String,
    /// Referenced columns, paired by position with `columns`.
    pub referenced_columns: Vec<String>,
    /// What happens to the referencing rows when the referenced row is deleted.
    pub on_delete_action: ForeignKeyAction,
}

/// A table found in a schema.
#[derive(Debug, Clone)]
pub struct Table {
    /// The table's name.
    pub name: String,
    /// The table's columns, in catalog order.
    pub columns: Vec<Column>,
    /// The table's indices.
    pub indices: Vec<Index>,
    /// The table's primary key, if there is one.
    pub primary_key: Option<PrimaryKey>,
    /// The table's foreign keys.
    pub foreign_keys: Vec<ForeignKey>,
}

/// A SQL enum.
///
/// The values form a set: their order in `values` carries no meaning, and a
/// well-formed enum lists each value once.
#[derive(Debug, Clone)]
pub struct Enum {
    /// Enum name.
    pub name: String,
    /// Possible enum values.
    pub values: Vec<String>,
}

/// A SQL sequence.
#[derive(Debug, Clone)]
pub struct Sequence {
    /// Sequence name.
    pub name: String,
    /// Sequence initial value.
    pub initial_value: u32,
    /// Sequence allocation size.
    pub allocation_size: u32,
}

/// The result of introspecting a database schema.
#[derive(Debug, Clone)]
pub struct DatabaseSchema {
    /// The schema's tables.
    pub tables: Vec<Table>,
    /// The schema's enums.
    pub enums: Vec<Enum>,
    /// The schema's sequences; empty for engines without sequence objects.
    pub sequences: Vec<Sequence>,
}

} // verus!
