//! What each entity is, as a mathematical value: names and raw strings are
//! sequences of characters, lists are sequences, the values of an enum are a
//! set. Two entities are the same when their views are equal.

use vstd::prelude::*;
use vstd::string::*;
use crate::model::{
    Column, ColumnArity, ColumnType, ColumnTypeFamily, DatabaseSchema, ForeignKey,
    ForeignKeyAction, Index, PrimaryKey, Sequence, Table,
};
use crate::value_set::EnumView;

verus! {

/// The views of the items of a list, in the order of the list.
pub open spec fn views<T: View>(items: Seq<T>) -> Seq<T::V> {
    items.map_values(|item: T| item@)
}

/// The view of an item that may be absent.
pub open spec fn view_of<T: View>(item: Option<T>) -> Option<T::V> {
    match item {
        Some(item) => Some(item@),
        None => None,
    }
}

impl View for ColumnTypeFamily {
    type V = ColumnTypeFamily;

    open spec fn view(&self) -> ColumnTypeFamily {
        *self
    }
}

impl View for ColumnArity {
    type V = ColumnArity;

    open spec fn view(&self) -> ColumnArity {
        *self
    }
}

impl View for ForeignKeyAction {
    type V = ForeignKeyAction;

    open spec fn view(&self) -> ForeignKeyAction {
        *self
    }
}

/// What the type of a column is: its raw spelling and its family.
pub struct ColumnTypeView {
    pub raw: Seq<char>,
    pub family: ColumnTypeFamily,
}

impl View for ColumnType {
    type V = ColumnTypeView;

    open spec fn view(&self) -> ColumnTypeView {
        ColumnTypeView { raw: self.raw@, family: self.family }
    }
}

/// What a column is.
pub struct ColumnView {
    pub name: Seq<char>,
    pub tpe: ColumnTypeView,
    pub arity: ColumnArity,
    pub default: Option<Seq<char>>,
    pub auto_increment: bool,
}

impl View for Column {
    type V = ColumnView;

    open spec fn view(&self) -> ColumnView {
        ColumnView {
            name: self.name@,
            tpe: self.tpe@,
            arity: self.arity,
            default: view_of(self.default),
            auto_increment: self.auto_increment,
        }
    }
}

/// What an index is: its name, its columns in key order, and whether it is unique.
pub struct IndexView {
    pub name: Seq<char>,
    pub columns: Seq<Seq<char>>,
    pub unique: bool,
}

impl View for Index {
    type V = IndexView;

    open spec fn view(&self) -> IndexView {
        IndexView { name: self.name@, columns: views(self.columns@), unique: self.unique }
    }
}

/// What a primary key is: its columns in key order.
pub struct PrimaryKeyView {
    pub columns: Seq<Seq<char>>,
}

impl View for PrimaryKey {
    type V = PrimaryKeyView;

    open spec fn view(&self) -> PrimaryKeyView {
        PrimaryKeyView { columns: views(self.columns@) }
    }
}

/// What a foreign key is: local and referenced columns, paired by position.
pub struct ForeignKeyView {
    pub columns: Seq<Seq<char>>,
    pub referenced_table: Seq<char>,
    pub referenced_columns: Seq<Seq<char>>,
    pub on_delete_action: ForeignKeyAction,
}

impl View for ForeignKey {
    type V = ForeignKeyView;

    open spec fn view(&self) -> ForeignKeyView {
        ForeignKeyView {
            columns: views(self.columns@),
            referenced_table: self.referenced_table@,
            referenced_columns: views(self.referenced_columns@),
            on_delete_action: self.on_delete_action,
        }
    }
}

/// What a table is.
pub struct TableView {
    pub name: Seq<char>,
    pub columns: Seq<ColumnView>,
    pub indices: Seq<IndexView>,
    pub primary_key: Option<PrimaryKeyView>,
    pub foreign_keys: Seq<ForeignKeyView>,
}

impl View for Table {
    type V = TableView;

    open spec fn view(&self) -> TableView {
        TableView {
            name: self.name@,
            columns: views(self.columns@),
            indices: views(self.indices@),
            primary_key: view_of(self.primary_key),
            foreign_keys: views(self.foreign_keys@),
        }
    }
}

/// What a sequence is.
pub struct SequenceView {
    pub name: Seq<char>,
    pub initial_value: u32,
    pub allocation_size: u32,
}

impl View for Sequence {
    type V = SequenceView;

    open spec fn view(&self) -> SequenceView {
        SequenceView {
            name: self.name@,
            initial_value: self.initial_value,
            allocation_size: self.allocation_size,
        }
    }
}

/// What a schema is: its tables, enums and sequences, each in order.
pub struct SchemaView {
    pub tables: Seq<TableView>,
    pub enums: Seq<EnumView>,
    pub sequences: Seq<SequenceView>,
}

impl View for DatabaseSchema {
    type V = SchemaView;

    open spec fn view(&self) -> SchemaView {
        SchemaView {
            tables: views(self.tables@),
            enums: views(self.enums@),
            sequences: views(self.sequences@),
        }
    }
}

} // verus!
