//! How each entity is written as a document: a record of its fields, under
//! their own names and in their own order.

use vstd::prelude::*;
use vstd::string::*;
use crate::document::{
    field_at, field_from_value, flag_field_from_value, list_field_from_value, list_round_trip,
    list_to_value, list_written_as, number_field_from_value, option_field_from_value,
    option_read_from, option_round_trip, option_to_value, option_written_as, read_field,
    read_flag_field, read_list_field, read_number_field, Structured, Value,
};
use crate::model::{
    Column, ColumnArity, ColumnType, ColumnTypeFamily, DatabaseSchema, Enum, ForeignKey,
    ForeignKeyAction, Index, PrimaryKey, Sequence, Table,
};
use crate::text::copy_of;
use crate::value_set::EnumView;
use crate::view::{
    ColumnTypeView, ColumnView, ForeignKeyView, IndexView, PrimaryKeyView, SchemaView,
    SequenceView, TableView,
};

verus! {

impl Structured for ColumnType {
    open spec fn written_as(&self, doc: Value) -> bool {
        &&& doc matches Value::Record(fields)
        &&& fields@.len() == 2
        &&& fields@[0].0@ == "raw"@
        &&& self.raw.written_as(fields@[0].1)
        &&& fields@[1].0@ == "family"@
        &&& self.family.written_as(fields@[1].1)
    }

    fn to_value(&self) -> (doc: Value) {
        let mut fields: Vec<(String, Value)> = Vec::new();
        fields.push((copy_of("raw"), self.raw.to_value()));
        fields.push((copy_of("family"), self.family.to_value()));
        Value::Record(fields)
    }

    open spec fn read_from(doc: Value) -> Option<ColumnTypeView> {
        match (
            read_field::<String>(doc, "raw"@),
            read_field::<ColumnTypeFamily>(doc, "family"@),
        ) {
            (Some(raw), Some(family)) => Some(
                ColumnTypeView { raw, family },
            ),
            _ => None,
        }
    }

    fn from_value(doc: &Value) -> (read: Option<ColumnType>) {
        let raw = match field_from_value::<String>(doc, "raw") {
            Some(raw) => raw,
            None => {
                return None;
            },
        };
        let family = match field_from_value::<ColumnTypeFamily>(doc, "family") {
            Some(family) => family,
            None => {
                return None;
            },
        };
        Some(ColumnType { raw, family })
    }

    proof fn round_trip(&self, doc: Value) {
        let fields = doc->Record_0;
        reveal_strlit("raw");
        assert("raw"@.len() == 3 && "raw"@[0] == 'r');
        reveal_strlit("family");
        assert("family"@.len() == 6 && "family"@[0] == 'f');
        field_at(doc, "raw"@, 0);
        self.raw.round_trip(fields@[0].1);
        field_at(doc, "family"@, 1);
        self.family.round_trip(fields@[1].1);
    }
}

impl Structured for Column {
    open spec fn written_as(&self, doc: Value) -> bool {
        &&& doc matches Value::Record(fields)
        &&& fields@.len() == 5
        &&& fields@[0].0@ == "name"@
        &&& self.name.written_as(fields@[0].1)
        &&& fields@[1].0@ == "tpe"@
        &&& self.tpe.written_as(fields@[1].1)
        &&& fields@[2].0@ == "arity"@
        &&& self.arity.written_as(fields@[2].1)
        &&& fields@[3].0@ == "default"@
        &&& option_written_as(self.default, fields@[3].1)
        &&& fields@[4].0@ == "auto_increment"@
        &&& fields@[4].1 == Value::Bool(self.auto_increment)
    }

    fn to_value(&self) -> (doc: Value) {
        let mut fields: Vec<(String, Value)> = Vec::new();
        fields.push((copy_of("name"), self.name.to_value()));
        fields.push((copy_of("tpe"), self.tpe.to_value()));
        fields.push((copy_of("arity"), self.arity.to_value()));
        fields.push((copy_of("default"), option_to_value(&self.default)));
        fields.push((copy_of("auto_increment"), Value::Bool(self.auto_increment)));
        Value::Record(fields)
    }

    open spec fn read_from(doc: Value) -> Option<ColumnView> {
        match (
            read_field::<String>(doc, "name"@),
            read_field::<ColumnType>(doc, "tpe"@),
            read_field::<ColumnArity>(doc, "arity"@),
            option_read_from::<String>(doc.field("default"@)),
            read_flag_field(doc, "auto_increment"@),
        ) {
            (Some(name), Some(tpe), Some(arity), Some(default), Some(auto_increment)) => Some(
                ColumnView { name, tpe, arity, default, auto_increment },
            ),
            _ => None,
        }
    }

    fn from_value(doc: &Value) -> (read: Option<Column>) {
        let name = match field_from_value::<String>(doc, "name") {
            Some(name) => name,
            None => {
                return None;
            },
        };
        let tpe = match field_from_value::<ColumnType>(doc, "tpe") {
            Some(tpe) => tpe,
            None => {
                return None;
            },
        };
        let arity = match field_from_value::<ColumnArity>(doc, "arity") {
            Some(arity) => arity,
            None => {
                return None;
            },
        };
        let default = match option_field_from_value::<String>(doc, "default") {
            Some(default) => default,
            None => {
                return None;
            },
        };
        let auto_increment = match flag_field_from_value(doc, "auto_increment") {
            Some(auto_increment) => auto_increment,
            None => {
                return None;
            },
        };
        Some(Column { name, tpe, arity, default, auto_increment })
    }

    proof fn round_trip(&self, doc: Value) {
        let fields = doc->Record_0;
        reveal_strlit("name");
        assert("name"@.len() == 4 && "name"@[0] == 'n');
        reveal_strlit("tpe");
        assert("tpe"@.len() == 3 && "tpe"@[0] == 't');
        reveal_strlit("arity");
        assert("arity"@.len() == 5 && "arity"@[0] == 'a');
        reveal_strlit("default");
        assert("default"@.len() == 7 && "default"@[0] == 'd');
        reveal_strlit("auto_increment");
        assert("auto_increment"@.len() == 14 && "auto_increment"@[0] == 'a');
        field_at(doc, "name"@, 0);
        self.name.round_trip(fields@[0].1);
        field_at(doc, "tpe"@, 1);
        self.tpe.round_trip(fields@[1].1);
        field_at(doc, "arity"@, 2);
        self.arity.round_trip(fields@[2].1);
        field_at(doc, "default"@, 3);
        option_round_trip(self.default, fields@[3].1);
        field_at(doc, "auto_increment"@, 4);
    }
}

impl Structured for Index {
    open spec fn written_as(&self, doc: Value) -> bool {
        &&& doc matches Value::Record(fields)
        &&& fields@.len() == 3
        &&& fields@[0].0@ == "name"@
        &&& self.name.written_as(fields@[0].1)
        &&& fields@[1].0@ == "columns"@
        &&& list_written_as(self.columns@, fields@[1].1)
        &&& fields@[2].0@ == "unique"@
        &&& fields@[2].1 == Value::Bool(self.unique)
    }

    fn to_value(&self) -> (doc: Value) {
        let mut fields: Vec<(String, Value)> = Vec::new();
        fields.push((copy_of("name"), self.name.to_value()));
        fields.push((copy_of("columns"), list_to_value(&self.columns)));
        fields.push((copy_of("unique"), Value::Bool(self.unique)));
        Value::Record(fields)
    }

    open spec fn read_from(doc: Value) -> Option<IndexView> {
        match (
            read_field::<String>(doc, "name"@),
            read_list_field::<String>(doc, "columns"@),
            read_flag_field(doc, "unique"@),
        ) {
            (Some(name), Some(columns), Some(unique)) => Some(
                IndexView { name, columns, unique },
            ),
            _ => None,
        }
    }

    fn from_value(doc: &Value) -> (read: Option<Index>) {
        let name = match field_from_value::<String>(doc, "name") {
            Some(name) => name,
            None => {
                return None;
            },
        };
        let columns = match list_field_from_value::<String>(doc, "columns") {
            Some(columns) => columns,
            None => {
                return None;
            },
        };
        let unique = match flag_field_from_value(doc, "unique") {
            Some(unique) => unique,
            None => {
                return None;
            },
        };
        Some(Index { name, columns, unique })
    }

    proof fn round_trip(&self, doc: Value) {
        let fields = doc->Record_0;
        reveal_strlit("name");
        assert("name"@.len() == 4 && "name"@[0] == 'n');
        reveal_strlit("columns");
        assert("columns"@.len() == 7 && "columns"@[0] == 'c');
        reveal_strlit("unique");
        assert("unique"@.len() == 6 && "unique"@[0] == 'u');
        field_at(doc, "name"@, 0);
        self.name.round_trip(fields@[0].1);
        field_at(doc, "columns"@, 1);
        list_round_trip(self.columns@, fields@[1].1);
        field_at(doc, "unique"@, 2);
    }
}

impl Structured for PrimaryKey {
    open spec fn written_as(&self, doc: Value) -> bool {
        &&& doc matches Value::Record(fields)
        &&& fields@.len() == 1
        &&& fields@[0].0@ == "columns"@
        &&& list_written_as(self.columns@, fields@[0].1)
    }

    fn to_value(&self) -> (doc: Value) {
        let mut fields: Vec<(String, Value)> = Vec::new();
        fields.push((copy_of("columns"), list_to_value(&self.columns)));
        Value::Record(fields)
    }

    open spec fn read_from(doc: Value) -> Option<PrimaryKeyView> {
        match read_list_field::<String>(doc, "columns"@) {
            Some(columns) => Some(PrimaryKeyView { columns }),
            None => None,
        }
    }

    fn from_value(doc: &Value) -> (read: Option<PrimaryKey>) {
        let columns = match list_field_from_value::<String>(doc, "columns") {
            Some(columns) => columns,
            None => {
                return None;
            },
        };
        Some(PrimaryKey { columns })
    }

    proof fn round_trip(&self, doc: Value) {
        let fields = doc->Record_0;
        reveal_strlit("columns");
        assert("columns"@.len() == 7 && "columns"@[0] == 'c');
        field_at(doc, "columns"@, 0);
        list_round_trip(self.columns@, fields@[0].1);
    }
}

impl Structured for ForeignKey {
    open spec fn written_as(&self, doc: Value) -> bool {
        &&& doc matches Value::Record(fields)
        &&& fields@.len() == 4
        &&& fields@[0].0@ == "columns"@
        &&& list_written_as(self.columns@, fields@[0].1)
        &&& fields@[1].0@ == "referenced_table"@
        &&& self.referenced_table.written_as(fields@[1].1)
        &&& fields@[2].0@ == "referenced_columns"@
        &&& list_written_as(self.referenced_columns@, fields@[2].1)
        &&& fields@[3].0@ == "on_delete_action"@
        &&& self.on_delete_action.written_as(fields@[3].1)
    }

    fn to_value(&self) -> (doc: Value) {
        let mut fields: Vec<(String, Value)> = Vec::new();
        fields.push((copy_of("columns"), list_to_value(&self.columns)));
        fields.push((copy_of("referenced_table"), self.referenced_table.to_value()));
        fields.push((copy_of("referenced_columns"), list_to_value(&self.referenced_columns)));
        fields.push((copy_of("on_delete_action"), self.on_delete_action.to_value()));
        Value::Record(fields)
    }

    open spec fn read_from(doc: Value) -> Option<ForeignKeyView> {
        match (
            read_list_field::<String>(doc, "columns"@),
            read_field::<String>(doc, "referenced_table"@),
            read_list_field::<String>(doc, "referenced_columns"@),
            read_field::<ForeignKeyAction>(doc, "on_delete_action"@),
        ) {
            (Some(columns), Some(referenced_table), Some(referenced_columns), Some(on_delete_action)) => Some(
                ForeignKeyView { columns, referenced_table, referenced_columns, on_delete_action },
            ),
            _ => None,
        }
    }

    fn from_value(doc: &Value) -> (read: Option<ForeignKey>) {
        let columns = match list_field_from_value::<String>(doc, "columns") {
            Some(columns) => columns,
            None => {
                return None;
            },
        };
        let referenced_table = match field_from_value::<String>(doc, "referenced_table") {
            Some(referenced_table) => referenced_table,
            None => {
                return None;
            },
        };
        let referenced_columns = match list_field_from_value::<String>(doc, "referenced_columns") {
            Some(referenced_columns) => referenced_columns,
            None => {
                return None;
            },
        };
        let on_delete_action = match field_from_value::<ForeignKeyAction>(doc, "on_delete_action") {
            Some(on_delete_action) => on_delete_action,
            None => {
                return None;
            },
        };
        Some(ForeignKey { columns, referenced_table, referenced_columns, on_delete_action })
    }

    proof fn round_trip(&self, doc: Value) {
        let fields = doc->Record_0;
        reveal_strlit("columns");
        assert("columns"@.len() == 7 && "columns"@[0] == 'c');
        reveal_strlit("referenced_table");
        assert("referenced_table"@.len() == 16 && "referenced_table"@[0] == 'r');
        reveal_strlit("referenced_columns");
        assert("referenced_columns"@.len() == 18 && "referenced_columns"@[0] == 'r');
        reveal_strlit("on_delete_action");
        assert("on_delete_action"@.len() == 16 && "on_delete_action"@[0] == 'o');
        field_at(doc, "columns"@, 0);
        list_round_trip(self.columns@, fields@[0].1);
        field_at(doc, "referenced_table"@, 1);
        self.referenced_table.round_trip(fields@[1].1);
        field_at(doc, "referenced_columns"@, 2);
        list_round_trip(self.referenced_columns@, fields@[2].1);
        field_at(doc, "on_delete_action"@, 3);
        self.on_delete_action.round_trip(fields@[3].1);
    }
}

impl Structured for Table {
    open spec fn written_as(&self, doc: Value) -> bool {
        &&& doc matches Value::Record(fields)
        &&& fields@.len() == 5
        &&& fields@[0].0@ == "name"@
        &&& self.name.written_as(fields@[0].1)
        &&& fields@[1].0@ == "columns"@
        &&& list_written_as(self.columns@, fields@[1].1)
        &&& fields@[2].0@ == "indices"@
        &&& list_written_as(self.indices@, fields@[2].1)
        &&& fields@[3].0@ == "primary_key"@
        &&& option_written_as(self.primary_key, fields@[3].1)
        &&& fields@[4].0@ == "foreign_keys"@
        &&& list_written_as(self.foreign_keys@, fields@[4].1)
    }

    fn to_value(&self) -> (doc: Value) {
        let mut fields: Vec<(String, Value)> = Vec::new();
        fields.push((copy_of("name"), self.name.to_value()));
        fields.push((copy_of("columns"), list_to_value(&self.columns)));
        fields.push((copy_of("indices"), list_to_value(&self.indices)));
        fields.push((copy_of("primary_key"), option_to_value(&self.primary_key)));
        fields.push((copy_of("foreign_keys"), list_to_value(&self.foreign_keys)));
        Value::Record(fields)
    }

    open spec fn read_from(doc: Value) -> Option<TableView> {
        match (
            read_field::<String>(doc, "name"@),
            read_list_field::<Column>(doc, "columns"@),
            read_list_field::<Index>(doc, "indices"@),
            option_read_from::<PrimaryKey>(doc.field("primary_key"@)),
            read_list_field::<ForeignKey>(doc, "foreign_keys"@),
        ) {
            (Some(name), Some(columns), Some(indices), Some(primary_key), Some(foreign_keys)) => Some(
                TableView { name, columns, indices, primary_key, foreign_keys },
            ),
            _ => None,
        }
    }

    fn from_value(doc: &Value) -> (read: Option<Table>) {
        let name = match field_from_value::<String>(doc, "name") {
            Some(name) => name,
            None => {
                return None;
            },
        };
        let columns = match list_field_from_value::<Column>(doc, "columns") {
            Some(columns) => columns,
            None => {
                return None;
            },
        };
        let indices = match list_field_from_value::<Index>(doc, "indices") {
            Some(indices) => indices,
            None => {
                return None;
            },
        };
        let primary_key = match option_field_from_value::<PrimaryKey>(doc, "primary_key") {
            Some(primary_key) => primary_key,
            None => {
                return None;
            },
        };
        let foreign_keys = match list_field_from_value::<ForeignKey>(doc, "foreign_keys") {
            Some(foreign_keys) => foreign_keys,
            None => {
                return None;
            },
        };
        Some(Table { name, columns, indices, primary_key, foreign_keys })
    }

    proof fn round_trip(&self, doc: Value) {
        let fields = doc->Record_0;
        reveal_strlit("name");
        assert("name"@.len() == 4 && "name"@[0] == 'n');
        reveal_strlit("columns");
        assert("columns"@.len() == 7 && "columns"@[0] == 'c');
        reveal_strlit("indices");
        assert("indices"@.len() == 7 && "indices"@[0] == 'i');
        reveal_strlit("primary_key");
        assert("primary_key"@.len() == 11 && "primary_key"@[0] == 'p');
        reveal_strlit("foreign_keys");
        assert("foreign_keys"@.len() == 12 && "foreign_keys"@[0] == 'f');
        field_at(doc, "name"@, 0);
        self.name.round_trip(fields@[0].1);
        field_at(doc, "columns"@, 1);
        list_round_trip(self.columns@, fields@[1].1);
        field_at(doc, "indices"@, 2);
        list_round_trip(self.indices@, fields@[2].1);
        field_at(doc, "primary_key"@, 3);
        option_round_trip(self.primary_key, fields@[3].1);
        field_at(doc, "foreign_keys"@, 4);
        list_round_trip(self.foreign_keys@, fields@[4].1);
    }
}

impl Structured for Enum {
    open spec fn written_as(&self, doc: Value) -> bool {
        &&& doc matches Value::Record(fields)
        &&& fields@.len() == 2
        &&& fields@[0].0@ == "name"@
        &&& self.name.written_as(fields@[0].1)
        &&& fields@[1].0@ == "values"@
        &&& list_written_as(self.values@, fields@[1].1)
    }

    fn to_value(&self) -> (doc: Value) {
        let mut fields: Vec<(String, Value)> = Vec::new();
        fields.push((copy_of("name"), self.name.to_value()));
        fields.push((copy_of("values"), list_to_value(&self.values)));
        Value::Record(fields)
    }

    open spec fn read_from(doc: Value) -> Option<EnumView> {
        match (
            read_field::<String>(doc, "name"@),
            read_list_field::<String>(doc, "values"@),
        ) {
            (Some(name), Some(values)) => Some(
                EnumView { name, values: values.to_set() },
            ),
            _ => None,
        }
    }

    fn from_value(doc: &Value) -> (read: Option<Enum>) {
        let name = match field_from_value::<String>(doc, "name") {
            Some(name) => name,
            None => {
                return None;
            },
        };
        let values = match list_field_from_value::<String>(doc, "values") {
            Some(values) => values,
            None => {
                return None;
            },
        };
        Some(Enum::new(name, values))
    }

    proof fn round_trip(&self, doc: Value) {
        let fields = doc->Record_0;
        reveal_strlit("name");
        assert("name"@.len() == 4 && "name"@[0] == 'n');
        reveal_strlit("values");
        assert("values"@.len() == 6 && "values"@[0] == 'v');
        field_at(doc, "name"@, 0);
        self.name.round_trip(fields@[0].1);
        field_at(doc, "values"@, 1);
        list_round_trip(self.values@, fields@[1].1);
    }
}

impl Structured for Sequence {
    open spec fn written_as(&self, doc: Value) -> bool {
        &&& doc matches Value::Record(fields)
        &&& fields@.len() == 3
        &&& fields@[0].0@ == "name"@
        &&& self.name.written_as(fields@[0].1)
        &&& fields@[1].0@ == "initial_value"@
        &&& fields@[1].1 == Value::Number(self.initial_value as u64)
        &&& fields@[2].0@ == "allocation_size"@
        &&& fields@[2].1 == Value::Number(self.allocation_size as u64)
    }

    fn to_value(&self) -> (doc: Value) {
        let mut fields: Vec<(String, Value)> = Vec::new();
        fields.push((copy_of("name"), self.name.to_value()));
        fields.push((copy_of("initial_value"), Value::Number(self.initial_value as u64)));
        fields.push((copy_of("allocation_size"), Value::Number(self.allocation_size as u64)));
        Value::Record(fields)
    }

    open spec fn read_from(doc: Value) -> Option<SequenceView> {
        match (
            read_field::<String>(doc, "name"@),
            read_number_field(doc, "initial_value"@),
            read_number_field(doc, "allocation_size"@),
        ) {
            (Some(name), Some(initial_value), Some(allocation_size)) => Some(
                SequenceView { name, initial_value, allocation_size },
            ),
            _ => None,
        }
    }

    fn from_value(doc: &Value) -> (read: Option<Sequence>) {
        let name = match field_from_value::<String>(doc, "name") {
            Some(name) => name,
            None => {
                return None;
            },
        };
        let initial_value = match number_field_from_value(doc, "initial_value") {
            Some(initial_value) => initial_value,
            None => {
                return None;
            },
        };
        let allocation_size = match number_field_from_value(doc, "allocation_size") {
            Some(allocation_size) => allocation_size,
            None => {
                return None;
            },
        };
        Some(Sequence { name, initial_value, allocation_size })
    }

    proof fn round_trip(&self, doc: Value) {
        let fields = doc->Record_0;
        reveal_strlit("name");
        assert("name"@.len() == 4 && "name"@[0] == 'n');
        reveal_strlit("initial_value");
        assert("initial_value"@.len() == 13 && "initial_value"@[0] == 'i');
        reveal_strlit("allocation_size");
        assert("allocation_size"@.len() == 15 && "allocation_size"@[0] == 'a');
        field_at(doc, "name"@, 0);
        self.name.round_trip(fields@[0].1);
        field_at(doc, "initial_value"@, 1);
        field_at(doc, "allocation_size"@, 2);
    }
}

impl Structured for DatabaseSchema {
    open spec fn written_as(&self, doc: Value) -> bool {
        &&& doc matches Value::Record(fields)
        &&& fields@.len() == 3
        &&& fields@[0].0@ == "tables"@
        &&& list_written_as(self.tables@, fields@[0].1)
        &&& fields@[1].0@ == "enums"@
        &&& list_written_as(self.enums@, fields@[1].1)
        &&& fields@[2].0@ == "sequences"@
        &&& list_written_as(self.sequences@, fields@[2].1)
    }

    fn to_value(&self) -> (doc: Value) {
        let mut fields: Vec<(String, Value)> = Vec::new();
        fields.push((copy_of("tables"), list_to_value(&self.tables)));
        fields.push((copy_of("enums"), list_to_value(&self.enums)));
        fields.push((copy_of("sequences"), list_to_value(&self.sequences)));
        Value::Record(fields)
    }

    open spec fn read_from(doc: Value) -> Option<SchemaView> {
        match (
            read_list_field::<Table>(doc, "tables"@),
            read_list_field::<Enum>(doc, "enums"@),
            read_list_field::<Sequence>(doc, "sequences"@),
        ) {
            (Some(tables), Some(enums), Some(sequences)) => Some(
                SchemaView { tables, enums, sequences },
            ),
            _ => None,
        }
    }

    fn from_value(doc: &Value) -> (read: Option<DatabaseSchema>) {
        let tables = match list_field_from_value::<Table>(doc, "tables") {
            Some(tables) => tables,
            None => {
                return None;
            },
        };
        let enums = match list_field_from_value::<Enum>(doc, "enums") {
            Some(enums) => enums,
            None => {
                return None;
            },
        };
        let sequences = match list_field_from_value::<Sequence>(doc, "sequences") {
            Some(sequences) => sequences,
            None => {
                return None;
            },
        };
        Some(DatabaseSchema { tables, enums, sequences })
    }

    proof fn round_trip(&self, doc: Value) {
        let fields = doc->Record_0;
        reveal_strlit("tables");
        assert("tables"@.len() == 6 && "tables"@[0] == 't');
        reveal_strlit("enums");
        assert("enums"@.len() == 5 && "enums"@[0] == 'e');
        reveal_strlit("sequences");
        assert("sequences"@.len() == 9 && "sequences"@[0] == 's');
        field_at(doc, "tables"@, 0);
        list_round_trip(self.tables@, fields@[0].1);
        field_at(doc, "enums"@, 1);
        list_round_trip(self.enums@, fields@[1].1);
        field_at(doc, "sequences"@, 2);
        list_round_trip(self.sequences@, fields@[2].1);
    }
}

} // verus!
