//! How the three closed vocabularies are written: each value by its name.

use vstd::prelude::*;
use vstd::string::*;
use crate::document::{Structured, Value};
use crate::model::{ColumnArity, ColumnTypeFamily, ForeignKeyAction};
use crate::text::{copy_of, same_text};

verus! {

/// The name that a column type family is written as.
pub open spec fn family_name(value: ColumnTypeFamily) -> Seq<char> {
    match value {
        ColumnTypeFamily::Int => "Int"@,
        ColumnTypeFamily::Float => "Float"@,
        ColumnTypeFamily::Boolean => "Boolean"@,
        ColumnTypeFamily::String => "String"@,
        ColumnTypeFamily::DateTime => "DateTime"@,
        ColumnTypeFamily::Binary => "Binary"@,
        ColumnTypeFamily::Json => "Json"@,
        ColumnTypeFamily::Uuid => "Uuid"@,
        ColumnTypeFamily::Geometric => "Geometric"@,
        ColumnTypeFamily::LogSequenceNumber => "LogSequenceNumber"@,
        ColumnTypeFamily::TextSearch => "TextSearch"@,
        ColumnTypeFamily::TransactionId => "TransactionId"@,
    }
}

/// The family that a name stands for, if it is the name of one.
pub open spec fn family_named(name: Seq<char>) -> Option<ColumnTypeFamily> {
    if name == "Int"@ {
        Some(ColumnTypeFamily::Int)
    } else if name == "Float"@ {
        Some(ColumnTypeFamily::Float)
    } else if name == "Boolean"@ {
        Some(ColumnTypeFamily::Boolean)
    } else if name == "String"@ {
        Some(ColumnTypeFamily::String)
    } else if name == "DateTime"@ {
        Some(ColumnTypeFamily::DateTime)
    } else if name == "Binary"@ {
        Some(ColumnTypeFamily::Binary)
    } else if name == "Json"@ {
        Some(ColumnTypeFamily::Json)
    } else if name == "Uuid"@ {
        Some(ColumnTypeFamily::Uuid)
    } else if name == "Geometric"@ {
        Some(ColumnTypeFamily::Geometric)
    } else if name == "LogSequenceNumber"@ {
        Some(ColumnTypeFamily::LogSequenceNumber)
    } else if name == "TextSearch"@ {
        Some(ColumnTypeFamily::TextSearch)
    } else if name == "TransactionId"@ {
        Some(ColumnTypeFamily::TransactionId)
    } else {
        None
    }
}

/// The names of the family vocabulary are distinct: each names its own
/// value and no other.
pub proof fn family_names_are_distinct(value: ColumnTypeFamily)
    ensures
        family_named(family_name(value)) == Some(value),
{
    reveal_strlit("Int");
    assert("Int"@.len() == 3 && "Int"@[0] == 'I');
    reveal_strlit("Float");
    assert("Float"@.len() == 5 && "Float"@[0] == 'F');
    reveal_strlit("Boolean");
    assert("Boolean"@.len() == 7 && "Boolean"@[0] == 'B');
    reveal_strlit("String");
    assert("String"@.len() == 6 && "String"@[0] == 'S');
    reveal_strlit("DateTime");
    assert("DateTime"@.len() == 8 && "DateTime"@[0] == 'D');
    reveal_strlit("Binary");
    assert("Binary"@.len() == 6 && "Binary"@[0] == 'B');
    reveal_strlit("Json");
    assert("Json"@.len() == 4 && "Json"@[0] == 'J');
    reveal_strlit("Uuid");
    assert("Uuid"@.len() == 4 && "Uuid"@[0] == 'U');
    reveal_strlit("Geometric");
    assert("Geometric"@.len() == 9 && "Geometric"@[0] == 'G');
    reveal_strlit("LogSequenceNumber");
    assert("LogSequenceNumber"@.len() == 17 && "LogSequenceNumber"@[0] == 'L');
    reveal_strlit("TextSearch");
    assert("TextSearch"@.len() == 10 && "TextSearch"@[0] == 'T');
    reveal_strlit("TransactionId");
    assert("TransactionId"@.len() == 13 && "TransactionId"@[0] == 'T');
}

fn family_label(value: &ColumnTypeFamily) -> (label: &'static str)
    ensures
        label@ == family_name(*value),
{
    match value {
        ColumnTypeFamily::Int => "Int",
        ColumnTypeFamily::Float => "Float",
        ColumnTypeFamily::Boolean => "Boolean",
        ColumnTypeFamily::String => "String",
        ColumnTypeFamily::DateTime => "DateTime",
        ColumnTypeFamily::Binary => "Binary",
        ColumnTypeFamily::Json => "Json",
        ColumnTypeFamily::Uuid => "Uuid",
        ColumnTypeFamily::Geometric => "Geometric",
        ColumnTypeFamily::LogSequenceNumber => "LogSequenceNumber",
        ColumnTypeFamily::TextSearch => "TextSearch",
        ColumnTypeFamily::TransactionId => "TransactionId",
    }
}

fn family_of_label(label: &str) -> (value: Option<ColumnTypeFamily>)
    ensures
        value == family_named(label@),
{
    if same_text(label, "Int") {
        Some(ColumnTypeFamily::Int)
    } else if same_text(label, "Float") {
        Some(ColumnTypeFamily::Float)
    } else if same_text(label, "Boolean") {
        Some(ColumnTypeFamily::Boolean)
    } else if same_text(label, "String") {
        Some(ColumnTypeFamily::String)
    } else if same_text(label, "DateTime") {
        Some(ColumnTypeFamily::DateTime)
    } else if same_text(label, "Binary") {
        Some(ColumnTypeFamily::Binary)
    } else if same_text(label, "Json") {
        Some(ColumnTypeFamily::Json)
    } else if same_text(label, "Uuid") {
        Some(ColumnTypeFamily::Uuid)
    } else if same_text(label, "Geometric") {
        Some(ColumnTypeFamily::Geometric)
    } else if same_text(label, "LogSequenceNumber") {
        Some(ColumnTypeFamily::LogSequenceNumber)
    } else if same_text(label, "TextSearch") {
        Some(ColumnTypeFamily::TextSearch)
    } else if same_text(label, "TransactionId") {
        Some(ColumnTypeFamily::TransactionId)
    } else {
        None
    }
}

impl Structured for ColumnTypeFamily {
    open spec fn written_as(&self, doc: Value) -> bool {
        doc matches Value::Text(text) && text@ == family_name(*self)
    }

    fn to_value(&self) -> (doc: Value) {
        Value::Text(copy_of(family_label(self)))
    }

    open spec fn read_from(doc: Value) -> Option<ColumnTypeFamily> {
        match doc {
            Value::Text(text) => family_named(text@),
            _ => None,
        }
    }

    fn from_value(doc: &Value) -> (read: Option<ColumnTypeFamily>) {
        match doc {
            Value::Text(text) => family_of_label(text.as_str()),
            _ => None,
        }
    }

    proof fn round_trip(&self, doc: Value) {
        family_names_are_distinct(*self);
    }
}

/// The name that a column arity is written as.
pub open spec fn arity_name(value: ColumnArity) -> Seq<char> {
    match value {
        ColumnArity::Required => "Required"@,
        ColumnArity::Nullable => "Nullable"@,
        ColumnArity::List => "List"@,
    }
}

/// The arity that a name stands for, if it is the name of one.
pub open spec fn arity_named(name: Seq<char>) -> Option<ColumnArity> {
    if name == "Required"@ {
        Some(ColumnArity::Required)
    } else if name == "Nullable"@ {
        Some(ColumnArity::Nullable)
    } else if name == "List"@ {
        Some(ColumnArity::List)
    } else {
        None
    }
}

/// The names of the arity vocabulary are distinct: each names its own
/// value and no other.
pub proof fn arity_names_are_distinct(value: ColumnArity)
    ensures
        arity_named(arity_name(value)) == Some(value),
{
    reveal_strlit("Required");
    assert("Required"@.len() == 8 && "Required"@[0] == 'R');
    reveal_strlit("Nullable");
    assert("Nullable"@.len() == 8 && "Nullable"@[0] == 'N');
    reveal_strlit("List");
    assert("List"@.len() == 4 && "List"@[0] == 'L');
}

fn arity_label(value: &ColumnArity) -> (label: &'static str)
    ensures
        label@ == arity_name(*value),
{
    match value {
        ColumnArity::Required => "Required",
        ColumnArity::Nullable => "Nullable",
        ColumnArity::List => "List",
    }
}

fn arity_of_label(label: &str) -> (value: Option<ColumnArity>)
    ensures
        value == arity_named(label@),
{
    if same_text(label, "Required") {
        Some(ColumnArity::Required)
    } else if same_text(label, "Nullable") {
        Some(ColumnArity::Nullable)
    } else if same_text(label, "List") {
        Some(ColumnArity::List)
    } else {
        None
    }
}

impl Structured for ColumnArity {
    open spec fn written_as(&self, doc: Value) -> bool {
        doc matches Value::Text(text) && text@ == arity_name(*self)
    }

    fn to_value(&self) -> (doc: Value) {
        Value::Text(copy_of(arity_label(self)))
    }

    open spec fn read_from(doc: Value) -> Option<ColumnArity> {
        match doc {
            Value::Text(text) => arity_named(text@),
            _ => None,
        }
    }

    fn from_value(doc: &Value) -> (read: Option<ColumnArity>) {
        match doc {
            Value::Text(text) => arity_of_label(text.as_str()),
            _ => None,
        }
    }

    proof fn round_trip(&self, doc: Value) {
        arity_names_are_distinct(*self);
    }
}

/// The name that a foreign key action is written as.
pub open spec fn action_name(value: ForeignKeyAction) -> Seq<char> {
    match value {
        ForeignKeyAction::NoAction => "NoAction"@,
        ForeignKeyAction::Restrict => "Restrict"@,
        ForeignKeyAction::Cascade => "Cascade"@,
        ForeignKeyAction::SetNull => "SetNull"@,
        ForeignKeyAction::SetDefault => "SetDefault"@,
    }
}

/// The action that a name stands for, if it is the name of one.
pub open spec fn action_named(name: Seq<char>) -> Option<ForeignKeyAction> {
    if name == "NoAction"@ {
        Some(ForeignKeyAction::NoAction)
    } else if name == "Restrict"@ {
        Some(ForeignKeyAction::Restrict)
    } else if name == "Cascade"@ {
        Some(ForeignKeyAction::Cascade)
    } else if name == "SetNull"@ {
        Some(ForeignKeyAction::SetNull)
    } else if name == "SetDefault"@ {
        Some(ForeignKeyAction::SetDefault)
    } else {
        None
    }
}

/// The names of the action vocabulary are distinct: each names its own
/// value and no other.
pub proof fn action_names_are_distinct(value: ForeignKeyAction)
    ensures
        action_named(action_name(value)) == Some(value),
{
    reveal_strlit("NoAction");
    assert("NoAction"@.len() == 8 && "NoAction"@[0] == 'N');
    reveal_strlit("Restrict");
    assert("Restrict"@.len() == 8 && "Restrict"@[0] == 'R');
    reveal_strlit("Cascade");
    assert("Cascade"@.len() == 7 && "Cascade"@[0] == 'C');
    reveal_strlit("SetNull");
    assert("SetNull"@.len() == 7 && "SetNull"@[0] == 'S');
    reveal_strlit("SetDefault");
    assert("SetDefault"@.len() == 10 && "SetDefault"@[0] == 'S');
}

fn action_label(value: &ForeignKeyAction) -> (label: &'static str)
    ensures
        label@ == action_name(*value),
{
    match value {
        ForeignKeyAction::NoAction => "NoAction",
        ForeignKeyAction::Restrict => "Restrict",
        ForeignKeyAction::Cascade => "Cascade",
        ForeignKeyAction::SetNull => "SetNull",
        ForeignKeyAction::SetDefault => "SetDefault",
    }
}

fn action_of_label(label: &str) -> (value: Option<ForeignKeyAction>)
    ensures
        value == action_named(label@),
{
    if same_text(label, "NoAction") {
        Some(ForeignKeyAction::NoAction)
    } else if same_text(label, "Restrict") {
        Some(ForeignKeyAction::Restrict)
    } else if same_text(label, "Cascade") {
        Some(ForeignKeyAction::Cascade)
    } else if same_text(label, "SetNull") {
        Some(ForeignKeyAction::SetNull)
    } else if same_text(label, "SetDefault") {
        Some(ForeignKeyAction::SetDefault)
    } else {
        None
    }
}

impl Structured for ForeignKeyAction {
    open spec fn written_as(&self, doc: Value) -> bool {
        doc matches Value::Text(text) && text@ == action_name(*self)
    }

    fn to_value(&self) -> (doc: Value) {
        Value::Text(copy_of(action_label(self)))
    }

    open spec fn read_from(doc: Value) -> Option<ForeignKeyAction> {
        match doc {
            Value::Text(text) => action_named(text@),
            _ => None,
        }
    }

    fn from_value(doc: &Value) -> (read: Option<ForeignKeyAction>) {
        match doc {
            Value::Text(text) => action_of_label(text.as_str()),
            _ => None,
        }
    }

    proof fn round_trip(&self, doc: Value) {
        action_names_are_distinct(*self);
    }
}

} // verus!
