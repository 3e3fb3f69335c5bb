//! The structured form that a schema is written in and read back from.
//!
//! A document is a tree of plain values. It is independent of the text format
//! that carries it: field names are the stable identifiers of the canonical
//! model, the same for every engine.

use vstd::prelude::*;
use vstd::string::*;
use crate::text::{copy_of, same_text};
use crate::view::{view_of, views};

verus! {

/// A structured document.
#[derive(Debug, PartialEq)]
pub enum Value {
    /// Nothing: what an absent optional value is written as.
    Null,
    /// A truth value.
    Bool(bool),
    /// A natural number.
    Number(u64),
    /// A text.
    Text(String),
    /// A list of documents, in order.
    List(Vec<Value>),
    /// A record: named fields, in order.
    Record(Vec<(String, Value)>),
}

/// Position `i` holds a field called `name`, and no earlier position does.
pub open spec fn is_first_field(fields: Seq<(String, Value)>, name: Seq<char>, i: int) -> bool {
    &&& 0 <= i < fields.len()
    &&& fields[i].0@ == name
    &&& forall|j: int| 0 <= j < i ==> (#[trigger] fields[j]).0@ != name
}

/// The content of the first field called `name`, if there is such a field.
pub open spec fn field_of(fields: Seq<(String, Value)>, name: Seq<char>) -> Option<Value> {
    if exists|i: int| is_first_field(fields, name, i) {
        Some(fields[choose|i: int| is_first_field(fields, name, i)].1)
    } else {
        None
    }
}

/// A field that is the first of its name is the one that a lookup finds.
pub proof fn first_field_is_found(fields: Seq<(String, Value)>, name: Seq<char>, i: int)
    requires
        is_first_field(fields, name, i),
    ensures
        field_of(fields, name) == Some(fields[i].1),
{
    let found = choose|k: int| is_first_field(fields, name, k);
    assert(found == i);
}

impl Value {
    /// The content of the first field called `name`, if the document is a
    /// record that has such a field.
    pub open spec fn field(self, name: Seq<char>) -> Option<Value> {
        match self {
            Value::Record(fields) => field_of(fields@, name),
            _ => None,
        }
    }

    /// The number that the document is, if it is one that fits 32 bits.
    pub open spec fn number32(self) -> Option<u32> {
        match self {
            Value::Number(n) => if n <= u32::MAX {
                Some(n as u32)
            } else {
                None
            },
            _ => None,
        }
    }

    /// The truth value that the document is, if it is one.
    pub open spec fn flag(self) -> Option<bool> {
        match self {
            Value::Bool(b) => Some(b),
            _ => None,
        }
    }

    /// The content of the first field called `name`, if the document is a
    /// record that has such a field.
    pub fn get(&self, name: &str) -> (found: Option<&Value>)
        ensures
            match found {
                Some(content) => self.field(name@) == Some(*content),
                None => self.field(name@) is None,
            },
    {
        match self {
            Value::Record(fields) => {
                let mut i: usize = 0;
                while i < fields.len()
                    invariant
                        i <= fields@.len(),
                        *self == Value::Record(*fields),
                        forall|j: int| 0 <= j < i ==> (#[trigger] fields@[j]).0@ != name@,
                    decreases fields.len() - i,
                {
                    if same_text(fields[i].0.as_str(), name) {
                        proof {
                            first_field_is_found(fields@, name@, i as int);
                        }
                        return Some(&fields[i].1);
                    }
                    i += 1;
                }
                None
            },
            _ => None,
        }
    }

    /// The number that the document is, if it is one that fits 32 bits.
    pub fn as_number32(&self) -> (n: Option<u32>)
        ensures
            n == self.number32(),
    {
        match self {
            Value::Number(n) => if *n <= 0xffff_ffff {
                Some(*n as u32)
            } else {
                None
            },
            _ => None,
        }
    }

    /// The truth value that the document is, if it is one.
    pub fn as_flag(&self) -> (b: Option<bool>)
        ensures
            b == self.flag(),
    {
        match self {
            Value::Bool(b) => Some(*b),
            _ => None,
        }
    }
}

/// A value that can be written as a document and read back from one.
pub trait Structured: View + Sized {
    /// Whether `doc` is the document that this value is written as.
    spec fn written_as(&self, doc: Value) -> bool;

    /// Writes the value as a document.
    fn to_value(&self) -> (doc: Value)
        ensures
            self.written_as(doc),
    ;

    /// What a document describes, if it describes a value of this type.
    spec fn read_from(doc: Value) -> Option<Self::V>;

    /// Reads a value from a document; `None` where the document describes no
    /// value of this type.
    fn from_value(doc: &Value) -> (read: Option<Self>)
        ensures
            match read {
                Some(value) => Self::read_from(*doc) == Some(value@),
                None => Self::read_from(*doc) is None,
            },
    ;

    /// Reading back what a value was written as gives that value. No value is
    /// written as nothing.
    proof fn round_trip(&self, doc: Value)
        requires
            self.written_as(doc),
        ensures
            Self::read_from(doc) == Some(self@),
            doc !is Null,
    ;
}

impl Structured for String {
    open spec fn written_as(&self, doc: Value) -> bool {
        doc matches Value::Text(text) && text@ == self@
    }

    fn to_value(&self) -> (doc: Value) {
        Value::Text(copy_of(self.as_str()))
    }

    open spec fn read_from(doc: Value) -> Option<Seq<char>> {
        match doc {
            Value::Text(text) => Some(text@),
            _ => None,
        }
    }

    fn from_value(doc: &Value) -> (read: Option<String>) {
        match doc {
            Value::Text(text) => Some(copy_of(text.as_str())),
            _ => None,
        }
    }

    proof fn round_trip(&self, doc: Value) {
    }
}

/// Whether `doc` is the list of the documents of `items`, in order.
pub open spec fn list_written_as<T: Structured>(items: Seq<T>, doc: Value) -> bool {
    &&& doc matches Value::List(docs)
    &&& docs@.len() == items.len()
    &&& forall|i: int| 0 <= i < items.len() ==> (#[trigger] items[i]).written_as(docs@[i])
}

/// What a list document describes: each of its items read in turn, if each
/// describes a value.
pub open spec fn list_read_from<T: Structured>(doc: Value) -> Option<Seq<T::V>> {
    match doc {
        Value::List(docs) => if forall|i: int|
            0 <= i < docs@.len() ==> T::read_from(#[trigger] docs@[i]) is Some {
            Some(docs@.map_values(|item: Value| T::read_from(item)->0))
        } else {
            None
        },
        _ => None,
    }
}

/// Writes a list as the list of its items' documents.
pub fn list_to_value<T: Structured>(items: &Vec<T>) -> (doc: Value)
    ensures
        list_written_as(items@, doc),
{
    let mut docs: Vec<Value> = Vec::new();
    let mut i: usize = 0;
    while i < items.len()
        invariant
            i <= items@.len(),
            docs@.len() == i,
            forall|k: int| 0 <= k < i ==> (#[trigger] items@[k]).written_as(docs@[k]),
        decreases items.len() - i,
    {
        docs.push(items[i].to_value());
        i += 1;
    }
    Value::List(docs)
}

/// Reads a list from a list document.
pub fn list_from_value<T: Structured>(doc: &Value) -> (read: Option<Vec<T>>)
    ensures
        match read {
            Some(items) => list_read_from::<T>(*doc) == Some(views(items@)),
            None => list_read_from::<T>(*doc) is None,
        },
{
    match doc {
        Value::List(docs) => {
            let mut items: Vec<T> = Vec::new();
            let mut i: usize = 0;
            while i < docs.len()
                invariant
                    i <= docs@.len(),
                    items@.len() == i,
                    *doc == Value::List(*docs),
                    forall|k: int| 0 <= k < i ==> T::read_from(#[trigger] docs@[k]) == Some(items@[k]@),
                decreases docs.len() - i,
            {
                match T::from_value(&docs[i]) {
                    Some(item) => {
                        items.push(item);
                    },
                    None => {
                        return None;
                    },
                }
                i += 1;
            }
            assert(views(items@) =~= docs@.map_values(|item: Value| T::read_from(item)->0));
            Some(items)
        },
        _ => None,
    }
}

/// Reading back what a list was written as gives that list.
pub proof fn list_round_trip<T: Structured>(items: Seq<T>, doc: Value)
    requires
        list_written_as(items, doc),
    ensures
        list_read_from::<T>(doc) == Some(views(items)),
{
    let docs = doc->List_0;
    assert forall|i: int| 0 <= i < docs@.len() implies T::read_from(#[trigger] docs@[i]) == Some(
        items[i]@,
    ) by {
        items[i].round_trip(docs@[i]);
    }
    assert(views(items) =~= docs@.map_values(|item: Value| T::read_from(item)->0));
}

/// Whether `doc` is what an optional value is written as: nothing for an
/// absent value, its own document for one that is there.
pub open spec fn option_written_as<T: Structured>(item: Option<T>, doc: Value) -> bool {
    match item {
        Some(item) => item.written_as(doc),
        None => doc is Null,
    }
}

/// Writes an optional value: nothing for an absent value, its own document for
/// one that is there.
pub fn option_to_value<T: Structured>(item: &Option<T>) -> (doc: Value)
    ensures
        option_written_as(*item, doc),
{
    match item {
        Some(item) => item.to_value(),
        None => Value::Null,
    }
}

/// Reading back what an optional value was written as gives that value.
pub proof fn option_round_trip<T: Structured>(item: Option<T>, doc: Value)
    requires
        option_written_as(item, doc),
    ensures
        option_read_from::<T>(Some(doc)) == Some(view_of(item)),
{
    if let Some(item) = item {
        item.round_trip(doc);
    }
}

/// What the content of an optional field describes. A field that is missing
/// or holds nothing describes an absent value.
pub open spec fn option_read_from<T: Structured>(content: Option<Value>) -> Option<Option<T::V>> {
    match content {
        None => Some(None),
        Some(Value::Null) => Some(None),
        Some(doc) => match T::read_from(doc) {
            Some(value) => Some(Some(value)),
            None => None,
        },
    }
}

/// What the field `name` of a record describes, read as a `T`.
pub open spec fn read_field<T: Structured>(doc: Value, name: Seq<char>) -> Option<T::V> {
    match doc.field(name) {
        Some(content) => T::read_from(content),
        None => None,
    }
}

/// What the field `name` of a record describes, read as a list of `T`.
pub open spec fn read_list_field<T: Structured>(doc: Value, name: Seq<char>) -> Option<Seq<T::V>> {
    match doc.field(name) {
        Some(content) => list_read_from::<T>(content),
        None => None,
    }
}

/// What the field `name` of a record describes, read as a number of 32 bits.
pub open spec fn read_number_field(doc: Value, name: Seq<char>) -> Option<u32> {
    match doc.field(name) {
        Some(content) => content.number32(),
        None => None,
    }
}

/// What the field `name` of a record describes, read as a truth value.
pub open spec fn read_flag_field(doc: Value, name: Seq<char>) -> Option<bool> {
    match doc.field(name) {
        Some(content) => content.flag(),
        None => None,
    }
}

/// Reads the field `name` of a record as a `T`.
pub fn field_from_value<T: Structured>(doc: &Value, name: &str) -> (read: Option<T>)
    ensures
        match read {
            Some(value) => read_field::<T>(*doc, name@) == Some(value@),
            None => read_field::<T>(*doc, name@) is None,
        },
{
    match doc.get(name) {
        Some(content) => T::from_value(content),
        None => None,
    }
}

/// Reads the field `name` of a record as a list of `T`.
pub fn list_field_from_value<T: Structured>(doc: &Value, name: &str) -> (read: Option<Vec<T>>)
    ensures
        match read {
            Some(items) => read_list_field::<T>(*doc, name@) == Some(views(items@)),
            None => read_list_field::<T>(*doc, name@) is None,
        },
{
    match doc.get(name) {
        Some(content) => list_from_value(content),
        None => None,
    }
}

/// Reads the field `name` of a record as an optional `T`.
pub fn option_field_from_value<T: Structured>(doc: &Value, name: &str) -> (read: Option<Option<T>>)
    ensures
        match read {
            Some(item) => option_read_from::<T>(doc.field(name@)) == Some(view_of(item)),
            None => option_read_from::<T>(doc.field(name@)) is None,
        },
{
    option_from_value(doc.get(name))
}

/// Reads the field `name` of a record as a number of 32 bits.
pub fn number_field_from_value(doc: &Value, name: &str) -> (read: Option<u32>)
    ensures
        read == read_number_field(*doc, name@),
{
    match doc.get(name) {
        Some(content) => content.as_number32(),
        None => None,
    }
}

/// Reads the field `name` of a record as a truth value.
pub fn flag_field_from_value(doc: &Value, name: &str) -> (read: Option<bool>)
    ensures
        read == read_flag_field(*doc, name@),
{
    match doc.get(name) {
        Some(content) => content.as_flag(),
        None => None,
    }
}

/// In a record, a field that is the first of its name is the one that a lookup
/// finds.
pub proof fn field_at(doc: Value, name: Seq<char>, i: int)
    requires
        doc matches Value::Record(fields) && is_first_field(fields@, name, i),
    ensures
        doc.field(name) == Some((doc->Record_0)@[i].1),
{
    first_field_is_found((doc->Record_0)@, name, i);
}

/// Reads an optional value from the content of its field.
pub fn option_from_value<T: Structured>(content: Option<&Value>) -> (read: Option<Option<T>>)
    ensures
        match read {
            Some(item) => option_read_from::<T>(
                match content {
                    Some(doc) => Some(*doc),
                    None => None,
                },
            ) == Some(view_of(item)),
            None => option_read_from::<T>(
                match content {
                    Some(doc) => Some(*doc),
                    None => None,
                },
            ) is None,
        },
{
    match content {
        None => Some(None),
        Some(Value::Null) => Some(None),
        Some(doc) => match T::from_value(doc) {
            Some(item) => Some(Some(item)),
            None => None,
        },
    }
}

} // verus!
