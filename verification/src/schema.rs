//! Name-based lookup from the root of a schema.

use vstd::prelude::*;
use vstd::string::*;
use crate::model::{Column, DatabaseSchema, Enum, Sequence, Table};
use crate::names::{find_named, is_first_named, names_of, Named};

verus! {

impl Named for Table {
    open spec fn name_text(&self) -> Seq<char> {
        self.name@
    }

    fn name_str(&self) -> (name: &str) {
        self.name.as_str()
    }
}

impl Named for Column {
    open spec fn name_text(&self) -> Seq<char> {
        self.name@
    }

    fn name_str(&self) -> (name: &str) {
        self.name.as_str()
    }
}

impl Named for Enum {
    open spec fn name_text(&self) -> Seq<char> {
        self.name@
    }

    fn name_str(&self) -> (name: &str) {
        self.name.as_str()
    }
}

impl Named for Sequence {
    open spec fn name_text(&self) -> Seq<char> {
        self.name@
    }

    fn name_str(&self) -> (name: &str) {
        self.name.as_str()
    }
}

impl DatabaseSchema {
    /// Get a table: the first one whose name is exactly `name`.
    ///
    /// Absence is `None`, never a failure.
    pub fn get_table(&self, name: &str) -> (found: Option<&Table>)
        ensures
            match found {
                Some(table) => exists|i: int|
                    is_first_named(self.tables@, name@, i) && *table == self.tables@[i],
                None => !names_of(self.tables@).contains(name@),
            },
    {
        find_named(&self.tables, name)
    }

    /// Get an enum: the first one whose name is exactly `name`.
    ///
    /// Absence is `None`, never a failure.
    pub fn get_enum(&self, name: &str) -> (found: Option<&Enum>)
        ensures
            match found {
                Some(item) => exists|i: int|
                    is_first_named(self.enums@, name@, i) && *item == self.enums@[i],
                None => !names_of(self.enums@).contains(name@),
            },
    {
        find_named(&self.enums, name)
    }

    /// Get a sequence: the first one whose name is exactly `name`.
    ///
    /// Absence is `None`, never a failure.
    pub fn get_sequence(&self, name: &str) -> (found: Option<&Sequence>)
        ensures
            match found {
                Some(sequence) => exists|i: int|
                    is_first_named(self.sequences@, name@, i) && *sequence == self.sequences@[i],
                None => !names_of(self.sequences@).contains(name@),
            },
    {
        find_named(&self.sequences, name)
    }
}

} // verus!
