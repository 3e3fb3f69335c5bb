//! Equality of entities: two entities are equal when they are the same
//! mathematical value, that is, when their views are equal. Lists are
//! compared in order; the values of an enum are compared as sets.

use vstd::prelude::*;
use vstd::string::*;
use vstd::std_specs::cmp::PartialEqSpecImpl;
use crate::model::{
    Column, ColumnType, DatabaseSchema, Enum, ForeignKey, Index, PrimaryKey, Sequence, Table,
};
use crate::names::{all_known, lists_all, texts};
use crate::text::same_text;
use crate::view::{view_of, views};

verus! {

/// A value that can be compared with another by what the two stand for.
pub trait Comparable: View + Sized {
    /// Whether the two values have the same view.
    fn same_as(&self, other: &Self) -> (same: bool)
        ensures
            same == (self@ == other@),
    ;
}

impl Comparable for String {
    fn same_as(&self, other: &String) -> (same: bool) {
        same_text(self.as_str(), other.as_str())
    }
}

/// Whether two lists hold the same values in the same order.
pub fn same_lists<T: Comparable>(a: &Vec<T>, b: &Vec<T>) -> (same: bool)
    ensures
        same == (views(a@) == views(b@)),
{
    if a.len() != b.len() {
        assert(views(a@).len() != views(b@).len());
        return false;
    }
    let mut i: usize = 0;
    while i < a.len()
        invariant
            a@.len() == b@.len(),
            i <= a@.len(),
            forall|k: int| 0 <= k < i ==> (#[trigger] a@[k])@ == b@[k]@,
        decreases a.len() - i,
    {
        if !a[i].same_as(&b[i]) {
            assert(views(a@)[i as int] != views(b@)[i as int]);
            return false;
        }
        i += 1;
    }
    assert(views(a@) =~= views(b@));
    true
}

/// Whether two optional values are both absent, or both there and the same.
pub fn same_options<T: Comparable>(a: &Option<T>, b: &Option<T>) -> (same: bool)
    ensures
        same == (view_of(*a) == view_of(*b)),
{
    match (a, b) {
        (Some(a), Some(b)) => a.same_as(b),
        (None, None) => true,
        _ => false,
    }
}

impl Comparable for Enum {
    fn same_as(&self, other: &Enum) -> (same: bool) {
        let same = same_text(self.name.as_str(), other.name.as_str()) && lists_all(
            &self.values,
            &other.values,
        ) && lists_all(&other.values, &self.values);
        proof {
            let mine = texts(self.values@);
            let theirs = texts(other.values@);
            if all_known(mine, theirs) && all_known(theirs, mine) {
                assert(mine.to_set() =~= theirs.to_set());
            }
            if mine.to_set() == theirs.to_set() {
                assert forall|i: int| 0 <= i < theirs.len() implies mine.contains(
                    #[trigger] theirs[i],
                ) by {
                    assert(theirs.to_set().contains(theirs[i]));
                }
                assert forall|i: int| 0 <= i < mine.len() implies theirs.contains(
                    #[trigger] mine[i],
                ) by {
                    assert(mine.to_set().contains(mine[i]));
                }
            }
        }
        same
    }
}

impl Comparable for ColumnType {
    fn same_as(&self, other: &ColumnType) -> (same: bool) {
        self.raw.same_as(&other.raw)
            && self.family == other.family
    }
}

impl Comparable for Column {
    fn same_as(&self, other: &Column) -> (same: bool) {
        self.name.same_as(&other.name)
            && self.tpe.same_as(&other.tpe)
            && self.arity == other.arity
            && same_options(&self.default, &other.default)
            && self.auto_increment == other.auto_increment
    }
}

impl Comparable for Index {
    fn same_as(&self, other: &Index) -> (same: bool) {
        self.name.same_as(&other.name)
            && same_lists(&self.columns, &other.columns)
            && self.unique == other.unique
    }
}

impl Comparable for PrimaryKey {
    fn same_as(&self, other: &PrimaryKey) -> (same: bool) {
        same_lists(&self.columns, &other.columns)
    }
}

impl Comparable for ForeignKey {
    fn same_as(&self, other: &ForeignKey) -> (same: bool) {
        same_lists(&self.columns, &other.columns)
            && self.referenced_table.same_as(&other.referenced_table)
            && same_lists(&self.referenced_columns, &other.referenced_columns)
            && self.on_delete_action == other.on_delete_action
    }
}

impl Comparable for Table {
    fn same_as(&self, other: &Table) -> (same: bool) {
        self.name.same_as(&other.name)
            && same_lists(&self.columns, &other.columns)
            && same_lists(&self.indices, &other.indices)
            && same_options(&self.primary_key, &other.primary_key)
            && same_lists(&self.foreign_keys, &other.foreign_keys)
    }
}

impl Comparable for Sequence {
    fn same_as(&self, other: &Sequence) -> (same: bool) {
        self.name.same_as(&other.name)
            && self.initial_value == other.initial_value
            && self.allocation_size == other.allocation_size
    }
}

impl Comparable for DatabaseSchema {
    fn same_as(&self, other: &DatabaseSchema) -> (same: bool) {
        same_lists(&self.tables, &other.tables)
            && same_lists(&self.enums, &other.enums)
            && same_lists(&self.sequences, &other.sequences)
    }
}

impl PartialEq for ColumnType {
    fn eq(&self, other: &ColumnType) -> (same: bool) {
        self.same_as(other)
    }
}

impl PartialEqSpecImpl for ColumnType {
    open spec fn obeys_eq_spec() -> bool {
        true
    }

    open spec fn eq_spec(&self, other: &ColumnType) -> bool {
        self@ == other@
    }
}

impl PartialEq for Column {
    fn eq(&self, other: &Column) -> (same: bool) {
        self.same_as(other)
    }
}

impl PartialEqSpecImpl for Column {
    open spec fn obeys_eq_spec() -> bool {
        true
    }

    open spec fn eq_spec(&self, other: &Column) -> bool {
        self@ == other@
    }
}

impl PartialEq for Index {
    fn eq(&self, other: &Index) -> (same: bool) {
        self.same_as(other)
    }
}

impl PartialEqSpecImpl for Index {
    open spec fn obeys_eq_spec() -> bool {
        true
    }

    open spec fn eq_spec(&self, other: &Index) -> bool {
        self@ == other@
    }
}

impl PartialEq for PrimaryKey {
    fn eq(&self, other: &PrimaryKey) -> (same: bool) {
        self.same_as(other)
    }
}

impl PartialEqSpecImpl for PrimaryKey {
    open spec fn obeys_eq_spec() -> bool {
        true
    }

    open spec fn eq_spec(&self, other: &PrimaryKey) -> bool {
        self@ == other@
    }
}

impl PartialEq for ForeignKey {
    fn eq(&self, other: &ForeignKey) -> (same: bool) {
        self.same_as(other)
    }
}

impl PartialEqSpecImpl for ForeignKey {
    open spec fn obeys_eq_spec() -> bool {
        true
    }

    open spec fn eq_spec(&self, other: &ForeignKey) -> bool {
        self@ == other@
    }
}

impl PartialEq for Table {
    fn eq(&self, other: &Table) -> (same: bool) {
        self.same_as(other)
    }
}

impl PartialEqSpecImpl for Table {
    open spec fn obeys_eq_spec() -> bool {
        true
    }

    open spec fn eq_spec(&self, other: &Table) -> bool {
        self@ == other@
    }
}

impl PartialEq for Sequence {
    fn eq(&self, other: &Sequence) -> (same: bool) {
        self.same_as(other)
    }
}

impl PartialEqSpecImpl for Sequence {
    open spec fn obeys_eq_spec() -> bool {
        true
    }

    open spec fn eq_spec(&self, other: &Sequence) -> bool {
        self@ == other@
    }
}

impl PartialEq for DatabaseSchema {
    fn eq(&self, other: &DatabaseSchema) -> (same: bool) {
        self.same_as(other)
    }
}

impl PartialEqSpecImpl for DatabaseSchema {
    open spec fn obeys_eq_spec() -> bool {
        true
    }

    open spec fn eq_spec(&self, other: &DatabaseSchema) -> bool {
        self@ == other@
    }
}

impl PartialEq for Enum {
    fn eq(&self, other: &Enum) -> (same: bool) {
        self.same_as(other)
    }
}

impl PartialEqSpecImpl for Enum {
    open spec fn obeys_eq_spec() -> bool {
        true
    }

    open spec fn eq_spec(&self, other: &Enum) -> bool {
        self@ == other@
    }
}

} // verus!
