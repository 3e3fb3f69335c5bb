//! What holds of the rules of the canonical model, for every value.

use vstd::prelude::*;
use vstd::string::*;
use crate::document::{Structured, Value};
use crate::error::{BreachView, IntrospectionError, Violation};
use crate::first::{first_false, first_false_is_unique, some_false_is_first};
use crate::model::{ColumnArity, ColumnType, DatabaseSchema, ForeignKey, Table};
use crate::normalize::{base_keyword, TypeNormalizer};
use crate::names::{is_first_named, known_flags, names_of, texts, Named};

verus! {

/// Among entities with distinct names, each is the first, and so the only
/// one, of its name: a lookup by that name finds it.
pub proof fn distinct_names_are_found<T: Named>(items: Seq<T>, i: int)
    requires
        names_of(items).no_duplicates(),
        0 <= i < items.len(),
    ensures
        is_first_named(items, items[i].name_text(), i),
        forall|j: int| is_first_named(items, items[i].name_text(), j) ==> j == i,
{
    let names = names_of(items);
    assert forall|j: int| 0 <= j < i implies (#[trigger] items[j]).name_text() != items[i].name_text() by {
        assert(names[j] != names[i]);
    }
}

/// Every table, enum and sequence of a well-formed schema is found by its
/// name.
pub proof fn well_formed_schema_finds_each_by_name(schema: DatabaseSchema)
    requires
        schema.well_formed(),
    ensures
        forall|i: int|
            0 <= i < schema.tables@.len() ==> is_first_named(
                schema.tables@,
                (#[trigger] schema.tables@[i]).name@,
                i,
            ),
        forall|i: int|
            0 <= i < schema.enums@.len() ==> is_first_named(
                schema.enums@,
                (#[trigger] schema.enums@[i]).name@,
                i,
            ),
        forall|i: int|
            0 <= i < schema.sequences@.len() ==> is_first_named(
                schema.sequences@,
                (#[trigger] schema.sequences@[i]).name@,
                i,
            ),
{
    assert forall|i: int| 0 <= i < schema.tables@.len() implies is_first_named(
        schema.tables@,
        (#[trigger] schema.tables@[i]).name@,
        i,
    ) by {
        distinct_names_are_found(schema.tables@, i);
    }
    assert forall|i: int| 0 <= i < schema.enums@.len() implies is_first_named(
        schema.enums@,
        (#[trigger] schema.enums@[i]).name@,
        i,
    ) by {
        distinct_names_are_found(schema.enums@, i);
    }
    assert forall|i: int| 0 <= i < schema.sequences@.len() implies is_first_named(
        schema.sequences@,
        (#[trigger] schema.sequences@[i]).name@,
        i,
    ) by {
        distinct_names_are_found(schema.sequences@, i);
    }
}

/// A table is well formed exactly when it breaks no rule.
pub proof fn table_well_formed_iff_no_violation(table: Table)
    ensures
        table.well_formed() <==> table.violation() is None,
{
}

/// A schema is well formed exactly when it breaks no rule.
pub proof fn schema_well_formed_iff_no_violation(schema: DatabaseSchema)
    ensures
        schema.well_formed() <==> schema.violation() is None,
{
    if !schema.tables_well_formed() {
        let flags = schema.table_flags();
        let i = choose|i: int|
            0 <= i < schema.tables@.len() && !(#[trigger] schema.tables@[i]).well_formed();
        assert(!flags[i]);
        some_false_is_first(flags);
        assert(!schema.tables@[first_false(flags)].well_formed());
    } else if names_of(schema.tables@).no_duplicates() && !schema.enums_well_formed() {
        let flags = schema.enum_flags();
        let i = choose|i: int|
            0 <= i < schema.enums@.len() && !(#[trigger] schema.enums@[i]).well_formed();
        assert(!flags[i]);
        some_false_is_first(flags);
        assert(!schema.enums@[first_false(flags)].well_formed());
    }
}

/// A table whose primary key names a column that the table does not have is
/// never accepted: it is not well formed, and it breaks a rule.
pub proof fn unknown_primary_key_column_is_rejected(table: Table, k: int)
    requires
        table.primary_key matches Some(key) && 0 <= k < key.columns@.len()
            && !table.column_names().contains(key.columns@[k]@),
    ensures
        !table.well_formed(),
        table.violation() is Some,
{
    let key = table.primary_key->0;
    assert(texts(key.columns@)[k] == key.columns@[k]@);
}

/// Where the primary key is the first rule that a table breaks, the breach
/// names that rule, the table, and the first column of the key that the table
/// does not have.
pub proof fn unknown_primary_key_column_is_named(table: Table, k: int)
    requires
        table.columns_well_formed(),
        table.columns_distinct(),
        table.primary_key matches Some(key) && 0 <= k < key.columns@.len()
            && !table.column_names().contains(key.columns@[k]@)
            && forall|j: int| 0 <= j < k ==> table.column_names().contains(#[trigger] key.columns@[j]@),
    ensures
        table.violation() == Some(
            BreachView {
                rule: Violation::UnknownPrimaryKeyColumn,
                within: Some(table.name@),
                name: table.primary_key->0.columns@[k]@,
            },
        ),
{
    let key = table.primary_key->0;
    let wanted = texts(key.columns@);
    let flags = known_flags(table.column_names(), wanted);
    assert(wanted[k] == key.columns@[k]@);
    assert forall|j: int| 0 <= j < k implies #[trigger] flags[j] by {
        assert(wanted[j] == key.columns@[j]@);
    }
    first_false_is_unique(flags, k);
}

/// A table with an index that names a column that the table does not have is
/// never accepted.
pub proof fn unknown_index_column_is_rejected(table: Table, i: int, k: int)
    requires
        0 <= i < table.indices@.len(),
        0 <= k < table.indices@[i].columns@.len(),
        !table.column_names().contains(table.indices@[i].columns@[k]@),
    ensures
        !table.well_formed(),
        table.violation() is Some,
{
    assert(texts(table.indices@[i].columns@)[k] == table.indices@[i].columns@[k]@);
}

/// A table with a foreign key that names a local column that the table does
/// not have is never accepted.
pub proof fn unknown_foreign_key_column_is_rejected(table: Table, i: int, k: int)
    requires
        0 <= i < table.foreign_keys@.len(),
        0 <= k < table.foreign_keys@[i].columns@.len(),
        !table.column_names().contains(table.foreign_keys@[i].columns@[k]@),
    ensures
        !table.well_formed(),
        table.violation() is Some,
{
    assert(texts(table.foreign_keys@[i].columns@)[k] == table.foreign_keys@[i].columns@[k]@);
}

/// A foreign key whose two column lists differ in length is never accepted,
/// neither alone nor inside a table.
pub proof fn unpaired_foreign_key_is_rejected(key: ForeignKey)
    requires
        key.columns@.len() != key.referenced_columns@.len(),
    ensures
        !key.well_formed(),
        key.violation() == Some(
            BreachView {
                rule: Violation::ForeignKeyArity,
                within: None,
                name: key.referenced_table@,
            },
        ),
        forall|table: Table| table.foreign_keys@.contains(key) ==> !table.well_formed(),
{
    assert forall|table: Table| table.foreign_keys@.contains(key) implies !table.well_formed() by {
        let i = choose|i: int| 0 <= i < table.foreign_keys@.len() && table.foreign_keys@[i] == key;
        assert(!table.foreign_keys@[i].well_formed());
    }
}

/// Normalizing the same raw type string twice, under the same flags, yields
/// the same family and the same arity, or fails both times, naming the same
/// raw string.
pub proof fn normalization_is_deterministic(
    normalizer: TypeNormalizer,
    raw: Seq<char>,
    nullable: bool,
    list: bool,
    first: Result<(ColumnType, ColumnArity), IntrospectionError>,
    second: Result<(ColumnType, ColumnArity), IntrospectionError>,
)
    requires
        normalizer.normalizes_to(raw, nullable, list, first),
        normalizer.normalizes_to(raw, nullable, list, second),
    ensures
        first is Ok <==> second is Ok,
        first is Ok ==> first->Ok_0.0@ == second->Ok_0.0@ && first->Ok_0.1 == second->Ok_0.1,
        first is Err ==> first->Err_0 is UnknownRawType && second->Err_0 is UnknownRawType
            && first->Err_0->raw@ == second->Err_0->raw@,
{
}

/// Two raw type strings with the same base keyword belong to the same family:
/// case, blanks around the word, the parameter list and the array suffix play
/// no part in the choice of a family.
pub proof fn family_goes_by_base_keyword(
    normalizer: TypeNormalizer,
    this: Seq<char>,
    that: Seq<char>,
    nullable: bool,
    list: bool,
    first: Result<(ColumnType, ColumnArity), IntrospectionError>,
    second: Result<(ColumnType, ColumnArity), IntrospectionError>,
)
    requires
        base_keyword(this) == base_keyword(that),
        normalizer.normalizes_to(this, nullable, list, first),
        normalizer.normalizes_to(that, nullable, list, second),
    ensures
        first is Ok <==> second is Ok,
        first is Ok ==> first->Ok_0.0.family == second->Ok_0.0.family,
{
}

/// A raw type that the normalizer does not know is an error that names it,
/// never a family.
pub proof fn unknown_raw_type_has_no_family(
    normalizer: TypeNormalizer,
    raw: Seq<char>,
    nullable: bool,
    list: bool,
    out: Result<(ColumnType, ColumnArity), IntrospectionError>,
)
    requires
        !normalizer@.dom().contains(base_keyword(raw)),
        normalizer.normalizes_to(raw, nullable, list, out),
    ensures
        out matches Err(IntrospectionError::UnknownRawType { raw: text, column }) && text@ == raw,
{
}

/// Reading back the document that a schema was written as gives the same
/// schema: the same tables, columns, indices and keys in the same order, the
/// same enums with the same sets of values, the same sequences.
pub proof fn schema_survives_round_trip(schema: DatabaseSchema, doc: Value)
    requires
        schema.written_as(doc),
    ensures
        DatabaseSchema::read_from(doc) == Some(schema@),
{
    schema.round_trip(doc);
}

} // verus!
