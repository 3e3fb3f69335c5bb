//! The rules of the canonical model, and the checks that enforce them where a
//! value is assembled.
//!
//! A value that breaks a rule is rejected with the rule and the offending
//! name. Where it breaks several rules, the first is reported, in the order in
//! which `well_formed` lists them and, within a list, at the first position
//! that fails.

use vstd::prelude::*;
use vstd::string::*;
use crate::error::{Breach, BreachView, IntrospectionError, Violation};
use crate::first::{first_false, first_false_is_unique, is_first_false};
use crate::model::{
    Column, ColumnArity, ColumnType, ColumnTypeFamily, DatabaseSchema, Enum, ForeignKey,
    ForeignKeyAction, Index, PrimaryKey, Sequence, Table,
};
use crate::names::{
    all_known, distinct_iff_all_fresh, first_repeat, first_unknown, fresh_flags, known_flags,
    names_of, texts,
};
use crate::text::copy_of;

verus! {

/// Whether `made` is the rejection that reports `breach`.
pub open spec fn rejects<T>(made: Result<T, IntrospectionError>, breach: BreachView) -> bool {
    made matches Err(IntrospectionError::InvariantViolation(found)) && found@ == breach
}

/// Whether `made` is the right answer for a value that breaks `broken`: the
/// value itself where it breaks nothing, else the rejection that reports the
/// breach.
pub open spec fn judged<T>(
    made: Result<T, IntrospectionError>,
    broken: Option<BreachView>,
    value: T,
) -> bool {
    match broken {
        None => made == Ok::<T, IntrospectionError>(value),
        Some(breach) => rejects(made, breach),
    }
}

/// The rejection that reports a breach.
pub fn rejection(rule: Violation, within: Option<&str>, name: &str) -> (error: IntrospectionError)
    ensures
        error matches IntrospectionError::InvariantViolation(found) && found@ == (BreachView {
            rule,
            within: match within {
                Some(holder) => Some(holder@),
                None => None,
            },
            name: name@,
        }),
{
    let within = match within {
        Some(holder) => Some(copy_of(holder)),
        None => None,
    };
    IntrospectionError::InvariantViolation(Breach { rule, within, name: copy_of(name) })
}

impl Column {
    /// Auto-increment is only meaningful for integer identity columns.
    pub open spec fn well_formed(&self) -> bool {
        self.auto_increment ==> self.tpe.family == ColumnTypeFamily::Int
    }

    /// The rule that this column breaks, if any.
    pub open spec fn violation(&self) -> Option<BreachView> {
        if self.well_formed() {
            None
        } else {
            Some(BreachView { rule: Violation::AutoIncrementNotInt, within: None, name: self.name@ })
        }
    }

    /// Checks the column against its rule.
    pub fn check(&self) -> (checked: Result<(), IntrospectionError>)
        ensures
            judged(checked, self.violation(), ()),
            checked is Ok <==> self.well_formed(),
    {
        if self.auto_increment && self.tpe.family != ColumnTypeFamily::Int {
            Err(rejection(Violation::AutoIncrementNotInt, None, self.name.as_str()))
        } else {
            Ok(())
        }
    }

    /// Assembles a column, or rejects the parts if they break the column's rule.
    pub fn new(
        name: String,
        tpe: ColumnType,
        arity: ColumnArity,
        default: Option<String>,
        auto_increment: bool,
    ) -> (made: Result<Column, IntrospectionError>)
        ensures
            judged(
                made,
                (Column { name, tpe, arity, default, auto_increment }).violation(),
                (Column { name, tpe, arity, default, auto_increment }),
            ),
            made is Ok <==> (auto_increment ==> tpe.family == ColumnTypeFamily::Int),
    {
        let column = Column { name, tpe, arity, default, auto_increment };
        match column.check() {
            Ok(()) => Ok(column),
            Err(error) => Err(error),
        }
    }
}

impl ForeignKey {
    /// Local and referenced columns are paired by position.
    pub open spec fn well_formed(&self) -> bool {
        self.columns@.len() == self.referenced_columns@.len()
    }

    /// The rule that this foreign key breaks, if any. A foreign key has no
    /// name of its own: the breach names the table that it references.
    pub open spec fn violation(&self) -> Option<BreachView> {
        if self.well_formed() {
            None
        } else {
            Some(
                BreachView {
                    rule: Violation::ForeignKeyArity,
                    within: None,
                    name: self.referenced_table@,
                },
            )
        }
    }

    /// Checks the foreign key against its rule.
    pub fn check(&self) -> (checked: Result<(), IntrospectionError>)
        ensures
            judged(checked, self.violation(), ()),
            checked is Ok <==> self.well_formed(),
    {
        if self.columns.len() != self.referenced_columns.len() {
            Err(rejection(Violation::ForeignKeyArity, None, self.referenced_table.as_str()))
        } else {
            Ok(())
        }
    }

    /// Assembles a foreign key, or rejects the parts if the two column lists
    /// differ in length.
    pub fn new(
        columns: Vec<String>,
        referenced_table: String,
        referenced_columns: Vec<String>,
        on_delete_action: ForeignKeyAction,
    ) -> (made: Result<ForeignKey, IntrospectionError>)
        ensures
            judged(
                made,
                (ForeignKey {
                    columns,
                    referenced_table,
                    referenced_columns,
                    on_delete_action,
                }).violation(),
                (ForeignKey { columns, referenced_table, referenced_columns, on_delete_action }),
            ),
            made is Ok <==> columns@.len() == referenced_columns@.len(),
    {
        let key = ForeignKey { columns, referenced_table, referenced_columns, on_delete_action };
        match key.check() {
            Ok(()) => Ok(key),
            Err(error) => Err(error),
        }
    }
}

impl Table {
    /// The names of the table's columns, in catalog order.
    pub open spec fn column_names(&self) -> Seq<Seq<char>> {
        names_of(self.columns@)
    }

    /// Every column keeps its own rule.
    pub open spec fn columns_well_formed(&self) -> bool {
        forall|i: int| 0 <= i < self.columns@.len() ==> (#[trigger] self.columns@[i]).well_formed()
    }

    /// Column names are unique within the table.
    pub open spec fn columns_distinct(&self) -> bool {
        self.column_names().no_duplicates()
    }

    /// The primary key, if any, names columns of this table only.
    pub open spec fn primary_key_known(&self) -> bool {
        self.primary_key matches Some(key) ==> all_known(self.column_names(), texts(key.columns@))
    }

    /// Every index names columns of this table only.
    pub open spec fn indices_known(&self) -> bool {
        forall|i: int|
            0 <= i < self.indices@.len() ==> all_known(
                self.column_names(),
                texts((#[trigger] self.indices@[i]).columns@),
            )
    }

    /// Every foreign key pairs its columns one to one.
    pub open spec fn foreign_keys_paired(&self) -> bool {
        forall|i: int|
            0 <= i < self.foreign_keys@.len() ==> (#[trigger] self.foreign_keys@[i]).well_formed()
    }

    /// Every foreign key names, on the local side, columns of this table only.
    pub open spec fn foreign_keys_known(&self) -> bool {
        forall|i: int|
            0 <= i < self.foreign_keys@.len() ==> all_known(
                self.column_names(),
                texts((#[trigger] self.foreign_keys@[i]).columns@),
            )
    }

    /// All the rules of a table.
    pub open spec fn well_formed(&self) -> bool {
        &&& self.columns_well_formed()
        &&& self.columns_distinct()
        &&& self.primary_key_known()
        &&& self.indices_known()
        &&& self.foreign_keys_paired()
        &&& self.foreign_keys_known()
    }

    /// For each column, whether it keeps its own rule.
    pub open spec fn column_flags(&self) -> Seq<bool> {
        Seq::new(self.columns@.len(), |i: int| self.columns@[i].well_formed())
    }

    /// For each index, whether it names columns of this table only.
    pub open spec fn index_flags(&self) -> Seq<bool> {
        Seq::new(
            self.indices@.len(),
            |i: int| all_known(self.column_names(), texts(self.indices@[i].columns@)),
        )
    }

    /// For each foreign key, whether it pairs its columns one to one.
    pub open spec fn pairing_flags(&self) -> Seq<bool> {
        Seq::new(self.foreign_keys@.len(), |i: int| self.foreign_keys@[i].well_formed())
    }

    /// For each foreign key, whether it names columns of this table only.
    pub open spec fn foreign_key_flags(&self) -> Seq<bool> {
        Seq::new(
            self.foreign_keys@.len(),
            |i: int| all_known(self.column_names(), texts(self.foreign_keys@[i].columns@)),
        )
    }

    /// A breach inside this table.
    pub open spec fn breach(&self, rule: Violation, name: Seq<char>) -> BreachView {
        BreachView { rule, within: Some(self.name@), name }
    }

    /// The first of `wanted` that is no column of this table.
    pub open spec fn first_unknown_column(&self, wanted: Seq<Seq<char>>) -> Seq<char> {
        wanted[first_false(known_flags(self.column_names(), wanted))]
    }

    /// The rule that this table breaks, if any, with the offending name: the
    /// first column outside its rule, the first column name that repeats an
    /// earlier one, the first unknown column of the primary key, of the first
    /// index or of the first foreign key that has one, or the table that the
    /// first ill-paired foreign key references.
    pub open spec fn violation(&self) -> Option<BreachView> {
        if !self.columns_well_formed() {
            Some(
                self.breach(
                    Violation::AutoIncrementNotInt,
                    self.columns@[first_false(self.column_flags())].name@,
                ),
            )
        } else if !self.columns_distinct() {
            Some(
                self.breach(
                    Violation::DuplicateColumn,
                    self.column_names()[first_false(fresh_flags(self.column_names()))],
                ),
            )
        } else if !self.primary_key_known() {
            Some(
                self.breach(
                    Violation::UnknownPrimaryKeyColumn,
                    self.first_unknown_column(texts(self.primary_key->0.columns@)),
                ),
            )
        } else if !self.indices_known() {
            Some(
                self.breach(
                    Violation::UnknownIndexColumn,
                    self.first_unknown_column(
                        texts(self.indices@[first_false(self.index_flags())].columns@),
                    ),
                ),
            )
        } else if !self.foreign_keys_paired() {
            Some(
                self.breach(
                    Violation::ForeignKeyArity,
                    self.foreign_keys@[first_false(self.pairing_flags())].referenced_table@,
                ),
            )
        } else if !self.foreign_keys_known() {
            Some(
                self.breach(
                    Violation::UnknownForeignKeyColumn,
                    self.first_unknown_column(
                        texts(self.foreign_keys@[first_false(self.foreign_key_flags())].columns@),
                    ),
                ),
            )
        } else {
            None
        }
    }

    fn first_ill_formed_column(&self) -> (at: Option<usize>)
        ensures
            match at {
                Some(i) => is_first_false(self.column_flags(), i as int),
                None => self.columns_well_formed(),
            },
    {
        let mut i: usize = 0;
        while i < self.columns.len()
            invariant
                i <= self.columns@.len(),
                forall|k: int| 0 <= k < i ==> (#[trigger] self.columns@[k]).well_formed(),
            decreases self.columns.len() - i,
        {
            if self.columns[i].check().is_err() {
                return Some(i);
            }
            i += 1;
        }
        None
    }

    fn first_unknown_in_indices(&self) -> (at: Option<(usize, usize)>)
        ensures
            match at {
                Some((i, k)) => {
                    &&& is_first_false(self.index_flags(), i as int)
                    &&& is_first_false(
                        known_flags(self.column_names(), texts(self.indices@[i as int].columns@)),
                        k as int,
                    )
                },
                None => self.indices_known(),
            },
    {
        let mut i: usize = 0;
        while i < self.indices.len()
            invariant
                i <= self.indices@.len(),
                forall|k: int|
                    0 <= k < i ==> all_known(
                        self.column_names(),
                        texts((#[trigger] self.indices@[k]).columns@),
                    ),
            decreases self.indices.len() - i,
        {
            match first_unknown(&self.columns, &self.indices[i].columns) {
                Some(k) => {
                    proof {
                        let wanted = texts(self.indices@[i as int].columns@);
                        assert(!known_flags(self.column_names(), wanted)[k as int]);
                        assert(!all_known(self.column_names(), wanted));
                    }
                    return Some((i, k));
                },
                None => {},
            }
            i += 1;
        }
        None
    }

    fn first_ill_paired_key(&self) -> (at: Option<usize>)
        ensures
            match at {
                Some(i) => is_first_false(self.pairing_flags(), i as int),
                None => self.foreign_keys_paired(),
            },
    {
        let mut i: usize = 0;
        while i < self.foreign_keys.len()
            invariant
                i <= self.foreign_keys@.len(),
                forall|k: int| 0 <= k < i ==> (#[trigger] self.foreign_keys@[k]).well_formed(),
            decreases self.foreign_keys.len() - i,
        {
            if self.foreign_keys[i].check().is_err() {
                return Some(i);
            }
            i += 1;
        }
        None
    }

    fn first_unknown_in_foreign_keys(&self) -> (at: Option<(usize, usize)>)
        ensures
            match at {
                Some((i, k)) => {
                    &&& is_first_false(self.foreign_key_flags(), i as int)
                    &&& is_first_false(
                        known_flags(
                            self.column_names(),
                            texts(self.foreign_keys@[i as int].columns@),
                        ),
                        k as int,
                    )
                },
                None => self.foreign_keys_known(),
            },
    {
        let mut i: usize = 0;
        while i < self.foreign_keys.len()
            invariant
                i <= self.foreign_keys@.len(),
                forall|k: int|
                    0 <= k < i ==> all_known(
                        self.column_names(),
                        texts((#[trigger] self.foreign_keys@[k]).columns@),
                    ),
            decreases self.foreign_keys.len() - i,
        {
            match first_unknown(&self.columns, &self.foreign_keys[i].columns) {
                Some(k) => {
                    proof {
                        let wanted = texts(self.foreign_keys@[i as int].columns@);
                        assert(!known_flags(self.column_names(), wanted)[k as int]);
                        assert(!all_known(self.column_names(), wanted));
                    }
                    return Some((i, k));
                },
                None => {},
            }
            i += 1;
        }
        None
    }

    fn rejected(&self, rule: Violation, name: &str) -> (error: IntrospectionError)
        ensures
            error matches IntrospectionError::InvariantViolation(found) && found@ == self.breach(
                rule,
                name@,
            ),
    {
        rejection(rule, Some(self.name.as_str()), name)
    }

    /// Checks the table against all its rules.
    pub fn check(&self) -> (checked: Result<(), IntrospectionError>)
        ensures
            judged(checked, self.violation(), ()),
            checked is Ok <==> self.well_formed(),
    {
        match self.first_ill_formed_column() {
            Some(i) => {
                proof {
                    first_false_is_unique(self.column_flags(), i as int);
                }
                return Err(
                    self.rejected(Violation::AutoIncrementNotInt, self.columns[i].name.as_str()),
                );
            },
            None => {},
        }
        match first_repeat(&self.columns) {
            Some(j) => {
                proof {
                    first_false_is_unique(fresh_flags(self.column_names()), j as int);
                    distinct_iff_all_fresh(self.column_names());
                }
                return Err(self.rejected(Violation::DuplicateColumn, self.columns[j].name.as_str()));
            },
            None => {},
        }
        match &self.primary_key {
            Some(key) => {
                match first_unknown(&self.columns, &key.columns) {
                    Some(k) => {
                        proof {
                            let wanted = texts(key.columns@);
                            first_false_is_unique(known_flags(self.column_names(), wanted), k as int);
                            assert(wanted[k as int] == key.columns@[k as int]@);
                        }
                        return Err(
                            self.rejected(
                                Violation::UnknownPrimaryKeyColumn,
                                key.columns[k].as_str(),
                            ),
                        );
                    },
                    None => {},
                }
            },
            None => {},
        }
        match self.first_unknown_in_indices() {
            Some((i, k)) => {
                proof {
                    let wanted = texts(self.indices@[i as int].columns@);
                    first_false_is_unique(self.index_flags(), i as int);
                    first_false_is_unique(known_flags(self.column_names(), wanted), k as int);
                    assert(wanted[k as int] == self.indices@[i as int].columns@[k as int]@);
                }
                return Err(
                    self.rejected(
                        Violation::UnknownIndexColumn,
                        self.indices[i].columns[k].as_str(),
                    ),
                );
            },
            None => {},
        }
        match self.first_ill_paired_key() {
            Some(i) => {
                proof {
                    first_false_is_unique(self.pairing_flags(), i as int);
                }
                return Err(
                    self.rejected(
                        Violation::ForeignKeyArity,
                        self.foreign_keys[i].referenced_table.as_str(),
                    ),
                );
            },
            None => {},
        }
        match self.first_unknown_in_foreign_keys() {
            Some((i, k)) => {
                proof {
                    let wanted = texts(self.foreign_keys@[i as int].columns@);
                    first_false_is_unique(self.foreign_key_flags(), i as int);
                    first_false_is_unique(known_flags(self.column_names(), wanted), k as int);
                    assert(wanted[k as int] == self.foreign_keys@[i as int].columns@[k as int]@);
                }
                return Err(
                    self.rejected(
                        Violation::UnknownForeignKeyColumn,
                        self.foreign_keys[i].columns[k].as_str(),
                    ),
                );
            },
            None => {},
        }
        Ok(())
    }

    /// Assembles a table, or rejects the parts if they break a rule.
    pub fn new(
        name: String,
        columns: Vec<Column>,
        indices: Vec<Index>,
        primary_key: Option<PrimaryKey>,
        foreign_keys: Vec<ForeignKey>,
    ) -> (made: Result<Table, IntrospectionError>)
        ensures
            judged(
                made,
                (Table { name, columns, indices, primary_key, foreign_keys }).violation(),
                (Table { name, columns, indices, primary_key, foreign_keys }),
            ),
            made is Ok <==> (Table { name, columns, indices, primary_key, foreign_keys }).well_formed(),
    {
        let table = Table { name, columns, indices, primary_key, foreign_keys };
        match table.check() {
            Ok(()) => Ok(table),
            Err(error) => Err(error),
        }
    }
}

impl DatabaseSchema {
    /// Every table keeps the rules of a table.
    pub open spec fn tables_well_formed(&self) -> bool {
        forall|i: int| 0 <= i < self.tables@.len() ==> (#[trigger] self.tables@[i]).well_formed()
    }

    /// Every enum lists each of its values once.
    pub open spec fn enums_well_formed(&self) -> bool {
        forall|i: int| 0 <= i < self.enums@.len() ==> (#[trigger] self.enums@[i]).well_formed()
    }

    /// All the rules of a schema: its tables and enums are well formed, and
    /// table names, enum names and sequence names are each unique.
    pub open spec fn well_formed(&self) -> bool {
        &&& self.tables_well_formed()
        &&& names_of(self.tables@).no_duplicates()
        &&& self.enums_well_formed()
        &&& names_of(self.enums@).no_duplicates()
        &&& names_of(self.sequences@).no_duplicates()
    }

    /// For each table, whether it keeps the rules of a table.
    pub open spec fn table_flags(&self) -> Seq<bool> {
        Seq::new(self.tables@.len(), |i: int| self.tables@[i].well_formed())
    }

    /// For each enum, whether it lists each of its values once.
    pub open spec fn enum_flags(&self) -> Seq<bool> {
        Seq::new(self.enums@.len(), |i: int| self.enums@[i].well_formed())
    }

    /// The breach of a name that repeats an earlier one.
    pub open spec fn repeat(rule: Violation, names: Seq<Seq<char>>) -> BreachView {
        BreachView { rule, within: None, name: names[first_false(fresh_flags(names))] }
    }

    /// The rule that this schema breaks, if any, with the offending name: the
    /// breach of the first table that has one, the first table name that
    /// repeats an earlier one, the breach of the first enum that has one, the
    /// first enum name and the first sequence name that repeat an earlier one.
    pub open spec fn violation(&self) -> Option<BreachView> {
        if !self.tables_well_formed() {
            self.tables@[first_false(self.table_flags())].violation()
        } else if !names_of(self.tables@).no_duplicates() {
            Some(Self::repeat(Violation::DuplicateTable, names_of(self.tables@)))
        } else if !self.enums_well_formed() {
            self.enums@[first_false(self.enum_flags())].violation()
        } else if !names_of(self.enums@).no_duplicates() {
            Some(Self::repeat(Violation::DuplicateEnum, names_of(self.enums@)))
        } else if !names_of(self.sequences@).no_duplicates() {
            Some(Self::repeat(Violation::DuplicateSequence, names_of(self.sequences@)))
        } else {
            None
        }
    }

    fn tables_checked(&self) -> (checked: Result<(), IntrospectionError>)
        ensures
            match checked {
                Ok(()) => self.tables_well_formed(),
                Err(_) => !self.tables_well_formed() && judged(checked, self.violation(), ()),
            },
    {
        let mut i: usize = 0;
        while i < self.tables.len()
            invariant
                i <= self.tables@.len(),
                forall|k: int| 0 <= k < i ==> (#[trigger] self.tables@[k]).well_formed(),
            decreases self.tables.len() - i,
        {
            let checked = self.tables[i].check();
            if checked.is_err() {
                proof {
                    first_false_is_unique(self.table_flags(), i as int);
                }
                return checked;
            }
            i += 1;
        }
        Ok(())
    }

    fn enums_checked(&self) -> (checked: Result<(), IntrospectionError>)
        ensures
            match checked {
                Ok(()) => self.enums_well_formed(),
                Err(_) => {
                    &&& !self.enums_well_formed()
                    &&& self.enums@[first_false(self.enum_flags())].violation() matches Some(breach)
                    &&& rejects(checked, breach)
                },
            },
    {
        let mut i: usize = 0;
        while i < self.enums.len()
            invariant
                i <= self.enums@.len(),
                forall|k: int| 0 <= k < i ==> (#[trigger] self.enums@[k]).well_formed(),
            decreases self.enums.len() - i,
        {
            let checked = self.enums[i].check();
            if checked.is_err() {
                proof {
                    first_false_is_unique(self.enum_flags(), i as int);
                }
                return checked;
            }
            i += 1;
        }
        Ok(())
    }

    /// Checks the schema against all its rules.
    pub fn check(&self) -> (checked: Result<(), IntrospectionError>)
        ensures
            judged(checked, self.violation(), ()),
            checked is Ok <==> self.well_formed(),
    {
        let tables = self.tables_checked();
        if tables.is_err() {
            return tables;
        }
        match first_repeat(&self.tables) {
            Some(j) => {
                proof {
                    first_false_is_unique(fresh_flags(names_of(self.tables@)), j as int);
                    distinct_iff_all_fresh(names_of(self.tables@));
                }
                return Err(
                    rejection(Violation::DuplicateTable, None, self.tables[j].name.as_str()),
                );
            },
            None => {},
        }
        let enums = self.enums_checked();
        if enums.is_err() {
            return enums;
        }
        match first_repeat(&self.enums) {
            Some(j) => {
                proof {
                    first_false_is_unique(fresh_flags(names_of(self.enums@)), j as int);
                    distinct_iff_all_fresh(names_of(self.enums@));
                }
                return Err(rejection(Violation::DuplicateEnum, None, self.enums[j].name.as_str()));
            },
            None => {},
        }
        match first_repeat(&self.sequences) {
            Some(j) => {
                proof {
                    first_false_is_unique(fresh_flags(names_of(self.sequences@)), j as int);
                    distinct_iff_all_fresh(names_of(self.sequences@));
                }
                return Err(
                    rejection(Violation::DuplicateSequence, None, self.sequences[j].name.as_str()),
                );
            },
            None => {},
        }
        Ok(())
    }

    /// Assembles a schema, or rejects the parts if they break a rule.
    pub fn new(tables: Vec<Table>, enums: Vec<Enum>, sequences: Vec<Sequence>) -> (made: Result<
        DatabaseSchema,
        IntrospectionError,
    >)
        ensures
            judged(
                made,
                (DatabaseSchema { tables, enums, sequences }).violation(),
                (DatabaseSchema { tables, enums, sequences }),
            ),
            made is Ok <==> (DatabaseSchema { tables, enums, sequences }).well_formed(),
    {
        let schema = DatabaseSchema { tables, enums, sequences };
        match schema.check() {
            Ok(()) => Ok(schema),
            Err(error) => Err(error),
        }
    }
}

} // verus!
