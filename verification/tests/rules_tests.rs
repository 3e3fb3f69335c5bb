use database_introspection::{
    Breach, Column, ColumnArity, ColumnType, ColumnTypeFamily, DatabaseSchema, Enum, ForeignKey,
    ForeignKeyAction, Index, IntrospectionError, PrimaryKey, Sequence, Table, Violation,
};

fn names(list: &[&str]) -> Vec<String> {
    list.iter().map(|s| s.to_string()).collect()
}

fn column(name: &str, family: ColumnTypeFamily, auto_increment: bool) -> Column {
    Column {
        name: name.to_string(),
        tpe: ColumnType { raw: "raw".to_string(), family },
        arity: ColumnArity::Required,
        default: None,
        auto_increment,
    }
}

fn plain(name: &str) -> Column {
    column(name, ColumnTypeFamily::Int, false)
}

fn key(columns: &[&str], referenced: &[&str]) -> ForeignKey {
    ForeignKey {
        columns: names(columns),
        referenced_table: "other".to_string(),
        referenced_columns: names(referenced),
        on_delete_action: ForeignKeyAction::Restrict,
    }
}

fn table(name: &str, columns: Vec<Column>) -> Table {
    Table { name: name.to_string(), columns, indices: vec![], primary_key: None, foreign_keys: vec![] }
}

fn broken(rule: Violation, within: Option<&str>, name: &str) -> IntrospectionError {
    IntrospectionError::InvariantViolation(Breach {
        rule,
        within: within.map(|holder| holder.to_string()),
        name: name.to_string(),
    })
}

#[test]
fn primary_key_on_an_unknown_column_is_rejected() {
    let made = Table::new(
        "t".to_string(),
        vec![plain("a"), plain("b")],
        vec![],
        Some(PrimaryKey { columns: names(&["a", "c"]) }),
        vec![],
    );
    assert_eq!(made, Err(broken(Violation::UnknownPrimaryKeyColumn, Some("t"), "c")));
    let mut literal = table("t", vec![plain("a"), plain("b")]);
    literal.primary_key = Some(PrimaryKey { columns: names(&["c"]) });
    assert_eq!(literal.check(), Err(broken(Violation::UnknownPrimaryKeyColumn, Some("t"), "c")));
    let schema = DatabaseSchema::new(vec![literal], vec![], vec![]);
    assert_eq!(schema, Err(broken(Violation::UnknownPrimaryKeyColumn, Some("t"), "c")));
}

#[test]
fn primary_key_on_known_columns_is_accepted() {
    let made = Table::new(
        "t".to_string(),
        vec![plain("a"), plain("b")],
        vec![],
        Some(PrimaryKey { columns: names(&["b", "a"]) }),
        vec![],
    );
    let made = made.expect("a valid table");
    assert_eq!(made.name, "t");
    assert_eq!(made.columns, vec![plain("a"), plain("b")]);
    assert_eq!(made.primary_key, Some(PrimaryKey { columns: names(&["b", "a"]) }));
    assert_eq!(made.check(), Ok(()));
}

#[test]
fn column_names_are_compared_exactly() {
    let made = Table::new(
        "t".to_string(),
        vec![plain("id")],
        vec![],
        Some(PrimaryKey { columns: names(&["ID"]) }),
        vec![],
    );
    assert_eq!(made, Err(broken(Violation::UnknownPrimaryKeyColumn, Some("t"), "ID")));
}

#[test]
fn foreign_key_with_unequal_lists_is_rejected() {
    let made = ForeignKey::new(
        names(&["a", "b"]),
        "other".to_string(),
        names(&["x"]),
        ForeignKeyAction::Cascade,
    );
    assert_eq!(made, Err(broken(Violation::ForeignKeyArity, None, "other")));
    let made = ForeignKey::new(names(&[]), "other".to_string(), names(&["x"]), ForeignKeyAction::Cascade);
    assert_eq!(made, Err(broken(Violation::ForeignKeyArity, None, "other")));
    assert_eq!(key(&["a"], &[]).check(), Err(broken(Violation::ForeignKeyArity, None, "other")));
}

#[test]
fn foreign_key_with_equal_lists_is_accepted() {
    let made = ForeignKey::new(
        names(&["a", "b"]),
        "other".to_string(),
        names(&["x", "y"]),
        ForeignKeyAction::SetDefault,
    );
    assert_eq!(
        made,
        Ok(ForeignKey {
            columns: names(&["a", "b"]),
            referenced_table: "other".to_string(),
            referenced_columns: names(&["x", "y"]),
            on_delete_action: ForeignKeyAction::SetDefault,
        })
    );
    let empty = ForeignKey::new(names(&[]), "other".to_string(), names(&[]), ForeignKeyAction::NoAction);
    assert!(empty.is_ok());
}

#[test]
fn auto_increment_needs_the_int_family() {
    let made = Column::new(
        "id".to_string(),
        ColumnType { raw: "text".to_string(), family: ColumnTypeFamily::String },
        ColumnArity::Required,
        None,
        true,
    );
    assert_eq!(made, Err(broken(Violation::AutoIncrementNotInt, None, "id")));
    let made = Column::new(
        "id".to_string(),
        ColumnType { raw: "integer".to_string(), family: ColumnTypeFamily::Int },
        ColumnArity::Required,
        None,
        true,
    );
    assert_eq!(made, Ok(column("id", ColumnTypeFamily::Int, true)).map(|mut c: Column| {
        c.tpe.raw = "integer".to_string();
        c
    }));
    assert_eq!(column("n", ColumnTypeFamily::Float, false).check(), Ok(()));
    assert_eq!(column("n", ColumnTypeFamily::Float, true).check(), Err(broken(Violation::AutoIncrementNotInt, None, "n")));
}

#[test]
fn each_table_rule_has_its_violation() {
    let mut t = table("t", vec![plain("a"), column("b", ColumnTypeFamily::Uuid, true)]);
    assert_eq!(t.check(), Err(broken(Violation::AutoIncrementNotInt, Some("t"), "b")));

    t = table("t", vec![plain("a"), plain("b"), plain("a")]);
    assert_eq!(t.check(), Err(broken(Violation::DuplicateColumn, Some("t"), "a")));

    t = table("t", vec![plain("a")]);
    t.indices = vec![
        Index { name: "i".to_string(), columns: names(&["a"]), unique: true },
        Index { name: "j".to_string(), columns: names(&["a", "z"]), unique: false },
    ];
    assert_eq!(t.check(), Err(broken(Violation::UnknownIndexColumn, Some("t"), "z")));

    t = table("t", vec![plain("a")]);
    t.foreign_keys = vec![key(&["a"], &["x", "y"])];
    assert_eq!(t.check(), Err(broken(Violation::ForeignKeyArity, Some("t"), "other")));

    t = table("t", vec![plain("a")]);
    t.foreign_keys = vec![key(&["a"], &["x"]), key(&["q"], &["x"])];
    assert_eq!(t.check(), Err(broken(Violation::UnknownForeignKeyColumn, Some("t"), "q")));

    t = table("t", vec![plain("a")]);
    t.indices = vec![Index { name: "i".to_string(), columns: names(&["a"]), unique: true }];
    t.primary_key = Some(PrimaryKey { columns: names(&["a"]) });
    t.foreign_keys = vec![key(&["a"], &["x"])];
    assert_eq!(t.check(), Ok(()));
}

#[test]
fn the_first_broken_rule_is_reported() {
    // breaks every rule of a table at once
    let mut t = table("t", vec![column("a", ColumnTypeFamily::Json, true), plain("a")]);
    t.primary_key = Some(PrimaryKey { columns: names(&["z"]) });
    t.indices = vec![Index { name: "i".to_string(), columns: names(&["z"]), unique: true }];
    t.foreign_keys = vec![key(&["z"], &[])];
    assert_eq!(t.check(), Err(broken(Violation::AutoIncrementNotInt, Some("t"), "a")));
    t.columns[0].auto_increment = false;
    assert_eq!(t.check(), Err(broken(Violation::DuplicateColumn, Some("t"), "a")));
    t.columns[1].name = "b".to_string();
    assert_eq!(t.check(), Err(broken(Violation::UnknownPrimaryKeyColumn, Some("t"), "z")));
    t.primary_key = None;
    assert_eq!(t.check(), Err(broken(Violation::UnknownIndexColumn, Some("t"), "z")));
    t.indices.clear();
    assert_eq!(t.check(), Err(broken(Violation::ForeignKeyArity, Some("t"), "other")));
    t.foreign_keys[0].referenced_columns = names(&["x"]);
    assert_eq!(t.check(), Err(broken(Violation::UnknownForeignKeyColumn, Some("t"), "z")));
    t.foreign_keys[0].columns = names(&["b"]);
    assert_eq!(t.check(), Ok(()));
}

#[test]
fn each_schema_rule_has_its_violation() {
    let good = |name: &str| table(name, vec![plain("a")]);
    let sequence = |name: &str| Sequence { name: name.to_string(), initial_value: 1, allocation_size: 1 };
    let mood = |name: &str| Enum::new(name.to_string(), names(&["a", "b"]));

    let s = DatabaseSchema { tables: vec![good("t"), good("u"), good("t")], enums: vec![], sequences: vec![] };
    assert_eq!(s.check(), Err(broken(Violation::DuplicateTable, None, "t")));

    let s = DatabaseSchema { tables: vec![], enums: vec![mood("m"), mood("m")], sequences: vec![] };
    assert_eq!(s.check(), Err(broken(Violation::DuplicateEnum, None, "m")));

    let s = DatabaseSchema { tables: vec![], enums: vec![], sequences: vec![sequence("s"), sequence("s")] };
    assert_eq!(s.check(), Err(broken(Violation::DuplicateSequence, None, "s")));

    let twice = Enum { name: "m".to_string(), values: names(&["a", "b", "a"]) };
    let s = DatabaseSchema { tables: vec![], enums: vec![twice], sequences: vec![] };
    assert_eq!(s.check(), Err(broken(Violation::DuplicateEnumValue, Some("m"), "a")));

    // a table, an enum and a sequence may share one name
    let s = DatabaseSchema { tables: vec![good("x")], enums: vec![mood("x")], sequences: vec![sequence("x")] };
    assert_eq!(s.check(), Ok(()));
}

#[test]
fn a_schema_reports_its_first_ill_formed_table() {
    let mut unknown_key = table("u", vec![plain("a")]);
    unknown_key.primary_key = Some(PrimaryKey { columns: names(&["z"]) });
    let duplicate = table("d", vec![plain("a"), plain("a")]);
    let fine = table("f", vec![plain("a")]);
    let s = DatabaseSchema {
        tables: vec![fine.clone(), unknown_key.clone(), duplicate.clone()],
        enums: vec![],
        sequences: vec![],
    };
    assert_eq!(s.check(), Err(broken(Violation::UnknownPrimaryKeyColumn, Some("u"), "z")));
    let s = DatabaseSchema {
        tables: vec![duplicate, fine.clone(), unknown_key, fine],
        enums: vec![],
        sequences: vec![],
    };
    // the first table's rule comes before the duplicate table names
    assert_eq!(s.check(), Err(broken(Violation::DuplicateColumn, Some("d"), "a")));
}

#[test]
fn schema_new_hands_back_its_parts() {
    let tables = vec![table("t", vec![plain("a")])];
    let enums = vec![Enum::new("m".to_string(), names(&["x"]))];
    let sequences = vec![Sequence { name: "s".to_string(), initial_value: 3, allocation_size: 4 }];
    let made = DatabaseSchema::new(tables.clone(), enums.clone(), sequences.clone()).unwrap();
    assert_eq!(made.tables, tables);
    assert_eq!(made.enums, enums);
    assert_eq!(made.sequences, sequences);
    assert_eq!(DatabaseSchema::new(vec![], vec![], vec![]), Ok(DatabaseSchema { tables: vec![], enums: vec![], sequences: vec![] }));
}

#[test]
fn the_first_offender_is_named() {
    // `b` repeats before `a` does
    let t = table("t", vec![plain("a"), plain("b"), plain("c"), plain("b"), plain("a")]);
    assert_eq!(t.check(), Err(broken(Violation::DuplicateColumn, Some("t"), "b")));

    let mut t = table("t", vec![plain("a")]);
    t.primary_key = Some(PrimaryKey { columns: names(&["a", "y", "x"]) });
    assert_eq!(t.check(), Err(broken(Violation::UnknownPrimaryKeyColumn, Some("t"), "y")));

    // the second index is the first with an unknown column
    let mut t = table("t", vec![plain("a")]);
    t.indices = vec![
        Index { name: "i".to_string(), columns: names(&["a"]), unique: true },
        Index { name: "j".to_string(), columns: names(&["a", "p", "q"]), unique: true },
        Index { name: "k".to_string(), columns: names(&["r"]), unique: true },
    ];
    assert_eq!(t.check(), Err(broken(Violation::UnknownIndexColumn, Some("t"), "p")));

    let mut t = table("t", vec![plain("a")]);
    let mut first = key(&["a"], &["x"]);
    first.referenced_table = "one".to_string();
    let mut second = key(&["a"], &[]);
    second.referenced_table = "two".to_string();
    let mut third = key(&[], &["x"]);
    third.referenced_table = "three".to_string();
    t.foreign_keys = vec![first, second, third];
    assert_eq!(t.check(), Err(broken(Violation::ForeignKeyArity, Some("t"), "two")));

    let s = DatabaseSchema {
        tables: vec![],
        enums: vec![
            Enum { name: "fine".to_string(), values: names(&["a", "b"]) },
            Enum { name: "twice".to_string(), values: names(&["a", "b", "c", "c", "a"]) },
        ],
        sequences: vec![],
    };
    assert_eq!(s.check(), Err(broken(Violation::DuplicateEnumValue, Some("twice"), "c")));
}
