use database_introspection::text::{chars_of, copy_of, same_text};
use database_introspection::{Breach, IntrospectionError, Violation};

#[test]
fn each_error_reads_as_its_kind_and_its_cause() {
    assert_eq!(IntrospectionError::UnknownError.message(), "unknown");
    assert_eq!(
        IntrospectionError::ConnectionFailure("timed out".to_string()).message(),
        "connection failure: timed out"
    );
    assert_eq!(
        IntrospectionError::UnknownRawType { raw: "frobnicate_type_9000".to_string(), column: None }
            .message(),
        "unknown raw type: frobnicate_type_9000"
    );
    assert_eq!(
        IntrospectionError::UnknownRawType {
            raw: "frobnicate_type_9000".to_string(),
            column: Some("blob".to_string()),
        }
        .message(),
        "unknown raw type: frobnicate_type_9000 of column blob"
    );
    assert_eq!(
        IntrospectionError::UnrecognizedForeignKeyAction("EXPLODE".to_string()).message(),
        "unrecognized foreign key action: EXPLODE"
    );
    assert_eq!(
        IntrospectionError::InvariantViolation(Breach {
            rule: Violation::DuplicateColumn,
            within: Some("orders".to_string()),
            name: "id".to_string(),
        })
        .message(),
        "invariant violation: duplicate column name: id in orders"
    );
    assert_eq!(
        IntrospectionError::InvariantViolation(Breach {
            rule: Violation::DuplicateTable,
            within: None,
            name: "orders".to_string(),
        })
        .message(),
        "invariant violation: duplicate table name: orders"
    );
}

#[test]
fn each_violation_has_its_description() {
    let all = [
        (Violation::AutoIncrementNotInt, "auto-increment column outside the Int family"),
        (Violation::DuplicateColumn, "duplicate column name"),
        (Violation::UnknownPrimaryKeyColumn, "primary key names an unknown column"),
        (Violation::UnknownIndexColumn, "index names an unknown column"),
        (Violation::ForeignKeyArity, "foreign key column lists differ in length"),
        (Violation::UnknownForeignKeyColumn, "foreign key names an unknown column"),
        (Violation::DuplicateTable, "duplicate table name"),
        (Violation::DuplicateEnum, "duplicate enum name"),
        (Violation::DuplicateEnumValue, "duplicate enum value"),
        (Violation::DuplicateSequence, "duplicate sequence name"),
    ];
    for (rule, text) in all {
        assert_eq!(rule.describe(), text);
    }
}

#[test]
fn text_is_compared_and_copied_exactly() {
    assert!(same_text("", ""));
    assert!(same_text("naïve", "naïve"));
    assert!(!same_text("a", "A"));
    assert!(!same_text("ab", "a"));
    assert!(!same_text("a", "ab"));
    assert!(!same_text("ab", "ac"));
    assert_eq!(chars_of("añb"), vec!['a', 'ñ', 'b']);
    assert_eq!(chars_of(""), Vec::<char>::new());
    assert_eq!(copy_of("añb"), "añb");
}
