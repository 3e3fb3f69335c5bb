use database_introspection::normalize::{arity_from, keyword_of, normal_form_of};
use database_introspection::{
    Breach, Column, ColumnArity, ColumnType, ColumnTypeFamily, ForeignKeyAction,
    IntrospectionError, TypeNormalizer, Violation,
};

fn unknown(raw: &str) -> IntrospectionError {
    IntrospectionError::UnknownRawType { raw: raw.to_string(), column: None }
}

fn postgres() -> TypeNormalizer {
    TypeNormalizer::new()
        .learn("integer", ColumnTypeFamily::Int)
        .learn("int4", ColumnTypeFamily::Int)
        .learn("bigint", ColumnTypeFamily::Int)
        .learn("numeric", ColumnTypeFamily::Float)
        .learn("double precision", ColumnTypeFamily::Float)
        .learn("boolean", ColumnTypeFamily::Boolean)
        .learn("varchar", ColumnTypeFamily::String)
        .learn("character varying", ColumnTypeFamily::String)
        .learn("text", ColumnTypeFamily::String)
        .learn("timestamp", ColumnTypeFamily::DateTime)
        .learn("bytea", ColumnTypeFamily::Binary)
        .learn("jsonb", ColumnTypeFamily::Json)
        .learn("uuid", ColumnTypeFamily::Uuid)
        .learn("point", ColumnTypeFamily::Geometric)
        .learn("pg_lsn", ColumnTypeFamily::LogSequenceNumber)
        .learn("tsvector", ColumnTypeFamily::TextSearch)
        .learn("txid_snapshot", ColumnTypeFamily::TransactionId)
}

fn keyword(raw: &str) -> (String, bool) {
    let (word, list) = keyword_of(raw);
    (word.into_iter().collect(), list)
}

#[test]
fn normalizing_twice_gives_the_same_answer() {
    let types = postgres();
    for raw in ["integer", "VARCHAR(255)", "numeric(10, 2)[]", "frobnicate_type_9000", ""] {
        for (nullable, list) in [(false, false), (true, false), (false, true), (true, true)] {
            let first = types.normalize(raw, nullable, list);
            let second = types.normalize(raw, nullable, list);
            assert_eq!(first, second);
        }
    }
}

#[test]
fn an_unknown_raw_type_is_an_error_that_names_it() {
    let types = postgres();
    assert_eq!(
        types.normalize("frobnicate_type_9000", false, false),
        Err(unknown("frobnicate_type_9000"))
    );
    assert_eq!(
        types.classify("frobnicate_type_9000"),
        Err(unknown("frobnicate_type_9000"))
    );
    assert_eq!(
        types.normalize("  Frobnicate(3) ", true, true),
        Err(unknown("  Frobnicate(3) "))
    );
    assert_eq!(
        TypeNormalizer::new().classify("text"),
        Err(unknown("text"))
    );
    assert_eq!(types.classify(""), Err(unknown("")));
}

#[test]
fn a_known_raw_type_keeps_its_spelling_and_gets_its_family() {
    let types = postgres();
    assert_eq!(
        types.normalize("integer", false, false),
        Ok((ColumnType { raw: "integer".to_string(), family: ColumnTypeFamily::Int }, ColumnArity::Required))
    );
    assert_eq!(
        types.normalize("VarChar(255)", true, false),
        Ok((
            ColumnType { raw: "VarChar(255)".to_string(), family: ColumnTypeFamily::String },
            ColumnArity::Nullable
        ))
    );
    assert_eq!(
        types.normalize(" numeric (10,2) ", false, false),
        Ok((
            ColumnType { raw: " numeric (10,2) ".to_string(), family: ColumnTypeFamily::Float },
            ColumnArity::Required
        ))
    );
    assert_eq!(types.classify("DOUBLE PRECISION"), Ok(ColumnTypeFamily::Float));
    assert_eq!(types.classify("character varying(30)"), Ok(ColumnTypeFamily::String));
    assert_eq!(types.classify("timestamp(3) with time zone"), Ok(ColumnTypeFamily::DateTime));
    assert_eq!(types.classify("pg_lsn"), Ok(ColumnTypeFamily::LogSequenceNumber));
    assert_eq!(types.classify("TSVECTOR"), Ok(ColumnTypeFamily::TextSearch));
    assert_eq!(types.classify("txid_snapshot"), Ok(ColumnTypeFamily::TransactionId));
    assert_eq!(types.classify("point"), Ok(ColumnTypeFamily::Geometric));
    assert_eq!(types.classify("uuid"), Ok(ColumnTypeFamily::Uuid));
    assert_eq!(types.classify("jsonb"), Ok(ColumnTypeFamily::Json));
    assert_eq!(types.classify("bytea"), Ok(ColumnTypeFamily::Binary));
    assert_eq!(types.classify("boolean"), Ok(ColumnTypeFamily::Boolean));
}

#[test]
fn arity_comes_from_the_flags_and_the_array_suffix() {
    let types = postgres();
    let arity = |raw: &str, nullable: bool, list: bool| types.normalize(raw, nullable, list).unwrap().1;
    assert_eq!(arity("integer", false, false), ColumnArity::Required);
    assert_eq!(arity("integer", true, false), ColumnArity::Nullable);
    assert_eq!(arity("integer", false, true), ColumnArity::List);
    assert_eq!(arity("integer", true, true), ColumnArity::List);
    assert_eq!(arity("integer[]", false, false), ColumnArity::List);
    assert_eq!(arity("integer[]", true, false), ColumnArity::List);
    assert_eq!(arity("varchar(10) [] ", true, false), ColumnArity::List);
    assert_eq!(arity_from(false, false), ColumnArity::Required);
    assert_eq!(arity_from(true, false), ColumnArity::Nullable);
    assert_eq!(arity_from(false, true), ColumnArity::List);
    assert_eq!(arity_from(true, true), ColumnArity::List);
}

#[test]
fn base_keyword_drops_case_blanks_parameters_and_suffix() {
    assert_eq!(keyword("integer"), ("integer".to_string(), false));
    assert_eq!(keyword("  INTEGER\t\n"), ("integer".to_string(), false));
    assert_eq!(keyword("varchar(255)"), ("varchar".to_string(), false));
    assert_eq!(keyword("VARCHAR (255)"), ("varchar".to_string(), false));
    assert_eq!(keyword("numeric(10,2)[]"), ("numeric".to_string(), true));
    assert_eq!(keyword("text[]"), ("text".to_string(), true));
    assert_eq!(keyword("text []"), ("text".to_string(), true));
    assert_eq!(keyword("[]"), ("".to_string(), true));
    assert_eq!(keyword("]"), ("]".to_string(), false));
    assert_eq!(keyword("a[]b"), ("a[]b".to_string(), false));
    assert_eq!(keyword(""), ("".to_string(), false));
    assert_eq!(keyword("   "), ("".to_string(), false));
    assert_eq!(keyword("(3)"), ("".to_string(), false));
    assert_eq!(keyword("Character Varying(3)"), ("character varying".to_string(), false));
    // only ASCII capitals are lowered
    assert_eq!(keyword("ÉCOLE"), ("École".to_string(), false));
    assert_eq!(keyword("Zz@[`az{"), ("zz@[`az{".to_string(), false));
}

#[test]
fn normal_form_lowers_and_trims() {
    let form = |word: &str| -> String { normal_form_of(word).into_iter().collect() };
    assert_eq!(form("  Set NULL \r\n"), "set null");
    assert_eq!(form("x"), "x");
    assert_eq!(form(" \t "), "");
    assert_eq!(form("A(1)[]"), "a(1)[]");
}

#[test]
fn a_name_learnt_again_replaces_its_family() {
    let types = TypeNormalizer::new()
        .learn("serial", ColumnTypeFamily::String)
        .learn("other", ColumnTypeFamily::Json)
        .learn(" SERIAL(4) ", ColumnTypeFamily::Int);
    assert_eq!(types.classify("serial"), Ok(ColumnTypeFamily::Int));
    assert_eq!(types.classify("other"), Ok(ColumnTypeFamily::Json));
}

#[test]
fn a_column_is_assembled_whole_or_not_at_all() {
    let types = postgres();
    assert_eq!(
        types.column("id".to_string(), "bigint", false, false, None, true),
        Ok(Column {
            name: "id".to_string(),
            tpe: ColumnType { raw: "bigint".to_string(), family: ColumnTypeFamily::Int },
            arity: ColumnArity::Required,
            default: None,
            auto_increment: true,
        })
    );
    assert_eq!(
        types.column("tags".to_string(), "text[]", true, false, Some("'{}'".to_string()), false),
        Ok(Column {
            name: "tags".to_string(),
            tpe: ColumnType { raw: "text[]".to_string(), family: ColumnTypeFamily::String },
            arity: ColumnArity::List,
            default: Some("'{}'".to_string()),
            auto_increment: false,
        })
    );
    assert_eq!(
        types.column("id".to_string(), "uuid", false, false, None, true),
        Err(IntrospectionError::InvariantViolation(Breach {
            rule: Violation::AutoIncrementNotInt,
            within: None,
            name: "id".to_string(),
        }))
    );
    assert_eq!(
        types.column("id".to_string(), "frobnicate_type_9000", false, false, None, true),
        Err(IntrospectionError::UnknownRawType {
            raw: "frobnicate_type_9000".to_string(),
            column: Some("id".to_string()),
        })
    );
}

#[test]
fn referential_actions_are_read_from_their_sql_spelling() {
    assert_eq!(ForeignKeyAction::from_sql("NO ACTION"), Ok(ForeignKeyAction::NoAction));
    assert_eq!(ForeignKeyAction::from_sql("RESTRICT"), Ok(ForeignKeyAction::Restrict));
    assert_eq!(ForeignKeyAction::from_sql("CASCADE"), Ok(ForeignKeyAction::Cascade));
    assert_eq!(ForeignKeyAction::from_sql("SET NULL"), Ok(ForeignKeyAction::SetNull));
    assert_eq!(ForeignKeyAction::from_sql("SET DEFAULT"), Ok(ForeignKeyAction::SetDefault));
    assert_eq!(ForeignKeyAction::from_sql("  cascade\n"), Ok(ForeignKeyAction::Cascade));
    assert_eq!(ForeignKeyAction::from_sql("Set Null"), Ok(ForeignKeyAction::SetNull));
    assert_eq!(
        ForeignKeyAction::from_sql("SETNULL"),
        Err(IntrospectionError::UnrecognizedForeignKeyAction("SETNULL".to_string()))
    );
    assert_eq!(
        ForeignKeyAction::from_sql(" explode "),
        Err(IntrospectionError::UnrecognizedForeignKeyAction(" explode ".to_string()))
    );
    assert_eq!(
        ForeignKeyAction::from_sql(""),
        Err(IntrospectionError::UnrecognizedForeignKeyAction("".to_string()))
    );
}
