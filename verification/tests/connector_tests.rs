use database_introspection::{
    ColumnArity, ColumnTypeFamily, DatabaseSchema, ForeignKey, ForeignKeyAction,
    IntrospectionConnection, IntrospectionConnector, IntrospectionError, PrimaryKey, Table,
    TypeNormalizer,
};

/// A connection over a fixed catalog: rows of (column name, raw type, nullable).
struct FixedCatalog {
    schema: &'static str,
    rows: Vec<(&'static str, &'static str, bool)>,
}

impl IntrospectionConnection for FixedCatalog {
    type RowSet = Vec<(&'static str, &'static str, bool)>;
    type Failure = String;

    fn query_raw(&self, _sql: &str, schema: &str) -> Result<Self::RowSet, String> {
        if schema == self.schema {
            Ok(self.rows.clone())
        } else {
            Err(format!("no schema {}", schema))
        }
    }
}

struct Adapter {
    connection: FixedCatalog,
    types: TypeNormalizer,
}

impl IntrospectionConnector for Adapter {
    fn list_schemas(&self) -> Result<Vec<String>, IntrospectionError> {
        Ok(vec![self.connection.schema.to_string()])
    }

    fn introspect(&self, schema: &str) -> Result<DatabaseSchema, IntrospectionError> {
        let rows = self
            .connection
            .query_raw("select * from columns", schema)
            .map_err(IntrospectionError::ConnectionFailure)?;
        let mut columns = Vec::new();
        for (name, raw, nullable) in rows {
            columns.push(self.types.column(name.to_string(), raw, nullable, false, None, false)?);
        }
        let action = ForeignKeyAction::from_sql("SET NULL")?;
        let key = ForeignKey::new(
            vec!["manager_id".to_string()],
            "employees".to_string(),
            vec!["id".to_string()],
            action,
        )?;
        let table = Table::new(
            "employees".to_string(),
            columns,
            vec![],
            Some(PrimaryKey { columns: vec!["id".to_string()] }),
            vec![key],
        )?;
        DatabaseSchema::new(vec![table], vec![], vec![])
    }
}

fn adapter(rows: Vec<(&'static str, &'static str, bool)>) -> Adapter {
    Adapter {
        connection: FixedCatalog { schema: "public", rows },
        types: TypeNormalizer::new()
            .learn("integer", ColumnTypeFamily::Int)
            .learn("varchar", ColumnTypeFamily::String),
    }
}

#[test]
fn an_adapter_assembles_a_well_formed_schema() {
    let adapter = adapter(vec![
        ("id", "integer", false),
        ("manager_id", "INTEGER", true),
        ("name", "varchar(80)", false),
    ]);
    assert_eq!(adapter.list_schemas(), Ok(vec!["public".to_string()]));
    let schema = adapter.introspect("public").expect("a schema");
    assert_eq!(schema.check(), Ok(()));
    let employees = schema.get_table("employees").unwrap();
    assert_eq!(employees.columns.len(), 3);
    assert_eq!(employees.columns[1].arity, ColumnArity::Nullable);
    assert_eq!(employees.columns[1].tpe.raw, "INTEGER");
    assert_eq!(employees.columns[2].tpe.family, ColumnTypeFamily::String);
    assert_eq!(employees.foreign_keys[0].on_delete_action, ForeignKeyAction::SetNull);
}

#[test]
fn an_unknown_type_ends_introspection() {
    let adapter = adapter(vec![("id", "integer", false), ("blob", "frobnicate_type_9000", false)]);
    assert_eq!(
        adapter.introspect("public"),
        Err(IntrospectionError::UnknownRawType {
            raw: "frobnicate_type_9000".to_string(),
            column: Some("blob".to_string()),
        })
    );
}

#[test]
fn a_broken_rule_ends_introspection() {
    // no column `manager_id` for the foreign key
    let adapter = adapter(vec![("id", "integer", false)]);
    assert_eq!(
        adapter.introspect("public").map_err(|error| error.message()),
        Err("invariant violation: foreign key names an unknown column: manager_id in employees"
            .to_string())
    );
}

#[test]
fn a_connection_failure_ends_introspection() {
    let adapter = adapter(vec![("id", "integer", false)]);
    assert_eq!(
        adapter.introspect("private"),
        Err(IntrospectionError::ConnectionFailure("no schema private".to_string()))
    );
}
