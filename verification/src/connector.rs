//! The contracts at the two edges of introspection: the connection that an
//! adapter consumes, and the connector that an adapter is.

use vstd::prelude::*;
use vstd::string::*;
use crate::error::IntrospectionResult;
use crate::model::DatabaseSchema;

verus! {

/// Connection abstraction for the introspection connectors.
///
/// A connection runs a raw statement scoped to one schema and hands back the
/// rows. What a row set is, and how a failure is described, is the
/// connection's own affair: adapters read the rows by column, the canonical
/// model never sees them. Timeouts, retries and pooling belong to the
/// connection as well.
pub trait IntrospectionConnection {
    /// The rows that a statement yields.
    type RowSet;

    /// What the connection reports when it cannot run a statement.
    type Failure;

    /// Runs `sql` against `schema`.
    fn query_raw(&self, sql: &str, schema: &str) -> (rows: Result<Self::RowSet, Self::Failure>);
}

/// A database introspection connector.
///
/// Introspection only reads: an adapter never changes the database it
/// describes. Every failure ends the call; no partial schema is handed out.
pub trait IntrospectionConnector {
    /// List the database's schemas: those that the connection may introspect,
    /// in no particular order.
    fn list_schemas(&self) -> (listed: IntrospectionResult<Vec<String>>);

    /// Introspect a database schema. A schema that is handed out keeps every
    /// rule of the canonical model.
    fn introspect(&self, schema: &str) -> (found: IntrospectionResult<DatabaseSchema>)
        ensures
            found matches Ok(snapshot) ==> snapshot.well_formed(),
    ;
}

} // verus!
