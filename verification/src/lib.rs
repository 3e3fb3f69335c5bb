//! Canonical, engine-independent description of a relational database schema.

pub mod actions;
pub mod codec;
pub mod connector;
pub mod document;
pub mod equality;
pub mod error;
pub mod first;
pub mod keyword_laws;
pub mod laws;
pub mod model;
pub mod names;
pub mod normalize;
pub mod rules;
pub mod schema;
pub mod text;
pub mod value_set;
pub mod view;
pub mod vocabulary;

pub use connector::{IntrospectionConnection, IntrospectionConnector};
pub use document::{Structured, Value};
pub use equality::Comparable;
pub use error::{Breach, BreachView, IntrospectionError, IntrospectionResult, Violation};
pub use model::{
    Column, ColumnArity, ColumnType, ColumnTypeFamily, DatabaseSchema, Enum, ForeignKey,
    ForeignKeyAction, Index, PrimaryKey, Sequence, Table,
};
pub use names::Named;
pub use normalize::TypeNormalizer;
pub use value_set::EnumView;
pub use view::{
    ColumnTypeView, ColumnView, ForeignKeyView, IndexView, PrimaryKeyView, SchemaView, SequenceView,
    TableView,
};
