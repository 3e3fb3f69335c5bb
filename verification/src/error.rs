//! Failures surfaced while a schema snapshot is captured or assembled.

use vstd::prelude::*;
use vstd::string::*;

verus! {

/// The rule of the canonical model that a value breaks.
#[derive(Debug, Clone, Copy, PartialEq, Eq, Structural)]
pub enum Violation {
    /// A column is marked auto-increment although its family is not `Int`.
    AutoIncrementNotInt,
    /// Two columns of one table share a name.
    DuplicateColumn,
    /// A primary key names a column that its table does not have.
    UnknownPrimaryKeyColumn,
    /// An index names a column that its table does not have.
    UnknownIndexColumn,
    /// A foreign key pairs a different number of local and referenced columns.
    ForeignKeyArity,
    /// A foreign key names a local column that its table does not have.
    UnknownForeignKeyColumn,
    /// Two tables of one schema share a name.
    DuplicateTable,
    /// Two enums of one schema share a name.
    DuplicateEnum,
    /// An enum lists one of its values more than once.
    DuplicateEnumValue,
    /// Two sequences of one schema share a name.
    DuplicateSequence,
}

/// Where a rule of the canonical model is broken.
#[derive(Debug, Clone, PartialEq, Eq)]
pub struct Breach {
    /// The rule that is broken.
    pub rule: Violation,
    /// The table or enum that holds the offender, where one does.
    pub within: Option<String>,
    /// The offending name: the column, table, enum, sequence or value that
    /// breaks the rule; for a foreign key, the table that it references.
    pub name: String,
}

/// A breach, with its names as sequences of characters.
pub struct BreachView {
    pub rule: Violation,
    pub within: Option<Seq<char>>,
    pub name: Seq<char>,
}

impl View for Breach {
    type V = BreachView;

    open spec fn view(&self) -> BreachView {
        BreachView {
            rule: self.rule,
            within: match self.within {
                Some(holder) => Some(holder@),
                None => None,
            },
            name: self.name@,
        }
    }
}

/// Introspection errors.
///
/// Every error ends the call that met it: no partial schema is handed out.
#[derive(Debug, Clone, PartialEq, Eq)]
pub enum IntrospectionError {
    /// An unknown error occurred.
    UnknownError,
    /// The connection failed to run a catalog query; carries the collaborator's
    /// own description of the failure.
    ConnectionFailure(String),
    /// A vendor type string outside the known vocabulary; carries that string
    /// verbatim and, where it is known, the name of the column that has it.
    UnknownRawType { raw: String, column: Option<String> },
    /// A referential-action spelling outside the closed vocabulary; carries that
    /// spelling verbatim.
    UnrecognizedForeignKeyAction(String),
    /// A value breaks a rule of the canonical model.
    InvariantViolation(Breach),
}

/// What a broken rule is described as.
pub open spec fn violation_text(rule: Violation) -> Seq<char> {
    match rule {
        Violation::AutoIncrementNotInt => "auto-increment column outside the Int family"@,
        Violation::DuplicateColumn => "duplicate column name"@,
        Violation::UnknownPrimaryKeyColumn => "primary key names an unknown column"@,
        Violation::UnknownIndexColumn => "index names an unknown column"@,
        Violation::ForeignKeyArity => "foreign key column lists differ in length"@,
        Violation::UnknownForeignKeyColumn => "foreign key names an unknown column"@,
        Violation::DuplicateTable => "duplicate table name"@,
        Violation::DuplicateEnum => "duplicate enum name"@,
        Violation::DuplicateEnumValue => "duplicate enum value"@,
        Violation::DuplicateSequence => "duplicate sequence name"@,
    }
}

impl Violation {
    /// A description of the broken rule.
    pub fn describe(&self) -> (text: &'static str)
        ensures
            text@ == violation_text(*self),
    {
        match self {
            Violation::AutoIncrementNotInt => "auto-increment column outside the Int family",
            Violation::DuplicateColumn => "duplicate column name",
            Violation::UnknownPrimaryKeyColumn => "primary key names an unknown column",
            Violation::UnknownIndexColumn => "index names an unknown column",
            Violation::ForeignKeyArity => "foreign key column lists differ in length",
            Violation::UnknownForeignKeyColumn => "foreign key names an unknown column",
            Violation::DuplicateTable => "duplicate table name",
            Violation::DuplicateEnum => "duplicate enum name",
            Violation::DuplicateEnumValue => "duplicate enum value",
            Violation::DuplicateSequence => "duplicate sequence name",
        }
    }
}

impl IntrospectionError {
    /// What the error reads as: its kind, then the offending raw string,
    /// spelling, failure or rule, with the names that place it.
    pub open spec fn message_text(&self) -> Seq<char> {
        match self {
            IntrospectionError::UnknownError => "unknown"@,
            IntrospectionError::ConnectionFailure(cause) => "connection failure: "@ + cause@,
            IntrospectionError::UnknownRawType { raw, column } => "unknown raw type: "@ + raw@ + (
            match column {
                Some(column) => " of column "@ + column@,
                None => Seq::<char>::empty(),
            }),
            IntrospectionError::UnrecognizedForeignKeyAction(spelling) =>
                "unrecognized foreign key action: "@ + spelling@,
            IntrospectionError::InvariantViolation(breach) => "invariant violation: "@
                + violation_text(breach.rule) + ": "@ + breach.name@ + (match breach.within {
                Some(holder) => " in "@ + holder@,
                None => Seq::<char>::empty(),
            }),
        }
    }

    /// The error as a line of text for a diagnostic.
    pub fn message(&self) -> (text: String)
        ensures
            text@ == self.message_text(),
    {
        match self {
            IntrospectionError::UnknownError => String::from_str("unknown"),
            IntrospectionError::ConnectionFailure(cause) => String::from_str(
                "connection failure: ",
            ).concat(cause.as_str()),
            IntrospectionError::UnknownRawType { raw, column } => {
                let text = String::from_str("unknown raw type: ").concat(raw.as_str());
                match column {
                    Some(column) => text.concat(" of column ").concat(column.as_str()),
                    None => {
                        assert(text@ + Seq::<char>::empty() =~= text@);
                        text
                    },
                }
            },
            IntrospectionError::UnrecognizedForeignKeyAction(spelling) => String::from_str(
                "unrecognized foreign key action: ",
            ).concat(spelling.as_str()),
            IntrospectionError::InvariantViolation(breach) => {
                let text = String::from_str("invariant violation: ").concat(
                    breach.rule.describe(),
                ).concat(": ").concat(breach.name.as_str());
                match &breach.within {
                    Some(holder) => text.concat(" in ").concat(holder.as_str()),
                    None => {
                        assert(text@ + Seq::<char>::empty() =~= text@);
                        text
                    },
                }
            },
        }
    }
}

/// The outcome of an introspection step.
pub type IntrospectionResult<T> = Result<T, IntrospectionError>;

} // verus!
