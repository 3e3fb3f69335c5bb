//! From a catalog's spelling of a referential action to the closed vocabulary.

use vstd::prelude::*;
use vstd::string::*;
use crate::error::IntrospectionError;
use crate::model::ForeignKeyAction;
use crate::normalize::{normal_form, normal_form_of};
use crate::text::{chars_of, copy_of, same_chars};

verus! {

/// The action that a spelling in normal form stands for: the ANSI SQL
/// referential actions, and nothing else.
pub open spec fn action_spelt(form: Seq<char>) -> Option<ForeignKeyAction> {
    if form == "no action"@ {
        Some(ForeignKeyAction::NoAction)
    } else if form == "restrict"@ {
        Some(ForeignKeyAction::Restrict)
    } else if form == "cascade"@ {
        Some(ForeignKeyAction::Cascade)
    } else if form == "set null"@ {
        Some(ForeignKeyAction::SetNull)
    } else if form == "set default"@ {
        Some(ForeignKeyAction::SetDefault)
    } else {
        None
    }
}

fn spells(form: &Vec<char>, word: &str) -> (same: bool)
    ensures
        same == (form@ == word@),
{
    let letters = chars_of(word);
    same_chars(form, &letters)
}

impl ForeignKeyAction {
    /// The action that a catalog's spelling stands for, whatever its case and
    /// the blanks around it. An unrecognized spelling is an error that carries
    /// it verbatim.
    pub fn from_sql(spelling: &str) -> (out: Result<ForeignKeyAction, IntrospectionError>)
        ensures
            match out {
                Ok(action) => action_spelt(normal_form(spelling@)) == Some(action),
                Err(error) => {
                    &&& action_spelt(normal_form(spelling@)) is None
                    &&& error matches IntrospectionError::UnrecognizedForeignKeyAction(text)
                    &&& text@ == spelling@
                },
            },
    {
        let form = normal_form_of(spelling);
        if spells(&form, "no action") {
            Ok(ForeignKeyAction::NoAction)
        } else if spells(&form, "restrict") {
            Ok(ForeignKeyAction::Restrict)
        } else if spells(&form, "cascade") {
            Ok(ForeignKeyAction::Cascade)
        } else if spells(&form, "set null") {
            Ok(ForeignKeyAction::SetNull)
        } else if spells(&form, "set default") {
            Ok(ForeignKeyAction::SetDefault)
        } else {
            Err(IntrospectionError::UnrecognizedForeignKeyAction(copy_of(spelling)))
        }
    }
}

} // verus!
