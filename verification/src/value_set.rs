//! The values of a SQL enum, held as a set.

use vstd::prelude::*;
use vstd::string::*;
use crate::error::{BreachView, IntrospectionError, Violation};
use crate::first::{first_false, first_false_is_unique};
use crate::model::Enum;
use crate::names::{
    distinct_iff_all_fresh, first_occurrences, first_occurrences_keep_each_once,
    first_repeated_text, fresh_flags, lists_text, texts, texts_of_push,
};
use crate::rules::{judged, rejection};

verus! {

/// What a SQL enum is: a name and a set of values.
pub struct EnumView {
    pub name: Seq<char>,
    pub values: Set<Seq<char>>,
}

impl View for Enum {
    type V = EnumView;

    open spec fn view(&self) -> EnumView {
        EnumView { name: self.name@, values: texts(self.values@).to_set() }
    }
}

impl Enum {
    /// Each value is listed once.
    pub open spec fn well_formed(&self) -> bool {
        texts(self.values@).no_duplicates()
    }

    /// The rule that this enum breaks, if any, with the first value that
    /// repeats an earlier one.
    pub open spec fn violation(&self) -> Option<BreachView> {
        if self.well_formed() {
            None
        } else {
            Some(
                BreachView {
                    rule: Violation::DuplicateEnumValue,
                    within: Some(self.name@),
                    name: texts(self.values@)[first_false(fresh_flags(texts(self.values@)))],
                },
            )
        }
    }

    /// Checks the enum against its rule.
    pub fn check(&self) -> (checked: Result<(), IntrospectionError>)
        ensures
            judged(checked, self.violation(), ()),
            checked is Ok <==> self.well_formed(),
    {
        match first_repeated_text(&self.values) {
            Some(j) => {
                proof {
                    first_false_is_unique(fresh_flags(texts(self.values@)), j as int);
                    distinct_iff_all_fresh(texts(self.values@));
                    assert(texts(self.values@)[j as int] == self.values@[j as int]@);
                }
                Err(
                    rejection(
                        Violation::DuplicateEnumValue,
                        Some(self.name.as_str()),
                        self.values[j].as_str(),
                    ),
                )
            },
            None => Ok(()),
        }
    }

    /// An enum of the given values; a value given several times is kept once,
    /// where it came first.
    pub fn new(name: String, values: Vec<String>) -> (made: Enum)
        ensures
            made.name == name,
            texts(made.values@) == first_occurrences(texts(values@)),
            made.well_formed(),
            made@.values == texts(values@).to_set(),
    {
        let mut made = Enum { name, values: Vec::new() };
        let mut i: usize = 0;
        assert(texts(values@.take(0)) =~= Seq::<Seq<char>>::empty());
        assert(texts(made.values@) =~= Seq::<Seq<char>>::empty());
        while i < values.len()
            invariant
                i <= values@.len(),
                made.name == name,
                texts(made.values@) == first_occurrences(texts(values@.take(i as int))),
            decreases values.len() - i,
        {
            let value = values[i].clone();
            proof {
                let longer = texts(values@.take(i + 1));
                assert(longer.drop_last() =~= texts(values@.take(i as int)));
                assert(longer.last() == value@);
            }
            made.insert(value);
            i += 1;
        }
        proof {
            assert(values@.take(values@.len() as int) =~= values@);
            first_occurrences_keep_each_once(texts(values@));
        }
        made
    }

    /// Whether `value` is one of the enum's values.
    pub fn contains(&self, value: &str) -> (present: bool)
        ensures
            present == self@.values.contains(value@),
    {
        lists_text(&self.values, value)
    }

    /// Adds a value to the set. Returns whether the value was new; a value that
    /// the enum already has leaves it unchanged.
    pub fn insert(&mut self, value: String) -> (added: bool)
        ensures
            added == !old(self)@.values.contains(value@),
            final(self).name == old(self).name,
            final(self).values@ == (if added {
                old(self).values@.push(value)
            } else {
                old(self).values@
            }),
            final(self)@.values == old(self)@.values.insert(value@),
            old(self).well_formed() ==> final(self).well_formed(),
    {
        if lists_text(&self.values, value.as_str()) {
            assert(self@.values.insert(value@) =~= self@.values);
            false
        } else {
            proof {
                texts_of_push(self.values@, value);
                texts(self.values@).lemma_push_to_set_commute(value@);
            }
            self.values.push(value);
            true
        }
    }
}

} // verus!
