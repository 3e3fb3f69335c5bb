//! Finding entities by name, and the name rules that several entities share.

use vstd::prelude::*;
use vstd::string::*;
use crate::first::{all_true, is_first_false};
use crate::text::same_text;
use crate::view::views;

verus! {

/// An entity that is found again by its name.
pub trait Named {
    /// The name, as the sequence of its characters.
    spec fn name_text(&self) -> Seq<char>;

    /// The name.
    fn name_str(&self) -> (name: &str)
        ensures
            name@ == self.name_text(),
    ;
}

/// The characters of each string of a list.
pub open spec fn texts(list: Seq<String>) -> Seq<Seq<char>> {
    views(list)
}

/// The names of the entities of a list, in the order of the list.
pub open spec fn names_of<T: Named>(items: Seq<T>) -> Seq<Seq<char>> {
    items.map_values(|item: T| item.name_text())
}

/// Position `i` holds an entity called `name`, and no earlier position does.
pub open spec fn is_first_named<T: Named>(items: Seq<T>, name: Seq<char>, i: int) -> bool {
    &&& 0 <= i < items.len()
    &&& items[i].name_text() == name
    &&& forall|j: int| 0 <= j < i ==> (#[trigger] items[j]).name_text() != name
}

/// Every string of `wanted` occurs in `known`.
pub open spec fn all_known(known: Seq<Seq<char>>, wanted: Seq<Seq<char>>) -> bool {
    forall|i: int| 0 <= i < wanted.len() ==> known.contains(#[trigger] wanted[i])
}

/// For each string of `wanted`, whether it occurs in `known`.
pub open spec fn known_flags(known: Seq<Seq<char>>, wanted: Seq<Seq<char>>) -> Seq<bool> {
    Seq::new(wanted.len(), |k: int| known.contains(wanted[k]))
}

/// For each position of a list, whether the string there occurs at no earlier
/// position.
pub open spec fn fresh_flags(names: Seq<Seq<char>>) -> Seq<bool> {
    Seq::new(names.len(), |j: int| !names.take(j).contains(names[j]))
}

/// A list holds no string twice exactly when each string is new where it
/// stands.
pub proof fn distinct_iff_all_fresh(names: Seq<Seq<char>>)
    ensures
        names.no_duplicates() <==> all_true(fresh_flags(names)),
{
    let flags = fresh_flags(names);
    if names.no_duplicates() {
        assert forall|j: int| 0 <= j < flags.len() implies #[trigger] flags[j] by {
            if names.take(j).contains(names[j]) {
                let i = choose|i: int| 0 <= i < names.take(j).len() && names.take(j)[i] == names[j];
                assert(names[i] == names[j]);
            }
        }
    }
    if all_true(flags) {
        assert forall|a: int, b: int|
            0 <= a < names.len() && 0 <= b < names.len() && a != b implies names[a] != names[b] by {
            let (low, high) = if a < b {
                (a, b)
            } else {
                (b, a)
            };
            assert(flags[high]);
            if names[low] == names[high] {
                assert(names.take(high)[low] == names[high]);
            }
        }
    }
}

/// A string stands for itself: in a list of strings it is found by its own
/// text.
impl Named for String {
    open spec fn name_text(&self) -> Seq<char> {
        self@
    }

    fn name_str(&self) -> (name: &str) {
        self.as_str()
    }
}

/// The names of a list of strings are its texts.
pub proof fn strings_name_themselves(list: Seq<String>)
    ensures
        names_of(list) == texts(list),
{
    assert(names_of(list) =~= texts(list));
}

/// The strings of a list with every later repeat left out.
pub open spec fn first_occurrences(list: Seq<Seq<char>>) -> Seq<Seq<char>>
    decreases list.len(),
{
    if list.len() == 0 {
        list
    } else {
        let front = first_occurrences(list.drop_last());
        if front.contains(list.last()) {
            front
        } else {
            front.push(list.last())
        }
    }
}

/// Leaving out repeats keeps exactly the strings that occur, each once.
pub proof fn first_occurrences_keep_each_once(list: Seq<Seq<char>>)
    ensures
        first_occurrences(list).no_duplicates(),
        forall|text: Seq<char>| first_occurrences(list).contains(text) <==> list.contains(text),
        first_occurrences(list).to_set() == list.to_set(),
        list.no_duplicates() ==> first_occurrences(list) == list,
    decreases list.len(),
{
    if list.len() > 0 {
        let shorter = list.drop_last();
        let front = first_occurrences(shorter);
        let kept = first_occurrences(list);
        first_occurrences_keep_each_once(shorter);
        assert forall|text: Seq<char>| kept.contains(text) <==> list.contains(text) by {
            if list.contains(text) {
                let i = choose|i: int| 0 <= i < list.len() && list[i] == text;
                if i < list.len() - 1 {
                    assert(shorter[i] == text);
                    assert(shorter.contains(text));
                    assert(front.contains(text));
                    let k = choose|k: int| 0 <= k < front.len() && front[k] == text;
                    assert(kept[k] == text);
                } else {
                    if front.contains(text) {
                    } else {
                        assert(kept[front.len() as int] == text);
                    }
                }
            }
            if kept.contains(text) {
                let k = choose|k: int| 0 <= k < kept.len() && kept[k] == text;
                if k < front.len() {
                    assert(front[k] == text);
                    assert(front.contains(text));
                    assert(shorter.contains(text));
                    let i = choose|i: int| 0 <= i < shorter.len() && shorter[i] == text;
                    assert(list[i] == text);
                } else {
                    assert(list[list.len() - 1] == text);
                }
            }
        }
        if list.no_duplicates() {
            assert(shorter.no_duplicates());
            assert(!shorter.contains(list.last())) by {
                if shorter.contains(list.last()) {
                    let i = choose|i: int| 0 <= i < shorter.len() && shorter[i] == list.last();
                    assert(list[i] == list[list.len() - 1]);
                }
            }
            assert(kept =~= list);
        }
    }
    assert(first_occurrences(list).to_set() =~= list.to_set());
}

/// The characters of a list that grew by one string.
pub proof fn texts_of_push(list: Seq<String>, last: String)
    ensures
        texts(list.push(last)) == texts(list).push(last@),
{
    assert(texts(list.push(last)) =~= texts(list).push(last@));
}

/// The first entity called `name`, by a linear scan and exact comparison.
pub fn find_named<'a, T: Named>(items: &'a Vec<T>, name: &str) -> (found: Option<&'a T>)
    ensures
        match found {
            Some(item) => exists|i: int| is_first_named(items@, name@, i) && *item == items@[i],
            None => !names_of(items@).contains(name@),
        },
{
    let mut i: usize = 0;
    while i < items.len()
        invariant
            i <= items@.len(),
            forall|j: int| 0 <= j < i ==> (#[trigger] items@[j]).name_text() != name@,
        decreases items.len() - i,
    {
        if same_text(items[i].name_str(), name) {
            assert(is_first_named(items@, name@, i as int));
            return Some(&items[i]);
        }
        i += 1;
    }
    None
}

/// Whether some entity of the list is called `name`.
pub fn has_named<T: Named>(items: &Vec<T>, name: &str) -> (present: bool)
    ensures
        present == names_of(items@).contains(name@),
{
    let found = find_named(items, name);
    proof {
        if let Some(item) = found {
            let i = choose|i: int| is_first_named(items@, name@, i) && *item == items@[i];
            assert(names_of(items@)[i] == name@);
        }
    }
    found.is_some()
}

/// The first position whose name repeats that of an earlier position, if
/// there is one.
pub fn first_repeat<T: Named>(items: &Vec<T>) -> (at: Option<usize>)
    ensures
        match at {
            Some(j) => is_first_false(fresh_flags(names_of(items@)), j as int),
            None => names_of(items@).no_duplicates(),
        },
{
    let ghost names = names_of(items@);
    let mut j: usize = 0;
    while j < items.len()
        invariant
            j <= items@.len(),
            names == names_of(items@),
            forall|k: int| 0 <= k < j ==> #[trigger] fresh_flags(names)[k],
        decreases items.len() - j,
    {
        let mut i: usize = 0;
        while i < j
            invariant
                i <= j < items@.len(),
                names == names_of(items@),
                forall|k: int| 0 <= k < j ==> #[trigger] fresh_flags(names)[k],
                forall|a: int| 0 <= a < i ==> #[trigger] names[a] != names[j as int],
            decreases j - i,
        {
            if same_text(items[i].name_str(), items[j].name_str()) {
                assert(names.take(j as int)[i as int] == names[j as int]);
                return Some(j);
            }
            i += 1;
        }
        proof {
            if names.take(j as int).contains(names[j as int]) {
                let a = choose|a: int|
                    0 <= a < names.take(j as int).len() && names.take(j as int)[a] == names[j as int];
                assert(names[a] == names[j as int]);
            }
        }
        j += 1;
    }
    proof {
        distinct_iff_all_fresh(names);
    }
    None
}

/// The first position of `wanted` whose string names no entity of `items`, if
/// there is one.
pub fn first_unknown<T: Named>(items: &Vec<T>, wanted: &Vec<String>) -> (at: Option<usize>)
    ensures
        match at {
            Some(k) => is_first_false(known_flags(names_of(items@), texts(wanted@)), k as int),
            None => all_known(names_of(items@), texts(wanted@)),
        },
{
    let mut i: usize = 0;
    while i < wanted.len()
        invariant
            i <= wanted@.len(),
            forall|k: int|
                0 <= k < i ==> names_of(items@).contains(#[trigger] texts(wanted@)[k]),
        decreases wanted.len() - i,
    {
        assert(texts(wanted@)[i as int] == wanted@[i as int]@);
        if !has_named(items, wanted[i].as_str()) {
            return Some(i);
        }
        i += 1;
    }
    None
}

/// Whether every string of `wanted` is the name of some entity of `items`.
pub fn names_all<T: Named>(items: &Vec<T>, wanted: &Vec<String>) -> (known: bool)
    ensures
        known == all_known(names_of(items@), texts(wanted@)),
{
    let at = first_unknown(items, wanted);
    proof {
        if let Some(k) = at {
            assert(!known_flags(names_of(items@), texts(wanted@))[k as int]);
        }
    }
    at.is_none()
}

/// Whether the list holds `text`.
pub fn lists_text(list: &Vec<String>, text: &str) -> (present: bool)
    ensures
        present == texts(list@).contains(text@),
{
    proof {
        strings_name_themselves(list@);
    }
    has_named(list, text)
}

/// Whether every string of `wanted` occurs in `list`.
pub fn lists_all(list: &Vec<String>, wanted: &Vec<String>) -> (known: bool)
    ensures
        known == all_known(texts(list@), texts(wanted@)),
{
    proof {
        strings_name_themselves(list@);
    }
    names_all(list, wanted)
}

/// The first position whose string repeats that of an earlier position, if
/// there is one.
pub fn first_repeated_text(list: &Vec<String>) -> (at: Option<usize>)
    ensures
        match at {
            Some(j) => is_first_false(fresh_flags(texts(list@)), j as int),
            None => texts(list@).no_duplicates(),
        },
{
    proof {
        strings_name_themselves(list@);
    }
    first_repeat(list)
}

} // verus!
