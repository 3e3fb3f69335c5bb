//! The type normalizer: from a vendor's raw type string to a family and an
//! arity of the closed vocabulary.

use vstd::prelude::*;
use vstd::string::*;
use crate::error::{BreachView, IntrospectionError, Violation};
use crate::model::{Column, ColumnArity, ColumnType, ColumnTypeFamily};
use crate::text::{chars_of, copy_of, same_chars};

verus! {

/// Blank characters: space, tab, line feed, carriage return.
pub open spec fn is_blank(c: char) -> bool {
    c == ' ' || c == '\t' || c == '\n' || c == '\r'
}

/// The lower-case form of an ASCII capital; any other character is itself.
pub open spec fn lower(c: char) -> char {
    if 'A' <= c && c <= 'Z' {
        ((c as u8 + 32) as u8) as char
    } else {
        c
    }
}

/// A text with each ASCII capital in lower case.
pub open spec fn lowered(text: Seq<char>) -> Seq<char> {
    text.map_values(|c: char| lower(c))
}

/// The first position from `from` on, below `to`, that holds no blank; `to` if
/// there is none.
pub open spec fn skip_blanks(text: Seq<char>, from: int, to: int) -> int
    decreases to - from,
{
    if from < to && is_blank(text[from]) {
        skip_blanks(text, from + 1, to)
    } else {
        from
    }
}

/// The end of `text[from..to]` once its trailing blanks are left out.
pub open spec fn drop_blanks(text: Seq<char>, from: int, to: int) -> int
    decreases to - from,
{
    if from < to && is_blank(text[to - 1]) {
        drop_blanks(text, from, to - 1)
    } else {
        to
    }
}

/// The first position from `from` on, below `to`, that holds `c`; `to` if there
/// is none.
pub open spec fn find_char(text: Seq<char>, c: char, from: int, to: int) -> int
    decreases to - from,
{
    if from < to && text[from] != c {
        find_char(text, c, from + 1, to)
    } else {
        from
    }
}

/// Where the trimmed text starts.
pub open spec fn trim_start(text: Seq<char>) -> int {
    skip_blanks(text, 0, text.len() as int)
}

/// Where the trimmed text ends.
pub open spec fn trim_end(text: Seq<char>) -> int {
    drop_blanks(text, trim_start(text), text.len() as int)
}

/// A text without its leading and trailing blanks.
pub open spec fn trimmed(text: Seq<char>) -> Seq<char> {
    text.subrange(trim_start(text), trim_end(text))
}

/// The normal form under which a vendor's word is looked up: lower-cased and
/// trimmed.
pub open spec fn normal_form(text: Seq<char>) -> Seq<char> {
    lowered(text).subrange(trim_start(text), trim_end(text))
}

/// Whether the trimmed text ends in `[]`, the spelling of an array type.
pub open spec fn spells_list(raw: Seq<char>) -> bool {
    let start = trim_start(raw);
    let end = trim_end(raw);
    end - start >= 2 && raw[end - 2] == '[' && raw[end - 1] == ']'
}

/// Where the base keyword of a raw type ends: before the array suffix, if
/// there is one, before the parameter list, if there is one, and before the
/// blanks that precede either.
pub open spec fn keyword_end(raw: Seq<char>) -> int {
    let start = trim_start(raw);
    let end = if spells_list(raw) {
        trim_end(raw) - 2
    } else {
        trim_end(raw)
    };
    drop_blanks(raw, start, find_char(raw, '(', start, end))
}

/// The base keyword of a raw type: lower-cased, trimmed, without the array
/// suffix and without the parameter list.
pub open spec fn base_keyword(raw: Seq<char>) -> Seq<char> {
    lowered(raw).subrange(trim_start(raw), keyword_end(raw))
}

/// The arity of a column, from what the catalog says of it. A list stays a
/// list whether or not it may be null.
pub open spec fn arity_of(nullable: bool, list: bool) -> ColumnArity {
    if list {
        ColumnArity::List
    } else if nullable {
        ColumnArity::Nullable
    } else {
        ColumnArity::Required
    }
}

fn blank(c: char) -> (b: bool)
    ensures
        b == is_blank(c),
{
    c == ' ' || c == '\t' || c == '\n' || c == '\r'
}

fn lower_char(c: char) -> (low: char)
    ensures
        low == lower(c),
{
    if 'A' <= c && c <= 'Z' {
        ((c as u8 + 32) as u8) as char
    } else {
        c
    }
}

fn skip_blanks_in(text: &Vec<char>, from: usize, to: usize) -> (at: usize)
    requires
        from <= to <= text@.len(),
    ensures
        at == skip_blanks(text@, from as int, to as int),
        from <= at <= to,
{
    let mut at = from;
    while at < to && blank(text[at])
        invariant
            from <= at <= to <= text@.len(),
            skip_blanks(text@, from as int, to as int) == skip_blanks(text@, at as int, to as int),
        decreases to - at,
    {
        at += 1;
    }
    at
}

fn drop_blanks_in(text: &Vec<char>, from: usize, to: usize) -> (at: usize)
    requires
        from <= to <= text@.len(),
    ensures
        at == drop_blanks(text@, from as int, to as int),
        from <= at <= to,
{
    let mut at = to;
    while from < at && blank(text[at - 1])
        invariant
            from <= at <= to <= text@.len(),
            drop_blanks(text@, from as int, to as int) == drop_blanks(text@, from as int, at as int),
        decreases at - from,
    {
        at -= 1;
    }
    at
}

fn find_char_in(text: &Vec<char>, c: char, from: usize, to: usize) -> (at: usize)
    requires
        from <= to <= text@.len(),
    ensures
        at == find_char(text@, c, from as int, to as int),
        from <= at <= to,
{
    let mut at = from;
    while at < to && text[at] != c
        invariant
            from <= at <= to <= text@.len(),
            find_char(text@, c, from as int, to as int) == find_char(text@, c, at as int, to as int),
        decreases to - at,
    {
        at += 1;
    }
    at
}

fn lowered_part(text: &Vec<char>, from: usize, to: usize) -> (part: Vec<char>)
    requires
        from <= to <= text@.len(),
    ensures
        part@ == lowered(text@).subrange(from as int, to as int),
{
    let mut part: Vec<char> = Vec::new();
    let mut i: usize = from;
    while i < to
        invariant
            from <= i <= to <= text@.len(),
            part@ == lowered(text@).subrange(from as int, i as int),
        decreases to - i,
    {
        part.push(lower_char(text[i]));
        assert(part@ =~= lowered(text@).subrange(from as int, i + 1));
        i += 1;
    }
    part
}

/// The normal form of a vendor's word.
pub fn normal_form_of(word: &str) -> (form: Vec<char>)
    ensures
        form@ == normal_form(word@),
{
    let text = chars_of(word);
    let start = skip_blanks_in(&text, 0, text.len());
    let end = drop_blanks_in(&text, start, text.len());
    lowered_part(&text, start, end)
}

/// The base keyword of a raw type, and whether the raw type spells a list.
pub fn keyword_of(raw: &str) -> (out: (Vec<char>, bool))
    ensures
        out.0@ == base_keyword(raw@),
        out.1 == spells_list(raw@),
{
    let text = chars_of(raw);
    let start = skip_blanks_in(&text, 0, text.len());
    let end = drop_blanks_in(&text, start, text.len());
    let list = end - start >= 2 && text[end - 2] == '[' && text[end - 1] == ']';
    let inner = if list {
        end - 2
    } else {
        end
    };
    let stop = find_char_in(&text, '(', start, inner);
    let last = drop_blanks_in(&text, start, stop);
    (lowered_part(&text, start, last), list)
}

/// The arity of a column, from what the catalog says of it.
pub fn arity_from(nullable: bool, list: bool) -> (arity: ColumnArity)
    ensures
        arity == arity_of(nullable, list),
{
    if list {
        ColumnArity::List
    } else if nullable {
        ColumnArity::Nullable
    } else {
        ColumnArity::Required
    }
}

/// One known vendor type: its base keyword and the family it belongs to.
struct KnownType {
    keyword: Vec<char>,
    family: ColumnTypeFamily,
}

/// A type normalizer for one engine: the table of the vendor type names that
/// the engine knows, each with its family.
///
/// Seen from outside it is a map from base keywords to families.
pub struct TypeNormalizer {
    known: Vec<KnownType>,
}

impl View for TypeNormalizer {
    type V = Map<Seq<char>, ColumnTypeFamily>;

    closed spec fn view(&self) -> Map<Seq<char>, ColumnTypeFamily> {
        Map::new(
            |keyword: Seq<char>| self.position(keyword) is Some,
            |keyword: Seq<char>| self.known@[self.position(keyword)->0].family,
        )
    }
}

impl TypeNormalizer {
    #[verifier::type_invariant]
    spec fn keywords_distinct(&self) -> bool {
        forall|i: int, j: int|
            0 <= i < j < self.known@.len() ==> (#[trigger] self.known@[i]).keyword@ != (
            #[trigger] self.known@[j]).keyword@
    }

    spec fn position(&self, keyword: Seq<char>) -> Option<int> {
        if exists|i: int| 0 <= i < self.known@.len() && (#[trigger] self.known@[i]).keyword@ == keyword {
            Some(
                choose|i: int|
                    0 <= i < self.known@.len() && (#[trigger] self.known@[i]).keyword@ == keyword,
            )
        } else {
            None
        }
    }

    /// The family that the table gives to a base keyword, if it knows it.
    pub open spec fn family_of(&self, keyword: Seq<char>) -> Option<ColumnTypeFamily> {
        if self@.dom().contains(keyword) {
            Some(self@[keyword])
        } else {
            None
        }
    }

    /// What normalizing `raw` yields: the raw string kept verbatim with the
    /// family of its base keyword, and the arity that the catalog's flags and
    /// the spelling give; for a base keyword that the table does not know, the
    /// raw string alone.
    pub open spec fn normalizes_to(
        &self,
        raw: Seq<char>,
        nullable: bool,
        list: bool,
        out: Result<(ColumnType, ColumnArity), IntrospectionError>,
    ) -> bool {
        match out {
            Ok((tpe, arity)) => {
                &&& tpe.raw@ == raw
                &&& self.family_of(base_keyword(raw)) == Some(tpe.family)
                &&& arity == arity_of(nullable, list || spells_list(raw))
            },
            Err(error) => {
                &&& self.family_of(base_keyword(raw)) is None
                &&& error matches IntrospectionError::UnknownRawType { raw: text, column }
                &&& text@ == raw
                &&& column is None
            },
        }
    }

    fn find(&self, keyword: &Vec<char>) -> (at: Option<usize>)
        ensures
            at matches Some(i) ==> i < self.known@.len() && self.known@[i as int].keyword@
                == keyword@ && self.position(keyword@) == Some(i as int),
            at is None ==> self.position(keyword@) is None,
    {
        proof {
            use_type_invariant(self);
        }
        let mut i: usize = 0;
        while i < self.known.len()
            invariant
                i <= self.known@.len(),
                self.keywords_distinct(),
                forall|k: int| 0 <= k < i ==> (#[trigger] self.known@[k]).keyword@ != keyword@,
            decreases self.known.len() - i,
        {
            if same_chars(&self.known[i].keyword, keyword) {
                proof {
                    let first = self.position(keyword@)->0;
                    assert(self.known@[first].keyword@ == self.known@[i as int].keyword@);
                    assert(first == i);
                }
                return Some(i);
            }
            i += 1;
        }
        None
    }

    /// A normalizer that knows no type yet.
    pub fn new() -> (made: TypeNormalizer)
        ensures
            made@ == Map::<Seq<char>, ColumnTypeFamily>::empty(),
    {
        let made = TypeNormalizer { known: Vec::new() };
        assert(made@ =~= Map::<Seq<char>, ColumnTypeFamily>::empty());
        made
    }

    /// Teaches the normalizer a vendor type name. The name is filed under its
    /// base keyword; a family learnt earlier for that keyword is replaced.
    pub fn learn(self, name: &str, family: ColumnTypeFamily) -> (made: TypeNormalizer)
        ensures
            made@ == self@.insert(base_keyword(name@), family),
    {
        proof {
            use_type_invariant(&self);
        }
        let (keyword, _) = keyword_of(name);
        let at = self.find(&keyword);
        let ghost before = self;
        let mut known = self.known;
        match at {
            Some(i) => {
                known.set(i, KnownType { keyword, family });
            },
            None => {
                known.push(KnownType { keyword, family });
            },
        }
        let made = TypeNormalizer { known };
        proof {
            let key = base_keyword(name@);
            assert forall|k: Seq<char>| made.position(k) is Some <==> (k == key || before.position(
                k,
            ) is Some) by {
                if before.position(k) is Some {
                    let p = before.position(k)->0;
                    assert(made.known@[p].keyword@ == k);
                }
                if k == key {
                    if at is Some {
                        assert(made.known@[at->0 as int].keyword@ == k);
                    } else {
                        assert(made.known@[before.known@.len() as int].keyword@ == k);
                    }
                }
                if made.position(k) is Some {
                    let p = made.position(k)->0;
                    if k != key {
                        assert(before.known@[p].keyword@ == k);
                    }
                }
            }
            assert forall|k: Seq<char>| made.position(k) is Some implies made.known@[made.position(
                k,
            )->0].family == (if k == key {
                family
            } else {
                before.known@[before.position(k)->0].family
            }) by {
                let p = made.position(k)->0;
                if k != key {
                    assert(before.known@[p].keyword@ == k);
                    assert(before.position(k) is Some);
                    assert(before.position(k)->0 == p);
                }
            }
            assert(made@ =~= before@.insert(key, family));
        }
        made
    }

    /// The family of a raw type, by its base keyword; an unknown raw type is
    /// an error that names it, never a default family.
    pub fn classify(&self, raw: &str) -> (out: Result<ColumnTypeFamily, IntrospectionError>)
        ensures
            match out {
                Ok(family) => self.family_of(base_keyword(raw@)) == Some(family),
                Err(error) => {
                    &&& self.family_of(base_keyword(raw@)) is None
                    &&& error matches IntrospectionError::UnknownRawType { raw: text, column }
                    &&& text@ == raw@
                    &&& column is None
                },
            },
    {
        let (keyword, _) = keyword_of(raw);
        match self.find(&keyword) {
            Some(i) => Ok(self.known[i].family),
            None => Err(IntrospectionError::UnknownRawType { raw: copy_of(raw), column: None }),
        }
    }

    /// What assembling a column from a catalog row yields: the column with its
    /// normalized type and arity; for a raw type that the table does not know,
    /// that raw type and the column that has it; for an auto-increment column
    /// of another family than `Int`, the rule that it breaks.
    pub open spec fn assembles(
        &self,
        name: String,
        raw: Seq<char>,
        nullable: bool,
        list: bool,
        default: Option<String>,
        auto_increment: bool,
        out: Result<Column, IntrospectionError>,
    ) -> bool {
        match self.family_of(base_keyword(raw)) {
            None => {
                &&& out matches Err(IntrospectionError::UnknownRawType { raw: text, column })
                &&& text@ == raw
                &&& column matches Some(of)
                &&& of@ == name@
            },
            Some(family) => if auto_increment && family != ColumnTypeFamily::Int {
                &&& out matches Err(IntrospectionError::InvariantViolation(breach))
                &&& breach@ == (BreachView {
                    rule: Violation::AutoIncrementNotInt,
                    within: None,
                    name: name@,
                })
            } else {
                &&& out matches Ok(column)
                &&& column.name == name
                &&& column.tpe.raw@ == raw
                &&& column.tpe.family == family
                &&& column.arity == arity_of(nullable, list || spells_list(raw))
                &&& column.default == default
                &&& column.auto_increment == auto_increment
            },
        }
    }

    /// Assembles a column from what a catalog row says of it. All or nothing:
    /// an unknown raw type or a broken rule yields no column.
    pub fn column(
        &self,
        name: String,
        raw: &str,
        nullable: bool,
        list: bool,
        default: Option<String>,
        auto_increment: bool,
    ) -> (out: Result<Column, IntrospectionError>)
        ensures
            self.assembles(name, raw@, nullable, list, default, auto_increment, out),
            out matches Ok(column) ==> column.well_formed(),
    {
        match self.normalize(raw, nullable, list) {
            Ok((tpe, arity)) => Column::new(name, tpe, arity, default, auto_increment),
            Err(_) => Err(
                IntrospectionError::UnknownRawType { raw: copy_of(raw), column: Some(name) },
            ),
        }
    }

    /// Normalizes a raw type: its family comes from the table, by the base
    /// keyword; its arity comes from the catalog's flags, and is a list also
    /// where the raw type itself spells one.
    pub fn normalize(&self, raw: &str, nullable: bool, list: bool) -> (out: Result<
        (ColumnType, ColumnArity),
        IntrospectionError,
    >)
        ensures
            self.normalizes_to(raw@, nullable, list, out),
    {
        let (keyword, spelt) = keyword_of(raw);
        match self.find(&keyword) {
            Some(i) => Ok(
                (
                    ColumnType { raw: copy_of(raw), family: self.known[i].family },
                    arity_from(nullable, list || spelt),
                ),
            ),
            None => Err(IntrospectionError::UnknownRawType { raw: copy_of(raw), column: None }),
        }
    }
}

} // verus!
