//! What holds of the base keyword of a raw type: which parts of the spelling
//! decide the family, and which play no part.

use vstd::prelude::*;
use crate::normalize::{
    base_keyword, drop_blanks, find_char, is_blank, keyword_end, lower, lowered, normal_form,
    skip_blanks, spells_list, trim_end, trim_start,
};

verus! {

/// Lowering a character never makes or unmakes a blank, a parenthesis or a
/// bracket, and lowering twice is lowering once.
pub proof fn lowering_keeps_marks(c: char)
    ensures
        is_blank(lower(c)) == is_blank(c),
        (lower(c) == '(') == (c == '('),
        (lower(c) == '[') == (c == '['),
        (lower(c) == ']') == (c == ']'),
        lower(lower(c)) == lower(c),
{
}

/// Skipping blanks stops at the first character that is no blank.
pub proof fn skip_blanks_stops_at_first_mark(text: Seq<char>, from: int, to: int)
    requires
        0 <= from <= to <= text.len(),
    ensures
        from <= skip_blanks(text, from, to) <= to,
        forall|k: int| from <= k < skip_blanks(text, from, to) ==> is_blank(#[trigger] text[k]),
        skip_blanks(text, from, to) < to ==> !is_blank(text[skip_blanks(text, from, to)]),
    decreases to - from,
{
    if from < to && is_blank(text[from]) {
        skip_blanks_stops_at_first_mark(text, from + 1, to);
    }
}

/// The position after a run of blanks that ends at a mark, or at `to`, is where
/// skipping blanks stops.
pub proof fn first_mark_is_where_skip_blanks_stops(text: Seq<char>, from: int, to: int, at: int)
    requires
        0 <= from <= at <= to <= text.len(),
        forall|k: int| from <= k < at ==> is_blank(#[trigger] text[k]),
        at < to ==> !is_blank(text[at]),
    ensures
        skip_blanks(text, from, to) == at,
    decreases at - from,
{
    if from < at {
        assert(is_blank(text[from]));
        first_mark_is_where_skip_blanks_stops(text, from + 1, to, at);
    }
}

/// Dropping trailing blanks stops behind the last character that is no blank.
pub proof fn drop_blanks_stops_behind_last_mark(text: Seq<char>, from: int, to: int)
    requires
        0 <= from <= to <= text.len(),
    ensures
        from <= drop_blanks(text, from, to) <= to,
        forall|k: int| drop_blanks(text, from, to) <= k < to ==> is_blank(#[trigger] text[k]),
        from < drop_blanks(text, from, to) ==> !is_blank(text[drop_blanks(text, from, to) - 1]),
    decreases to - from,
{
    if from < to && is_blank(text[to - 1]) {
        drop_blanks_stops_behind_last_mark(text, from, to - 1);
    }
}

/// The position before a run of blanks that starts behind a mark, or at
/// `from`, is where dropping trailing blanks stops.
pub proof fn last_mark_is_where_drop_blanks_stops(text: Seq<char>, from: int, to: int, at: int)
    requires
        0 <= from <= at <= to <= text.len(),
        forall|k: int| at <= k < to ==> is_blank(#[trigger] text[k]),
        from < at ==> !is_blank(text[at - 1]),
    ensures
        drop_blanks(text, from, to) == at,
    decreases to - at,
{
    if at < to {
        assert(is_blank(text[to - 1]));
        last_mark_is_where_drop_blanks_stops(text, from, to - 1, at);
    }
}

/// Searching for a character stops at its first occurrence.
pub proof fn find_char_stops_at_first(text: Seq<char>, c: char, from: int, to: int)
    requires
        0 <= from <= to <= text.len(),
    ensures
        from <= find_char(text, c, from, to) <= to,
        forall|k: int| from <= k < find_char(text, c, from, to) ==> #[trigger] text[k] != c,
        find_char(text, c, from, to) < to ==> text[find_char(text, c, from, to)] == c,
    decreases to - from,
{
    if from < to && text[from] != c {
        find_char_stops_at_first(text, c, from + 1, to);
    }
}

/// The first occurrence of a character, or `to` where there is none, is where
/// the search for it stops.
pub proof fn first_is_where_find_char_stops(text: Seq<char>, c: char, from: int, to: int, at: int)
    requires
        0 <= from <= at <= to <= text.len(),
        forall|k: int| from <= k < at ==> #[trigger] text[k] != c,
        at < to ==> text[at] == c,
    ensures
        find_char(text, c, from, to) == at,
    decreases at - from,
{
    if from < at {
        assert(text[from] != c);
        first_is_where_find_char_stops(text, c, from + 1, to, at);
    }
}

/// The base keyword lies inside the trimmed text.
pub proof fn keyword_lies_in_trimmed_text(raw: Seq<char>)
    ensures
        0 <= trim_start(raw) <= keyword_end(raw) <= trim_end(raw) <= raw.len(),
{
    let len = raw.len() as int;
    skip_blanks_stops_at_first_mark(raw, 0, len);
    let start = trim_start(raw);
    drop_blanks_stops_behind_last_mark(raw, start, len);
    let end = if spells_list(raw) {
        trim_end(raw) - 2
    } else {
        trim_end(raw)
    };
    find_char_stops_at_first(raw, '(', start, end);
    drop_blanks_stops_behind_last_mark(raw, start, find_char(raw, '(', start, end));
}

/// Case plays no part: a raw type and its lower-case form have the same base
/// keyword, and spell a list or not alike.
pub proof fn base_keyword_ignores_case(raw: Seq<char>)
    ensures
        base_keyword(lowered(raw)) == base_keyword(raw),
        spells_list(lowered(raw)) == spells_list(raw),
{
    let low = lowered(raw);
    let len = raw.len() as int;
    assert forall|k: int| 0 <= k < len implies is_blank(#[trigger] low[k]) == is_blank(raw[k]) && (
    low[k] == '(') == (raw[k] == '(') && (low[k] == '[') == (raw[k] == '[') && (low[k] == ']') == (
    raw[k] == ']') by {
        lowering_keeps_marks(raw[k]);
    }
    // where the trimmed text starts
    skip_blanks_stops_at_first_mark(raw, 0, len);
    let start = trim_start(raw);
    first_mark_is_where_skip_blanks_stops(low, 0, len, start);
    // where it ends
    drop_blanks_stops_behind_last_mark(raw, start, len);
    let end = trim_end(raw);
    last_mark_is_where_drop_blanks_stops(low, start, len, end);
    assert(spells_list(low) == spells_list(raw));
    // where the keyword ends
    let inner = if spells_list(raw) {
        end - 2
    } else {
        end
    };
    find_char_stops_at_first(raw, '(', start, inner);
    let stop = find_char(raw, '(', start, inner);
    first_is_where_find_char_stops(low, '(', start, inner, stop);
    drop_blanks_stops_behind_last_mark(raw, start, stop);
    let last = drop_blanks(raw, start, stop);
    last_mark_is_where_drop_blanks_stops(low, start, stop, last);
    assert(keyword_end(low) == keyword_end(raw));
    assert forall|k: int| 0 <= k < len implies #[trigger] lowered(low)[k] == low[k] by {
        lowering_keeps_marks(raw[k]);
    }
    assert(lowered(low).subrange(start, last) =~= low.subrange(start, last));
}

/// The parameter list plays no part: a word followed by a parenthesis and
/// anything at all has the base keyword of the word alone, which is the
/// word's normal form.
pub proof fn base_keyword_ignores_parameters(word: Seq<char>, rest: Seq<char>)
    requires
        !word.contains('('),
    ensures
        base_keyword(word + seq!['('] + rest) == normal_form(word),
{
    let raw = word + seq!['('] + rest;
    let n = word.len() as int;
    let len = raw.len() as int;
    assert(raw[n] == '(');
    assert forall|k: int| 0 <= k < n implies #[trigger] raw[k] == word[k] && raw[k] != '(' by {
        assert(word.contains(word[k]));
    }
    // the trimmed text starts where the word's does, or at the parenthesis
    skip_blanks_stops_at_first_mark(word, 0, n);
    let start = trim_start(word);
    first_mark_is_where_skip_blanks_stops(raw, 0, len, start);
    assert(trim_start(raw) == start);
    // it ends behind the parenthesis
    drop_blanks_stops_behind_last_mark(raw, start, len);
    let end = trim_end(raw);
    assert(end > n) by {
        if end <= n {
            assert(is_blank(raw[n]));
        }
    }
    let inner = if spells_list(raw) {
        end - 2
    } else {
        end
    };
    assert(inner > n);
    // so the keyword stops at the parenthesis
    first_is_where_find_char_stops(raw, '(', start, inner, n);
    // and ends where the word's trimmed text ends
    drop_blanks_stops_behind_last_mark(word, start, n);
    let last = trim_end(word);
    last_mark_is_where_drop_blanks_stops(raw, start, n, last);
    assert(keyword_end(raw) == last);
    assert(lowered(raw).subrange(start, last) =~= lowered(word).subrange(start, last));
}

/// A word without a parameter list and without the array suffix is its own
/// base keyword, in normal form.
pub proof fn base_keyword_of_a_plain_word(word: Seq<char>)
    requires
        !word.contains('('),
        !spells_list(word),
    ensures
        base_keyword(word) == normal_form(word),
{
    let len = word.len() as int;
    skip_blanks_stops_at_first_mark(word, 0, len);
    let start = trim_start(word);
    drop_blanks_stops_behind_last_mark(word, start, len);
    let end = trim_end(word);
    assert forall|k: int| start <= k < end implies #[trigger] word[k] != '(' by {
        assert(word.contains(word[k]));
    }
    first_is_where_find_char_stops(word, '(', start, end, end);
    last_mark_is_where_drop_blanks_stops(word, start, end, end);
}

/// Blanks around a raw type play no part in its base keyword.
pub proof fn base_keyword_ignores_surrounding_blanks(
    before: Seq<char>,
    raw: Seq<char>,
    after: Seq<char>,
)
    requires
        forall|k: int| 0 <= k < before.len() ==> is_blank(#[trigger] before[k]),
        forall|k: int| 0 <= k < after.len() ==> is_blank(#[trigger] after[k]),
    ensures
        base_keyword(before + raw + after) == base_keyword(raw),
        spells_list(before + raw + after) == spells_list(raw),
{
    let padded = before + raw + after;
    let b = before.len() as int;
    let n = raw.len() as int;
    let len = padded.len() as int;
    assert forall|k: int| 0 <= k < n implies #[trigger] padded[b + k] == raw[k] by {}
    assert forall|k: int| 0 <= k < b implies is_blank(#[trigger] padded[k]) by {
        assert(padded[k] == before[k]);
    }
    assert forall|k: int| b + n <= k < len implies is_blank(#[trigger] padded[k]) by {
        assert(padded[k] == after[k - b - n]);
    }
    skip_blanks_stops_at_first_mark(raw, 0, n);
    let start = trim_start(raw);
    assert forall|k: int| 0 <= k < b + start implies is_blank(#[trigger] padded[k]) by {
        if k >= b {
            assert(padded[b + (k - b)] == raw[k - b]);
        }
    }
    if start == n {
        // nothing but blanks
        assert forall|k: int| 0 <= k < len implies is_blank(#[trigger] padded[k]) by {
            if b <= k < b + n {
                assert(padded[b + (k - b)] == raw[k - b]);
            }
        }
        first_mark_is_where_skip_blanks_stops(padded, 0, len, len);
        drop_blanks_stops_behind_last_mark(padded, len, len);
        drop_blanks_stops_behind_last_mark(raw, n, n);
        assert(trim_start(padded) == len && trim_end(padded) == len);
        assert(trim_end(raw) == n);
        assert(!spells_list(padded) && !spells_list(raw));
        find_char_stops_at_first(padded, '(', len, len);
        find_char_stops_at_first(raw, '(', n, n);
        drop_blanks_stops_behind_last_mark(padded, len, len);
        assert(base_keyword(padded) =~= base_keyword(raw));
    } else {
        assert(padded[b + start] == raw[start]);
        first_mark_is_where_skip_blanks_stops(padded, 0, len, b + start);
        drop_blanks_stops_behind_last_mark(raw, start, n);
        let end = trim_end(raw);
        assert(end > start);
        assert forall|k: int| b + end <= k < len implies is_blank(#[trigger] padded[k]) by {
            if k < b + n {
                assert(padded[b + (k - b)] == raw[k - b]);
            }
        }
        assert(padded[b + (end - 1)] == raw[end - 1]);
        last_mark_is_where_drop_blanks_stops(padded, b + start, len, b + end);
        assert(trim_end(padded) == b + end);
        if end - start >= 2 {
            assert(padded[b + (end - 2)] == raw[end - 2]);
        }
        assert(spells_list(padded) == spells_list(raw));
        let inner = if spells_list(raw) {
            end - 2
        } else {
            end
        };
        find_char_stops_at_first(raw, '(', start, inner);
        let stop = find_char(raw, '(', start, inner);
        assert forall|k: int| b + start <= k < b + stop implies #[trigger] padded[k] != '(' by {
            assert(padded[b + (k - b)] == raw[k - b]);
        }
        if stop < inner {
            assert(padded[b + stop] == raw[stop]);
        }
        first_is_where_find_char_stops(padded, '(', b + start, b + inner, b + stop);
        drop_blanks_stops_behind_last_mark(raw, start, stop);
        let last = drop_blanks(raw, start, stop);
        assert forall|k: int| b + last <= k < b + stop implies is_blank(#[trigger] padded[k]) by {
            assert(padded[b + (k - b)] == raw[k - b]);
        }
        if start < last {
            assert(padded[b + (last - 1)] == raw[last - 1]);
        }
        last_mark_is_where_drop_blanks_stops(padded, b + start, b + stop, b + last);
        assert(keyword_end(padded) == b + last);
        assert(lowered(padded).subrange(b + start, b + last) =~= lowered(raw).subrange(
            start,
            last,
        )) by {
            assert forall|k: int| start <= k < last implies lowered(padded)[b + k] == lowered(
                raw,
            )[k] by {
                assert(padded[b + k] == raw[k]);
            }
        }
    }
}

} // verus!
