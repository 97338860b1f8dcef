//! From a title to a file name: which characters a file stem may hold, the
//! stem of an untitled note, the directory of the day, and the numbered names
//! that are tried when a name is taken.

use crate::paths::{join, joined};
use crate::text::{
    decimal, is_ascii_digit, lemma_decimal_is_injective, lemma_decimal_len, push_decimal,
    split_at_char_index,
};
use crate::timestamp::{
    compact_digits, date_path, lemma_compact_digits_shape, LocalTimestamp, TimestampFields,
};
use vstd::prelude::*;
use vstd::std_specs::iter::IteratorSpec;
use vstd::string::*;

verus! {

/// A file stem holds at most this many characters.
pub const MAX_FILE_STEM_CHARS: usize = 64;

/// Whether `c` is a control code: U+0000 to U+001F and U+007F to U+009F.
pub open spec fn is_control_char(c: char) -> bool {
    c <= '\u{1f}' || ('\u{7f}' <= c && c <= '\u{9f}')
}

/// Whether `c` may not stand in a file name: one of `< > : " / \ | ? *`, or
/// a control code.
pub open spec fn is_invalid_filename_char(c: char) -> bool {
    c == '<' || c == '>' || c == ':' || c == '"' || c == '/' || c == '\\' || c == '|' || c == '?'
        || c == '*' || is_control_char(c)
}

/// `c` itself where it may stand in a file name, else an underscore.
pub open spec fn filename_char(c: char) -> char {
    if is_invalid_filename_char(c) {
        '_'
    } else {
        c
    }
}

/// The first [`MAX_FILE_STEM_CHARS`] characters of `raw`, each one that may
/// not stand in a file name replaced by an underscore.
pub open spec fn sanitized(raw: Seq<char>) -> Seq<char> {
    Seq::new(
        if raw.len() <= MAX_FILE_STEM_CHARS {
            raw.len()
        } else {
            MAX_FILE_STEM_CHARS as nat
        },
        |i: int| filename_char(raw[i]),
    )
}

/// Whether some character of `text` may not stand in a file name.
pub open spec fn has_invalid_filename_char(text: Seq<char>) -> bool {
    exists|i: int| 0 <= i < text.len() && is_invalid_filename_char(#[trigger] text[i])
}

/// The text in front of the digits of an untitled note's stem.
pub open spec fn notitle_prefix() -> Seq<char> {
    seq!['n', 'o', 't', 'i', 't', 'l', 'e', '-']
}

/// The stem of a note without a title: `notitle-` and the seventeen digits
/// of the moment.
pub open spec fn notitle_text(now: TimestampFields) -> Seq<char> {
    notitle_prefix() + compact_digits(now)
}

/// The stem that a title gives: the sanitized title, or the untitled stem
/// when nothing is left of it.
pub open spec fn stem_text(value: Seq<char>, now: TimestampFields) -> Seq<char> {
    if sanitized(value).len() == 0 {
        notitle_text(now)
    } else {
        sanitized(value)
    }
}

/// The place of the last dot in `name`, or -1 if it has none.
pub open spec fn last_dot(name: Seq<char>) -> int
    decreases name.len(),
{
    if name.len() == 0 {
        -1
    } else if name.last() == '.' {
        name.len() - 1
    } else {
        last_dot(name.drop_last())
    }
}

/// A file name without its extension: what stands before the last dot. A
/// name without a dot, or whose only dot comes first, is its own stem.
pub open spec fn file_stem(name: Seq<char>) -> Seq<char> {
    if last_dot(name) <= 0 {
        name
    } else {
        name.take(last_dot(name))
    }
}

/// The extension of every note, with its dot.
pub open spec fn txt_extension() -> Seq<char> {
    seq!['.', 't', 'x', 't']
}

/// The file name that is tried in round `suffix` for `stem`: `stem.txt` in
/// round 1, then `stem_2.txt`, `stem_3.txt` and so on.
pub open spec fn candidate_name(stem: Seq<char>, suffix: nat) -> Seq<char> {
    if suffix == 1 {
        stem + txt_extension()
    } else {
        stem + seq!['_'] + decimal(suffix) + txt_extension()
    }
}

/// The stem to show in the title field after a file got its name, if it
/// differs from what the user typed: the stem of `file_name` when a number
/// was added to it or the title held characters that had to be replaced.
/// Nothing is forced on a path without a file name.
pub open spec fn forced_stem(
    value: Seq<char>,
    file_name: Option<Seq<char>>,
    now: TimestampFields,
) -> Option<Seq<char>> {
    match file_name {
        None => None,
        Some(name) => if file_stem(name) != stem_text(value, now) || has_invalid_filename_char(
            value,
        ) {
            Some(file_stem(name))
        } else {
            None
        },
    }
}

/// An optional text as an optional sequence of characters.
pub open spec fn text_of(text: Option<String>) -> Option<Seq<char>> {
    match text {
        None => None,
        Some(t) => Some(t@),
    }
}

/// An optional borrowed text as an optional sequence of characters.
pub open spec fn text_of_str(text: Option<&str>) -> Option<Seq<char>> {
    match text {
        None => None,
        Some(t) => Some(t@),
    }
}

/// Whether `ch` may not stand in a file name.
pub fn invalid_filename_char(ch: char) -> (invalid: bool)
    ensures
        invalid == is_invalid_filename_char(ch),
{
    ch == '<' || ch == '>' || ch == ':' || ch == '"' || ch == '/' || ch == '\\' || ch == '|' || ch
        == '?' || ch == '*' || ch <= '\u{1f}' || ('\u{7f}' <= ch && ch <= '\u{9f}')
}

/// Makes a file stem of `raw`: every character that may not stand in a file
/// name becomes an underscore, all others stay as they are, and what goes
/// beyond [`MAX_FILE_STEM_CHARS`] characters is cut off.
pub fn sanitize_filename_stem(raw: &str) -> (stem: String)
    ensures
        stem@ == sanitized(raw@),
        stem@.len() <= MAX_FILE_STEM_CHARS,
        forall|i: int|
            0 <= i < stem@.len() ==> #[trigger] stem@[i] == filename_char(raw@[i])
                && !is_invalid_filename_char(stem@[i]),
{
    broadcast use group_string_axioms;
    let mut stem = String::new();
    let mut chars = raw.chars();
    let mut kept: usize = 0;
    proof {
        assert(raw@.skip(0) == raw@);
    }
    loop
        invariant
            kept <= MAX_FILE_STEM_CHARS,
            kept <= raw@.len(),
            chars.remaining() == raw@.skip(kept as int),
            stem@ == Seq::new(kept as nat, |i: int| filename_char(raw@[i])),
        ensures
            kept == MAX_FILE_STEM_CHARS || kept == raw@.len(),
        decreases raw@.len() - kept,
    {
        if kept >= MAX_FILE_STEM_CHARS {
            break ;
        }
        match chars.next() {
            Some(c) => {
                let kept_char = if invalid_filename_char(c) {
                    '_'
                } else {
                    c
                };
                stem.push(kept_char);
                proof {
                    assert(raw@.skip(kept as int).drop_first() == raw@.skip(kept + 1));
                    assert(stem@ =~= Seq::new((kept + 1) as nat, |i: int| filename_char(raw@[i])));
                }
                kept = kept + 1;
            },
            None => {
                break ;
            },
        }
    }
    proof {
        assert(stem@ =~= sanitized(raw@));
    }
    stem
}

/// Whether some character of `text` may not stand in a file name.
pub fn contains_invalid_filename_char(text: &str) -> (found: bool)
    ensures
        found == has_invalid_filename_char(text@),
{
    broadcast use group_string_axioms;
    let mut chars = text.chars();
    let ghost mut seen: int = 0;
    proof {
        assert(text@.skip(0) == text@);
    }
    loop
        invariant
            0 <= seen <= text@.len(),
            chars.remaining() == text@.skip(seen),
            forall|i: int| 0 <= i < seen ==> !is_invalid_filename_char(#[trigger] text@[i]),
        ensures
            seen == text@.len(),
        decreases text@.len() - seen,
    {
        match chars.next() {
            Some(c) => {
                if invalid_filename_char(c) {
                    proof {
                        assert(is_invalid_filename_char(text@[seen]));
                    }
                    return true;
                }
                proof {
                    assert(text@.skip(seen).drop_first() == text@.skip(seen + 1));
                    seen = seen + 1;
                }
            },
            None => {
                break ;
            },
        }
    }
    false
}

/// The stem of a note without a title, made from the moment of its creation.
pub fn notitle_stem(now: &LocalTimestamp) -> (stem: String)
    ensures
        stem@ == notitle_text(now@),
{
    let mut stem = "notitle-".to_owned();
    proof {
        reveal_strlit("notitle-");
        assert(stem@ =~= notitle_prefix());
    }
    stem.append(now.to_compact_digits().as_str());
    stem
}

/// The file stem for the title `value`: the sanitized title, or the untitled
/// stem of `now` when the title is empty.
pub fn stem_from_singleline_value(value: &str, now: &LocalTimestamp) -> (stem: String)
    ensures
        stem@ == stem_text(value@, now@),
{
    if value.is_empty() {
        return notitle_stem(now);
    }
    let sanitized_value = sanitize_filename_stem(value);
    if sanitized_value.as_str().is_empty() {
        return notitle_stem(now);
    }
    sanitized_value
}

/// The directory that holds the notes created on the day of `now`:
/// `user_document_dir/YYYY/MM/DD`.
pub fn daily_directory(user_document_dir: &str, now: &LocalTimestamp) -> (dir: String)
    ensures
        dir@ == joined(user_document_dir@, date_path(now@)),
{
    join(user_document_dir, now.to_date_path().as_str())
}

/// The stem of a file name: see [`file_stem`].
pub fn path_stem(file_name: &str) -> (stem: String)
    ensures
        stem@ == file_stem(file_name@),
{
    broadcast use group_string_axioms;
    let total = file_name.unicode_len();
    let mut chars = file_name.chars();
    let mut seen: usize = 0;
    let mut dot: Option<usize> = None;
    proof {
        assert(file_name@.skip(0) == file_name@);
        assert(file_name@.take(0).len() == 0);
    }
    loop
        invariant
            seen <= file_name@.len() == total,
            chars.remaining() == file_name@.skip(seen as int),
            dot is None ==> last_dot(file_name@.take(seen as int)) == -1,
            dot matches Some(d) ==> d < seen && d as int == last_dot(
                file_name@.take(seen as int),
            ),
        ensures
            seen == file_name@.len(),
        decreases file_name@.len() - seen,
    {
        match chars.next() {
            Some(c) => {
                proof {
                    assert(file_name@.skip(seen as int).drop_first() == file_name@.skip(seen + 1));
                    assert(file_name@.take(seen + 1).drop_last() == file_name@.take(seen as int));
                    assert(file_name@.take(seen + 1).last() == c);
                }
                if c == '.' {
                    dot = Some(seen);
                }
                seen = seen + 1;
            },
            None => {
                break ;
            },
        }
    }
    proof {
        assert(file_name@.take(seen as int) == file_name@);
    }
    match dot {
        Some(d) => {
            if d == 0 {
                return file_name.to_owned();
            }
            match split_at_char_index(file_name, d) {
                Some((stem, _)) => stem,
                None => file_name.to_owned(),
            }
        },
        None => file_name.to_owned(),
    }
}

fn forced_singleline_stem(singleline_value: &str, file_name: Option<&str>, now: &LocalTimestamp) -> (forced:
    Option<String>)
    ensures
        text_of(forced) == forced_stem(singleline_value@, text_of_str(file_name), now@),
{
    match file_name {
        None => None,
        Some(name) => {
            let resolved_stem = path_stem(name);
            let base_stem = stem_from_singleline_value(singleline_value, now);
            let had_collision = !(resolved_stem == base_stem);
            let had_invalid_chars = contains_invalid_filename_char(singleline_value);
            if had_collision || had_invalid_chars {
                Some(resolved_stem)
            } else {
                None
            }
        },
    }
}

/// After a note was created under `created_file_name` for the title
/// `singleline_value`: the stem that the title field must show instead of
/// what the user typed, if any. See [`forced_stem`].
pub fn forced_singleline_stem_after_create(
    singleline_value: &str,
    created_file_name: Option<&str>,
    now: &LocalTimestamp,
) -> (forced: Option<String>)
    ensures
        text_of(forced) == forced_stem(singleline_value@, text_of_str(created_file_name), now@),
{
    forced_singleline_stem(singleline_value, created_file_name, now)
}

/// After a note was renamed to `renamed_file_name` for the title
/// `singleline_value`: the stem that the title field must show instead of
/// what the user typed, if any. See [`forced_stem`].
pub fn forced_singleline_stem_after_rename(
    singleline_value: &str,
    renamed_file_name: Option<&str>,
    now: &LocalTimestamp,
) -> (forced: Option<String>)
    ensures
        text_of(forced) == forced_stem(singleline_value@, text_of_str(renamed_file_name), now@),
{
    forced_singleline_stem(singleline_value, renamed_file_name, now)
}

/// The file name to try in round `suffix` for `stem`: see [`candidate_name`].
pub fn candidate_file_name(stem: &str, suffix: u64) -> (name: String)
    ensures
        name@ == candidate_name(stem@, suffix as nat),
{
    let mut name = stem.to_owned();
    if suffix != 1 {
        name.push('_');
        push_decimal(&mut name, suffix);
    }
    name.append(".txt");
    proof {
        reveal_strlit(".txt");
        assert(".txt"@ =~= txt_extension());
        assert(name@ =~= candidate_name(stem@, suffix as nat));
    }
    name
}

/// A sanitized stem is safe and short: it holds at most
/// [`MAX_FILE_STEM_CHARS`] characters, none of which is invalid in a file
/// name; each stands where it stood in the title, replaced by an underscore
/// exactly where the title held an invalid character. A title that is short
/// enough and holds no invalid character, whatever its script, is its own
/// stem.
pub proof fn lemma_sanitized_is_safe(raw: Seq<char>)
    ensures
        sanitized(raw).len() <= MAX_FILE_STEM_CHARS,
        sanitized(raw).len() <= raw.len(),
        sanitized(raw).len() == raw.len() || sanitized(raw).len() == MAX_FILE_STEM_CHARS,
        forall|i: int|
            0 <= i < sanitized(raw).len() ==> (#[trigger] sanitized(raw)[i]) == filename_char(
                raw[i],
            ),
        forall|i: int|
            0 <= i < sanitized(raw).len() && is_invalid_filename_char(raw[i]) ==> (
            #[trigger] sanitized(raw)[i]) == '_',
        forall|i: int|
            0 <= i < sanitized(raw).len() && !is_invalid_filename_char(raw[i]) ==> (
            #[trigger] sanitized(raw)[i]) == raw[i],
        !has_invalid_filename_char(sanitized(raw)),
        raw.len() <= MAX_FILE_STEM_CHARS && !has_invalid_filename_char(raw) ==> sanitized(raw)
            == raw,
{
    if raw.len() <= MAX_FILE_STEM_CHARS && !has_invalid_filename_char(raw) {
        assert(sanitized(raw) =~= raw);
    }
}

/// An empty title gives the untitled stem: `notitle-` followed by exactly
/// seventeen ASCII digits.
pub proof fn lemma_empty_title_gives_notitle_stem(now: TimestampFields)
    ensures
        stem_text(Seq::empty(), now) == notitle_text(now),
        notitle_text(now).len() == notitle_prefix().len() + 17,
        notitle_text(now).take(notitle_prefix().len() as int) == notitle_prefix(),
        notitle_text(now).skip(notitle_prefix().len() as int) == compact_digits(now),
        forall|i: int|
            notitle_prefix().len() <= i < notitle_text(now).len() ==> is_ascii_digit(
                #[trigger] notitle_text(now)[i],
            ),
{
    lemma_compact_digits_shape(now);
    assert(notitle_text(now).take(notitle_prefix().len() as int) =~= notitle_prefix());
    assert(notitle_text(now).skip(notitle_prefix().len() as int) =~= compact_digits(now));
    assert forall|i: int| notitle_prefix().len() <= i < notitle_text(now).len() implies is_ascii_digit(
        #[trigger] notitle_text(now)[i],
    ) by {
        assert(notitle_text(now)[i] == compact_digits(now)[i - notitle_prefix().len()]);
    }
}

/// Every stem can be a file name: it is not empty and holds no character
/// that is invalid in one.
pub proof fn lemma_stem_is_a_valid_name(value: Seq<char>, now: TimestampFields)
    ensures
        stem_text(value, now).len() > 0,
        !has_invalid_filename_char(stem_text(value, now)),
{
    lemma_sanitized_is_safe(value);
    if sanitized(value).len() == 0 {
        lemma_compact_digits_shape(now);
        let stem = notitle_text(now);
        assert forall|i: int| 0 <= i < stem.len() implies !is_invalid_filename_char(
            #[trigger] stem[i],
        ) by {
            if i >= notitle_prefix().len() {
                assert(stem[i] == compact_digits(now)[i - notitle_prefix().len()]);
                assert(is_ascii_digit(compact_digits(now)[i - notitle_prefix().len()]));
            } else {
                assert(stem[i] == notitle_prefix()[i]);
            }
        }
    }
}

/// The stem of `stem.txt` is `stem`, for every stem that is not empty.
pub proof fn lemma_file_stem_of_txt_name(stem: Seq<char>)
    requires
        stem.len() > 0,
    ensures
        file_stem(stem + txt_extension()) == stem,
{
    let name = stem + txt_extension();
    let without_t = name.drop_last();
    let without_xt = without_t.drop_last();
    let without_txt = without_xt.drop_last();
    assert(name.last() == 't');
    assert(without_t.last() == 'x');
    assert(without_xt.last() == 't');
    assert(without_txt.last() == '.');
    assert(last_dot(without_txt) == stem.len());
    assert(last_dot(without_xt) == stem.len());
    assert(last_dot(without_t) == stem.len());
    assert(last_dot(name) == stem.len());
    assert(name.take(stem.len() as int) =~= stem);
}

/// The title field is corrected exactly when the disk differs from what was
/// typed. For a note that got the name of round `round` for its title:
/// - the stem of that name is the stem of the title, with `_` and the
///   number of the round behind it from round 2 on;
/// - in round 1 the stem is forced on the title field only if the title
///   held an invalid character;
/// - from round 2 on it is always forced.
pub proof fn lemma_forced_stem_closes_the_loop(value: Seq<char>, now: TimestampFields, round: nat)
    requires
        round >= 1,
    ensures
        ({
            let stem = stem_text(value, now);
            let numbered = stem + seq!['_'] + decimal(round);
            let name = candidate_name(stem, round);
            &&& round == 1 ==> file_stem(name) == stem
            &&& round >= 2 ==> file_stem(name) == numbered
            &&& round == 1 ==> forced_stem(value, Some(name), now) == (if has_invalid_filename_char(
                value,
            ) {
                Some(stem)
            } else {
                None
            })
            &&& round >= 2 ==> forced_stem(value, Some(name), now) == Some(numbered)
        }),
{
    let stem = stem_text(value, now);
    lemma_stem_is_a_valid_name(value, now);
    if round == 1 {
        lemma_file_stem_of_txt_name(stem);
    } else {
        let numbered = stem + seq!['_'] + decimal(round);
        lemma_decimal_len(round);
        lemma_file_stem_of_txt_name(numbered);
        assert(candidate_name(stem, round) =~= numbered + txt_extension());
        assert(numbered.len() > stem.len());
    }
}

/// The names of different rounds differ: no two candidates for one stem are
/// the same name.
pub proof fn lemma_candidate_names_differ(stem: Seq<char>, first: nat, second: nat)
    requires
        first >= 1,
        second >= 1,
        candidate_name(stem, first) == candidate_name(stem, second),
    ensures
        first == second,
{
    lemma_decimal_len(first);
    lemma_decimal_len(second);
    let a = candidate_name(stem, first);
    let b = candidate_name(stem, second);
    assert(a.len() == b.len());
    if first == 1 && second == 1 {
    } else if first == 1 {
        assert(a.len() == stem.len() + 4);
        assert(b.len() == stem.len() + 1 + decimal(second).len() + 4);
    } else if second == 1 {
        assert(b.len() == stem.len() + 4);
        assert(a.len() == stem.len() + 1 + decimal(first).len() + 4);
    } else {
        assert(a.len() == stem.len() + 1 + decimal(first).len() + 4);
        assert(b.len() == stem.len() + 1 + decimal(second).len() + 4);
        assert(decimal(first).len() == decimal(second).len());
        let from = (stem.len() + 1) as int;
        let to = (stem.len() + 1 + decimal(first).len()) as int;
        assert(decimal(first) =~= a.subrange(from, to));
        assert(decimal(second) =~= b.subrange(from, to));
        lemma_decimal_is_injective(first, second);
    }
}

} // verus!
