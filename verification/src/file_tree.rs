//! The order of the entries in the file tree: folders come before files,
//! and within each group the labels decide, character by character.

use vstd::prelude::*;
use vstd::std_specs::iter::IteratorSpec;
use vstd::string::*;

verus! {

/// The name of the directory that the file tree never shows.
pub const HIDDEN_DIRECTORY: &'static str = ".git";

/// The label of an entry whose name cannot be shown.
pub const UNKNOWN_LABEL: &'static str = "Unknown";

/// Whether `left` comes before `right` in the dictionary: at the first
/// place where they differ `left` has the smaller character, or `left` ends
/// there and `right` goes on.
pub open spec fn text_before(left: Seq<char>, right: Seq<char>) -> bool
    decreases left.len(),
{
    if right.len() == 0 {
        false
    } else if left.len() == 0 {
        true
    } else if left[0] != right[0] {
        left[0] < right[0]
    } else {
        text_before(left.drop_first(), right.drop_first())
    }
}

/// Whether the entry `left` comes before the entry `right` in the tree: a
/// folder before a file, and among two of a kind the one whose label comes
/// first.
pub open spec fn entry_before(
    left_is_folder: bool,
    left_label: Seq<char>,
    right_is_folder: bool,
    right_label: Seq<char>,
) -> bool {
    if left_is_folder != right_is_folder {
        left_is_folder
    } else {
        text_before(left_label, right_label)
    }
}

/// Whether `left` comes before `right` in the dictionary: see [`text_before`].
pub fn label_precedes(left: &str, right: &str) -> (before: bool)
    ensures
        before == text_before(left@, right@),
{
    broadcast use group_string_axioms;
    let mut left_chars = left.chars();
    let mut right_chars = right.chars();
    let ghost mut seen: int = 0;
    proof {
        assert(left@.skip(0) == left@);
        assert(right@.skip(0) == right@);
    }
    loop
        invariant
            0 <= seen <= left@.len(),
            seen <= right@.len(),
            left_chars.remaining() == left@.skip(seen),
            right_chars.remaining() == right@.skip(seen),
            text_before(left@, right@) == text_before(left@.skip(seen), right@.skip(seen)),
        decreases left@.len() - seen,
    {
        match right_chars.next() {
            None => {
                return false;
            },
            Some(r) => match left_chars.next() {
                None => {
                    return true;
                },
                Some(l) => {
                    if l != r {
                        return l < r;
                    }
                    proof {
                        assert(left@.skip(seen).drop_first() == left@.skip(seen + 1));
                        assert(right@.skip(seen).drop_first() == right@.skip(seen + 1));
                        seen = seen + 1;
                    }
                },
            },
        }
    }
}

/// Whether the entry `left` comes before the entry `right` in the tree: see
/// [`entry_before`].
pub fn entry_precedes(
    left_is_folder: bool,
    left_label: &str,
    right_is_folder: bool,
    right_label: &str,
) -> (before: bool)
    ensures
        before == entry_before(left_is_folder, left_label@, right_is_folder, right_label@),
{
    if left_is_folder != right_is_folder {
        left_is_folder
    } else {
        label_precedes(left_label, right_label)
    }
}

/// No text comes before itself, and of two texts at most one comes before
/// the other.
pub proof fn lemma_text_before_is_strict(left: Seq<char>, right: Seq<char>)
    ensures
        !text_before(left, left),
        !(text_before(left, right) && text_before(right, left)),
    decreases left.len(),
{
    if left.len() > 0 {
        lemma_text_before_is_strict(left.drop_first(), left.drop_first());
        if right.len() > 0 && left[0] == right[0] {
            lemma_text_before_is_strict(left.drop_first(), right.drop_first());
        }
    }
}

/// Of two different texts one comes before the other.
pub proof fn lemma_text_before_is_total(left: Seq<char>, right: Seq<char>)
    requires
        left != right,
    ensures
        text_before(left, right) || text_before(right, left),
    decreases left.len(),
{
    if left.len() > 0 && right.len() > 0 && left[0] == right[0] {
        if left.drop_first() == right.drop_first() {
            assert(left =~= seq![left[0]] + left.drop_first());
            assert(right =~= seq![right[0]] + right.drop_first());
        }
        lemma_text_before_is_total(left.drop_first(), right.drop_first());
    } else if left.len() == 0 {
        assert(right.len() > 0) by {
            if right.len() == 0 {
                assert(left =~= right);
            }
        }
    }
}

/// What comes before a text that comes before a third comes before the third.
pub proof fn lemma_text_before_is_transitive(first: Seq<char>, second: Seq<char>, third: Seq<char>)
    requires
        text_before(first, second),
        text_before(second, third),
    ensures
        text_before(first, third),
    decreases first.len(),
{
    if first.len() > 0 && second.len() > 0 && third.len() > 0 {
        if first[0] == second[0] && second[0] == third[0] {
            lemma_text_before_is_transitive(
                first.drop_first(),
                second.drop_first(),
                third.drop_first(),
            );
        }
    }
}

/// The order of the tree is a strict order on entries that ranks any two
/// entries which differ in kind or label, and it puts every folder before
/// every file.
pub proof fn lemma_entry_order(
    first_is_folder: bool,
    first: Seq<char>,
    second_is_folder: bool,
    second: Seq<char>,
    third_is_folder: bool,
    third: Seq<char>,
)
    ensures
        !entry_before(first_is_folder, first, first_is_folder, first),
        !(entry_before(first_is_folder, first, second_is_folder, second) && entry_before(
            second_is_folder,
            second,
            first_is_folder,
            first,
        )),
        entry_before(first_is_folder, first, second_is_folder, second) && entry_before(
            second_is_folder,
            second,
            third_is_folder,
            third,
        ) ==> entry_before(first_is_folder, first, third_is_folder, third),
        first_is_folder != second_is_folder || first != second ==> entry_before(
            first_is_folder,
            first,
            second_is_folder,
            second,
        ) || entry_before(second_is_folder, second, first_is_folder, first),
        first_is_folder && !second_is_folder ==> entry_before(
            first_is_folder,
            first,
            second_is_folder,
            second,
        ),
{
    lemma_text_before_is_strict(first, first);
    lemma_text_before_is_strict(first, second);
    if first != second {
        lemma_text_before_is_total(first, second);
    }
    if text_before(first, second) && text_before(second, third) {
        lemma_text_before_is_transitive(first, second, third);
    }
}

} // verus!
