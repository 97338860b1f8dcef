//! How text and the cursor travel between the single-line title field and the
//! first line of the body editor, for Enter, Backspace, Down and Up.
//!
//! Cursor positions count characters, never bytes.

use crate::text::{
    after_first_line, first_line, has_line_break, lemma_first_line_of_joined,
    lemma_first_line_splits, split_at_char_index, split_first_line,
};
use vstd::prelude::*;
use vstd::string::*;

verus! {

/// The widget that holds the focus after a transfer.
#[derive(Debug, Clone, Copy, PartialEq, Eq)]
pub enum FocusTarget {
    SingleLine,
    Editor,
}

/// What both widgets show after Enter was pressed in the title field.
#[derive(Debug, Clone, PartialEq, Eq)]
pub struct EnterTransferResult {
    pub new_singleline_text: String,
    pub new_singleline_cursor_char: usize,
    pub new_editor_text: String,
    pub new_editor_cursor_line: u32,
    pub new_editor_cursor_char: u32,
    pub focus_target: FocusTarget,
}

/// What both widgets show after Backspace was pressed at the head of the editor.
#[derive(Debug, Clone, PartialEq, Eq)]
pub struct BackspaceTransferResult {
    pub new_singleline_text: String,
    pub new_singleline_cursor_char: usize,
    pub new_editor_text: String,
    pub new_editor_cursor_line: u32,
    pub new_editor_cursor_char: u32,
    pub focus_target: FocusTarget,
}

/// Where the editor cursor lands after Down was pressed in the title field.
#[derive(Debug, Clone, PartialEq, Eq)]
pub struct DownCursorTransferResult {
    pub new_editor_cursor_line: u32,
    pub new_editor_cursor_char: u32,
    pub focus_target: FocusTarget,
}

/// Where the title cursor lands after Up was pressed on the editor's first line.
#[derive(Debug, Clone, PartialEq, Eq)]
pub struct UpCursorTransferResult {
    pub new_singleline_cursor_char: usize,
    pub focus_target: FocusTarget,
}

/// The smaller of `index` and `len`.
pub open spec fn clamped(index: int, len: int) -> int {
    if index <= len {
        index
    } else {
        len
    }
}

/// The editor text once `moved` has been put in front of it as a line of its own.
pub open spec fn with_line_in_front(moved: Seq<char>, editor: Seq<char>) -> Seq<char> {
    if editor.len() == 0 {
        moved
    } else {
        moved + seq!['\n'] + editor
    }
}

/// The title text after Backspace pulled the editor's first line `head` up:
/// inserted at the cursor when it is not empty and more lines follow in
/// `tail`, else appended at the end.
pub open spec fn with_line_pulled_up(
    title: Seq<char>,
    cursor: int,
    head: Seq<char>,
    tail: Seq<char>,
) -> Seq<char> {
    if head.len() == 0 || tail.len() == 0 {
        title + head
    } else {
        title.take(cursor) + head + title.skip(cursor)
    }
}

fn clamp_char_index(index: usize, text: &str) -> (pos: usize)
    ensures
        pos == clamped(index as int, text@.len() as int),
{
    let count = text.unicode_len();
    if index <= count {
        index
    } else {
        count
    }
}

fn make_enter_result(
    new_singleline_text: String,
    new_singleline_cursor_char: usize,
    new_editor_text: String,
) -> (result: EnterTransferResult)
    ensures
        result.new_singleline_text == new_singleline_text,
        result.new_singleline_cursor_char == new_singleline_cursor_char,
        result.new_editor_text == new_editor_text,
        result.new_editor_cursor_line == 0,
        result.new_editor_cursor_char == 0,
        result.focus_target == FocusTarget::Editor,
{
    EnterTransferResult {
        new_singleline_text,
        new_singleline_cursor_char,
        new_editor_text,
        new_editor_cursor_line: 0,
        new_editor_cursor_char: 0,
        focus_target: FocusTarget::Editor,
    }
}

fn make_backspace_result(
    new_singleline_text: String,
    new_singleline_cursor_char: usize,
    new_editor_text: String,
) -> (result: BackspaceTransferResult)
    ensures
        result.new_singleline_text == new_singleline_text,
        result.new_singleline_cursor_char == new_singleline_cursor_char,
        result.new_editor_text == new_editor_text,
        result.new_editor_cursor_line == 0,
        result.new_editor_cursor_char == 0,
        result.focus_target == FocusTarget::SingleLine,
{
    BackspaceTransferResult {
        new_singleline_text,
        new_singleline_cursor_char,
        new_editor_text,
        new_editor_cursor_line: 0,
        new_editor_cursor_char: 0,
        focus_target: FocusTarget::SingleLine,
    }
}

fn make_down_result(new_editor_cursor_char: u32) -> (result: DownCursorTransferResult)
    ensures
        result.new_editor_cursor_line == 0,
        result.new_editor_cursor_char == new_editor_cursor_char,
        result.focus_target == FocusTarget::Editor,
{
    DownCursorTransferResult {
        new_editor_cursor_line: 0,
        new_editor_cursor_char,
        focus_target: FocusTarget::Editor,
    }
}

fn make_up_result(new_singleline_cursor_char: usize) -> (result: UpCursorTransferResult)
    ensures
        result.new_singleline_cursor_char == new_singleline_cursor_char,
        result.focus_target == FocusTarget::SingleLine,
{
    UpCursorTransferResult { new_singleline_cursor_char, focus_target: FocusTarget::SingleLine }
}

/// Whether a change event of the editor stands for a Backspace at the head
/// of the text: the text did not change, the cursor stands at the very
/// first position, and the first line is not empty.
pub open spec fn is_backspace_at_line_head(
    value: Seq<char>,
    last_value: Seq<char>,
    cursor_line: u32,
    cursor_char: u32,
) -> bool {
    value == last_value && cursor_line == 0 && cursor_char == 0 && first_line(value).len() > 0
}

/// Tells a Backspace at the head of the editor from other change events:
/// see [`is_backspace_at_line_head`].
pub fn detects_backspace_at_line_head(
    value: &String,
    last_value: &String,
    cursor_line: u32,
    cursor_char: u32,
) -> (detected: bool)
    ensures
        detected == is_backspace_at_line_head(value@, last_value@, cursor_line, cursor_char),
{
    if cursor_line != 0 || cursor_char != 0 {
        return false;
    }
    if !(*value == *last_value) {
        return false;
    }
    broadcast use group_string_axioms;
    let mut chars = value.as_str().chars();
    match chars.next() {
        Some(c) => c != '\n',
        None => false,
    }
}

/// Backspace moves text up only from the very first position of the editor.
pub fn should_transfer_backspace(editor_cursor_line: u32, editor_cursor_char: u32) -> (yes: bool)
    ensures
        yes == (editor_cursor_line == 0 && editor_cursor_char == 0),
{
    editor_cursor_line == 0 && editor_cursor_char == 0
}

/// Enter in the title field: what stands right of the cursor becomes the new
/// first line of the editor, and the focus goes to the editor's origin. With
/// the cursor at the end of the title an empty line is put in front of a
/// non-empty editor. A cursor past the end of the title transfers nothing.
pub fn transfer_on_enter(
    singleline_text: &str,
    singleline_cursor_char: usize,
    editor_text: &str,
) -> (result: Option<EnterTransferResult>)
    ensures
        result is Some <==> singleline_cursor_char <= singleline_text@.len(),
        result matches Some(r) ==> {
            &&& r.new_singleline_text@ == singleline_text@.take(singleline_cursor_char as int)
            &&& r.new_singleline_cursor_char == singleline_cursor_char
            &&& r.new_editor_text@ == with_line_in_front(
                singleline_text@.skip(singleline_cursor_char as int),
                editor_text@,
            )
            &&& r.new_editor_cursor_line == 0
            &&& r.new_editor_cursor_char == 0
            &&& r.focus_target == FocusTarget::Editor
        },
{
    match split_at_char_index(singleline_text, singleline_cursor_char) {
        None => None,
        Some((left, right)) => {
            let mut new_editor_text = right;
            if !editor_text.is_empty() {
                new_editor_text.push('\n');
                new_editor_text.append(editor_text);
            }
            Some(make_enter_result(left, singleline_cursor_char, new_editor_text))
        },
    }
}

/// Backspace at the head of the editor: the editor's first line moves up into
/// the title.
///
/// - An empty editor transfers nothing.
/// - An empty first line is dropped and the cursor goes to the end of the
///   title, wherever it stood.
/// - Otherwise a cursor past the end of the title transfers nothing; the line
///   is appended to the title when it was the editor's only one (the cursor
///   then stands at the end), and inserted at the cursor when more lines
///   follow (the cursor then stays in front of it).
pub fn transfer_on_backspace(
    singleline_text: &str,
    singleline_cursor_char: usize,
    editor_text: &str,
) -> (result: Option<BackspaceTransferResult>)
    ensures
        result is Some <==> (if first_line(editor_text@).len() == 0 {
            after_first_line(editor_text@).len() > 0
        } else {
            singleline_cursor_char <= singleline_text@.len()
        }),
        result matches Some(r) ==> {
            &&& r.new_editor_text@ == after_first_line(editor_text@)
            &&& r.new_editor_cursor_line == 0
            &&& r.new_editor_cursor_char == 0
            &&& r.focus_target == FocusTarget::SingleLine
            &&& r.new_singleline_text@ == with_line_pulled_up(
                singleline_text@,
                singleline_cursor_char as int,
                first_line(editor_text@),
                after_first_line(editor_text@),
            )
            &&& r.new_singleline_cursor_char == (if first_line(editor_text@).len() > 0
                && after_first_line(editor_text@).len() > 0 {
                singleline_cursor_char as int
            } else {
                r.new_singleline_text@.len() as int
            })
        },
{
    let (editor_head, editor_tail) = split_first_line(editor_text);
    if editor_head.as_str().is_empty() {
        if editor_tail.as_str().is_empty() {
            return None;
        }
        let title = singleline_text.to_owned();
        let at_end = singleline_text.unicode_len();
        proof {
            assert(singleline_text@ + first_line(editor_text@) == singleline_text@);
        }
        return Some(make_backspace_result(title, at_end, editor_tail));
    }
    match split_at_char_index(singleline_text, singleline_cursor_char) {
        None => None,
        Some((prefix, suffix)) => {
            let mut new_singleline_text = prefix;
            if editor_tail.as_str().is_empty() {
                new_singleline_text.append(suffix.as_str());
                new_singleline_text.append(editor_head.as_str());
                proof {
                    let cursor = singleline_cursor_char as int;
                    assert(singleline_text@.take(cursor) + singleline_text@.skip(cursor)
                        == singleline_text@);
                }
                let at_end = new_singleline_text.as_str().unicode_len();
                Some(make_backspace_result(new_singleline_text, at_end, String::new()))
            } else {
                new_singleline_text.append(editor_head.as_str());
                new_singleline_text.append(suffix.as_str());
                Some(
                    make_backspace_result(new_singleline_text, singleline_cursor_char, editor_tail),
                )
            }
        },
    }
}

/// Down in the title field: the editor cursor goes to the first line, to the
/// column of the title cursor or to the end of that line if it is shorter.
pub fn transfer_on_down(singleline_cursor_char: usize, editor_text: &str) -> (result:
    DownCursorTransferResult)
    ensures
        result.new_editor_cursor_line == 0,
        result.new_editor_cursor_char == clamped(
            clamped(singleline_cursor_char as int, first_line(editor_text@).len() as int),
            u32::MAX as int,
        ),
        result.focus_target == FocusTarget::Editor,
{
    let (editor_head, _) = split_first_line(editor_text);
    let clamped_cursor_char = clamp_char_index(singleline_cursor_char, editor_head.as_str());
    let column: u32 = if clamped_cursor_char <= u32::MAX as usize {
        clamped_cursor_char as u32
    } else {
        u32::MAX
    };
    make_down_result(column)
}

/// Up in the editor: from the first line the title cursor goes to the same
/// column, or to the end of the title if it is shorter. From any other line
/// nothing is transferred.
pub fn transfer_on_up(editor_cursor_line: u32, editor_cursor_char: u32, singleline_text: &str) -> (result:
    Option<UpCursorTransferResult>)
    ensures
        result is Some <==> editor_cursor_line == 0,
        result matches Some(r) ==> r.new_singleline_cursor_char == clamped(
            editor_cursor_char as int,
            singleline_text@.len() as int,
        ) && r.focus_target == FocusTarget::SingleLine,
{
    if editor_cursor_line != 0 {
        return None;
    }
    let clamped_cursor_char = clamp_char_index(editor_cursor_char as usize, singleline_text);
    Some(make_up_result(clamped_cursor_char))
}

/// Backspace undoes Enter: after Enter has moved the right part of a title
/// in front of an editor that was not empty, Backspace at the head of the
/// editor, with the title cursor where Enter left it, restores the title
/// and the editor.
pub proof fn lemma_backspace_undoes_enter(title: Seq<char>, cursor: int, editor: Seq<char>)
    requires
        0 <= cursor < title.len(),
        !has_line_break(title),
        editor.len() > 0,
    ensures
        ({
            let moved_title = title.take(cursor);
            let moved_editor = with_line_in_front(title.skip(cursor), editor);
            &&& first_line(moved_editor) == title.skip(cursor)
            &&& after_first_line(moved_editor) == editor
            &&& with_line_pulled_up(
                moved_title,
                cursor,
                first_line(moved_editor),
                after_first_line(moved_editor),
            ) == title
        }),
{
    let right = title.skip(cursor);
    assert(!has_line_break(right)) by {
        if has_line_break(right) {
            let i = choose|i: int| 0 <= i < right.len() && right[i] == '\n';
            assert(title[cursor + i] == '\n');
        }
    }
    lemma_first_line_of_joined(right, editor);
    let moved_title = title.take(cursor);
    assert(moved_title.take(cursor) =~= moved_title);
    assert(moved_title.skip(cursor) =~= Seq::<char>::empty());
    assert(moved_title + right + Seq::<char>::empty() =~= title);
}

/// Nothing is lost or invented by a transfer: after Enter the title and the
/// first line of the editor together are the old title, and after Backspace
/// the new title holds as many characters as the old title and the line
/// that moved.
pub proof fn lemma_transfers_keep_the_text(title: Seq<char>, cursor: int, editor: Seq<char>)
    requires
        0 <= cursor <= title.len(),
    ensures
        title.take(cursor) + title.skip(cursor) == title,
        with_line_in_front(title.skip(cursor), editor).len() >= title.skip(cursor).len()
            + editor.len(),
        with_line_pulled_up(title, cursor, first_line(editor), after_first_line(editor)).len()
            == title.len() + first_line(editor).len(),
        first_line(editor).len() + after_first_line(editor).len() <= editor.len(),
{
    assert(title.take(cursor) + title.skip(cursor) =~= title);
    lemma_first_line_splits(editor);
    if has_line_break(editor) {
        assert(editor.len() == first_line(editor).len() + 1 + after_first_line(editor).len());
    }
}

} // verus!
