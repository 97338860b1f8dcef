//! The strict transfer rules between the title field and the editor: text
//! moves only when there is text to move, and always through the cursor.
//!
//! [`crate::sl_editor_association`] holds the lenient rules, which also move
//! the focus when nothing but an empty line changes hands.

pub use crate::sl_editor_association::{
    should_transfer_backspace, BackspaceTransferResult, EnterTransferResult, FocusTarget,
};
use crate::sl_editor_association::with_line_in_front;
use crate::text::{after_first_line, first_line, split_at_char_index, split_first_line};
use vstd::prelude::*;
use vstd::string::*;

verus! {

/// Enter in the title field: what stands right of the cursor becomes the new
/// first line of the editor. Nothing is transferred when the cursor stands at
/// the end of the title or past it.
pub fn transfer_on_enter(
    singleline_text: &str,
    singleline_cursor_char: usize,
    editor_text: &str,
) -> (result: Option<EnterTransferResult>)
    ensures
        result is Some <==> singleline_cursor_char < singleline_text@.len(),
        result matches Some(r) ==> {
            &&& r.new_singleline_text@ == singleline_text@.take(singleline_cursor_char as int)
            &&& r.new_singleline_cursor_char == singleline_cursor_char
            &&& r.new_editor_text@ == with_line_in_front(
                singleline_text@.skip(singleline_cursor_char as int),
                editor_text@,
            )
            &&& r.new_editor_cursor_line == 0
            &&& r.new_editor_cursor_char == 0
            &&& r.focus_target == FocusTarget::Editor
        },
{
    match split_at_char_index(singleline_text, singleline_cursor_char) {
        None => None,
        Some((left, right)) => {
            if right.as_str().is_empty() {
                return None;
            }
            let mut new_editor_text = right;
            if !editor_text.is_empty() {
                new_editor_text.push('\n');
                new_editor_text.append(editor_text);
            }
            Some(
                EnterTransferResult {
                    new_singleline_text: left,
                    new_singleline_cursor_char: singleline_cursor_char,
                    new_editor_text,
                    new_editor_cursor_line: 0,
                    new_editor_cursor_char: 0,
                    focus_target: FocusTarget::Editor,
                },
            )
        },
    }
}

/// Backspace at the head of the editor: the editor's first line is inserted
/// into the title at the cursor, which stays in front of it. Nothing is
/// transferred when that line is empty or the cursor is past the end of the
/// title.
pub fn transfer_on_backspace(
    singleline_text: &str,
    singleline_cursor_char: usize,
    editor_text: &str,
) -> (result: Option<BackspaceTransferResult>)
    ensures
        result is Some <==> first_line(editor_text@).len() > 0 && singleline_cursor_char
            <= singleline_text@.len(),
        result matches Some(r) ==> {
            &&& r.new_singleline_text@ == singleline_text@.take(singleline_cursor_char as int)
                + first_line(editor_text@) + singleline_text@.skip(singleline_cursor_char as int)
            &&& r.new_singleline_cursor_char == singleline_cursor_char
            &&& r.new_editor_text@ == after_first_line(editor_text@)
            &&& r.new_editor_cursor_line == 0
            &&& r.new_editor_cursor_char == 0
            &&& r.focus_target == FocusTarget::SingleLine
        },
{
    let (editor_head, editor_tail) = split_first_line(editor_text);
    if editor_head.as_str().is_empty() {
        return None;
    }
    match split_at_char_index(singleline_text, singleline_cursor_char) {
        None => None,
        Some((prefix, suffix)) => {
            let mut new_singleline_text = prefix;
            new_singleline_text.append(editor_head.as_str());
            new_singleline_text.append(suffix.as_str());
            Some(
                BackspaceTransferResult {
                    new_singleline_text,
                    new_singleline_cursor_char: singleline_cursor_char,
                    new_editor_text: editor_tail,
                    new_editor_cursor_line: 0,
                    new_editor_cursor_char: 0,
                    focus_target: FocusTarget::SingleLine,
                },
            )
        },
    }
}

} // verus!
