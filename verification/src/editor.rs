//! The query box: a one-line text editor.
//!
//! The editor is `tui_input::Input`. Its text and cursor are known here only
//! by name, and everything in this file is trusted rather than proved.

use crate::keys::{EditKey, KeyKind, ALT, CONTROL, NONE, SHIFT};
use crossterm::event::{Event, KeyCode, KeyEvent, KeyEventKind, KeyModifiers};
use tui_input::backend::crossterm::EventHandler;
use tui_input::Input;
use vstd::prelude::*;

verus! {

/// The editor type, `tui_input::Input`: nothing inside it is visible here.
#[verifier::external_type_specification]
#[verifier::external_body]
pub struct ExInput(Input);

/// The text that an editor holds.
pub uninterp spec fn buffer_text(input: Input) -> Seq<char>;

/// The number of characters before an editor's cursor.
pub uninterp spec fn buffer_cursor(input: Input) -> nat;

/// The text and cursor of an editor after it has handled a key.
pub uninterp spec fn edited(input: Input, key: EditKey, modifiers: u8, kind: KeyKind) -> (
    Seq<char>,
    nat,
);

/// The screen column of the cursor, counted from the start of the text.
pub uninterp spec fn cursor_column(text: Seq<char>, cursor: nat) -> nat;

/// A new editor: no text, and the cursor at the start.
///
/// Trusted: this is `Input::default`.
#[verifier::external_body]
pub(crate) fn empty_editor() -> (input: Input)
    ensures
        buffer_text(input) == Seq::<char>::empty(),
        buffer_cursor(input) == 0,
{
    Input::default()
}

/// Trusted: `Input::value` gives the text of the editor.
pub assume_specification[ Input::value ](input: &Input) -> (text: &str)
    ensures
        text@ == buffer_text(*input),
;

/// Trusted: `Input::reset` empties the text and puts the cursor at the start.
pub assume_specification[ Input::reset ](input: &mut Input)
    ensures
        buffer_text(*final(input)) == Seq::<char>::empty(),
        buffer_cursor(*final(input)) == 0,
;

/// Trusted: `Input::visual_cursor` gives the display width of the text before
/// the cursor, which depends on the text and the cursor alone, and is zero
/// where the cursor is at the start.
pub assume_specification[ Input::visual_cursor ](input: &Input) -> (column: usize)
    ensures
        column == cursor_column(buffer_text(*input), buffer_cursor(*input)),
        buffer_cursor(*input) == 0 ==> column == 0,
;

/// Whether the editor takes a character key with these modifiers as
/// typed text: with none, with shift, or with control and alt together.
pub open spec fn types_text(modifiers: u8) -> bool {
    modifiers == NONE || modifiers == SHIFT || modifiers == CONTROL + ALT
}

/// What the editor is known to do with a key: `after` is what `before`
/// became.
///
/// - A key that came up, and a key that the editor has no binding for,
///   change neither the text nor the cursor.
/// - A character key that is pressed or held, with modifiers that make it
///   typed text, is inserted at the cursor, and the cursor moves past it.
/// - Home and End, pressed or held with no modifier, put the cursor at the
///   start and at the end of the text, which stays as it is.
pub open spec fn known_edit(
    before: Input,
    after: Input,
    key: EditKey,
    modifiers: u8,
    kind: KeyKind,
) -> bool {
    let text = buffer_text(before);
    let cursor = buffer_cursor(before);
    if kind is Release {
        buffer_text(after) == text && buffer_cursor(after) == cursor
    } else {
        match key {
            EditKey::Other => buffer_text(after) == text && buffer_cursor(after) == cursor,
            EditKey::Char(c) => types_text(modifiers) && cursor <= text.len() ==> buffer_text(after)
                == text.insert(cursor as int, c) && buffer_cursor(after) == cursor + 1,
            EditKey::Home => modifiers == NONE ==> buffer_text(after) == text && buffer_cursor(
                after,
            ) == 0,
            EditKey::End => modifiers == NONE ==> buffer_text(after) == text && buffer_cursor(after)
                == text.len(),
            _ => true,
        }
    }
}

/// What is known of an editor that has handled a key: `after` is what
/// `before` became. Its text and cursor are the ones named `edited`, the
/// cursor stands within the text, and `known_edit` holds.
pub open spec fn edit_applied(
    before: Input,
    after: Input,
    key: EditKey,
    modifiers: u8,
    kind: KeyKind,
) -> bool {
    &&& (buffer_text(after), buffer_cursor(after)) == edited(before, key, modifiers, kind)
    &&& buffer_cursor(after) <= buffer_text(after).len()
    &&& known_edit(before, after, key, modifiers, kind)
}

/// Hands a key to the editor, which acts on it by its own key bindings.
///
/// Trusted: this is `EventHandler::handle_event` of `Input`, called on the
/// key event that the arguments describe (`Other` is sent as the null key,
/// for which the editor has no binding). What it does to the text and the
/// cursor depends on the editor and the key alone, and has the name
/// `edited`; the editor keeps its cursor within its text; and what it does
/// in the plainest cases is stated in `known_edit`.
#[verifier::external_body]
pub(crate) fn handle_edit_key(input: &mut Input, key: EditKey, modifiers: u8, kind: KeyKind)
    ensures
        (buffer_text(*final(input)), buffer_cursor(*final(input))) == edited(
            *old(input),
            key,
            modifiers,
            kind,
        ),
        buffer_cursor(*final(input)) <= buffer_text(*final(input)).len(),
        known_edit(*old(input), *final(input), key, modifiers, kind),
{
    let code = match key {
        EditKey::Char(c) => KeyCode::Char(c),
        EditKey::Backspace => KeyCode::Backspace,
        EditKey::Delete => KeyCode::Delete,
        EditKey::Home => KeyCode::Home,
        EditKey::End => KeyCode::End,
        EditKey::Other => KeyCode::Null,
    };
    let kind = match kind {
        KeyKind::Press => KeyEventKind::Press,
        KeyKind::Repeat => KeyEventKind::Repeat,
        KeyKind::Release => KeyEventKind::Release,
    };
    let event = KeyEvent::new_with_kind(code, KeyModifiers::from_bits_truncate(modifiers), kind);
    input.handle_event(&Event::Key(event));
}

} // verus!
