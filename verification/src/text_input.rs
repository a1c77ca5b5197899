//! Text input fields: an editable text area with a placeholder, optional
//! multiple lines, a length limit, a required flag and a pattern that the
//! text must match, and what the field shows around the text.

use vstd::prelude::*;
use crate::text::copy_text;
use vstd::string::*;
use crate::component::{
    CommonComponentState, ComponentEvent, ComponentId, ComponentResult, FocusState, ValidationState,
    required_message,
};
use crate::keys::{KeyCode, KeyEvent, KeyModifiers};
use crate::select::{field_border_spec, field_border_style};
use crate::style::CellStyle;
use tui_textarea::Key;
use crate::text::{chars_of, decimal, decimal_text, join_strings, join_with, strings_view, utf8_len, utf8_length};

verus! {

/// The multi-line text editor of the `tui_textarea` crate, held opaque.
#[verifier::external_body]
#[derive(Debug)]
pub struct EditorBuffer {
    inner: tui_textarea::TextArea<'static>,
}

impl Clone for EditorBuffer {
    /// Calls `TextArea::clone`, which the crate derives: the copy holds the
    /// same lines, cursor and selection.
    #[verifier::external_body]
    fn clone(&self) -> (r: Self)
        ensures
            textarea_contents(r) == textarea_contents(*self),
            textarea_cursor_state(r) == textarea_cursor_state(*self),
    {
        EditorBuffer { inner: self.inner.clone() }
    }
}

/// The lines of text held by a text area.
pub uninterp spec fn textarea_contents(t: EditorBuffer) -> Seq<Seq<char>>;

/// The row and column of a text area's cursor, and where its selection
/// starts when text is being selected.
pub uninterp spec fn textarea_cursor_state(t: EditorBuffer) -> (int, int, Option<(int, int)>);

/// The lines of a text as the editor takes them: split at each newline,
/// with a carriage return at the end of a line dropped.
pub open spec fn text_pieces(s: Seq<char>) -> Seq<Seq<char>> {
    split_lines(s).map_values(|p: Seq<char>| strip_cr(p))
}

/// A text split at each newline: one piece more than there are newlines.
pub open spec fn split_lines(s: Seq<char>) -> Seq<Seq<char>>
    decreases s.len(),
{
    if s.len() == 0 {
        seq![Seq::<char>::empty()]
    } else {
        let rest = split_lines(s.drop_last());
        if s.last() == '\n' {
            rest.push(Seq::<char>::empty())
        } else {
            rest.update(rest.len() - 1, rest.last().push(s.last()))
        }
    }
}

/// A line without the carriage return that may end it.
pub open spec fn strip_cr(p: Seq<char>) -> Seq<char> {
    if p.len() > 0 && p.last() == '\r' {
        p.drop_last()
    } else {
        p
    }
}

/// Where selecting everything puts the cursor: the last line and its end,
/// each as far as a 16-bit jump reaches.
pub open spec fn select_all_cursor(lines: Seq<Seq<char>>) -> (int, int) {
    let row = if lines.len() - 1 <= 65535 { lines.len() - 1 } else { 65535 };
    let len = lines[row].len() as int;
    (row, if len <= 65535 { len } else { 65535 })
}

/// The cursor is at the end of the text and the selection starts at its
/// beginning: the whole text is selected.
pub open spec fn whole_text_selected(t: EditorBuffer) -> bool {
    let c = textarea_contents(t);
    let (row, col, sel) = textarea_cursor_state(t);
    &&& c.len() > 0
    &&& row == c.len() - 1
    &&& col == c.last().len()
    &&& sel == Some((0int, 0int))
}

/// The text is one empty line, the cursor at its start and nothing
/// selected.
pub open spec fn empty_at_start(t: EditorBuffer) -> bool {
    &&& textarea_contents(t) == seq![Seq::<char>::empty()]
    &&& textarea_cursor_state(t) == (0int, 0int, None::<(int, int)>)
}

/// Selecting everything reaches the end of the text: it has at most 65536
/// lines and its last line at most 65535 characters.
pub open spec fn select_all_reaches_end(lines: Seq<Seq<char>>) -> bool {
    0 < lines.len() <= 65536 && lines.last().len() <= 65535
}

/// Calls `TextArea::default`, which holds one empty line with the cursor at
/// its start and nothing selected.
#[verifier::external_body]
fn textarea_new() -> (r: EditorBuffer)
    ensures
        empty_at_start(r),
{
    EditorBuffer { inner: tui_textarea::TextArea::default() }
}

/// Calls `TextArea::set_placeholder_text`, which sets the placeholder and
/// leaves the text, cursor and selection as they are.
#[verifier::external_body]
fn textarea_set_placeholder(t: &mut EditorBuffer, placeholder: &str)
    ensures
        textarea_contents(*final(t)) == textarea_contents(*old(t)),
        textarea_cursor_state(*final(t)) == textarea_cursor_state(*old(t)),
{
    t.inner.set_placeholder_text(placeholder);
}

/// Calls `TextArea::set_tab_length`, which sets the width of a tab and
/// leaves the text, cursor and selection as they are.
#[verifier::external_body]
fn textarea_set_tab_length(t: &mut EditorBuffer, len: u8)
    ensures
        textarea_contents(*final(t)) == textarea_contents(*old(t)),
        textarea_cursor_state(*final(t)) == textarea_cursor_state(*old(t)),
{
    t.inner.set_tab_length(len);
}

/// Calls `TextArea::set_hard_tab_indent`, which chooses how a tab indents
/// and leaves the text, cursor and selection as they are.
#[verifier::external_body]
fn textarea_set_hard_tab_indent(t: &mut EditorBuffer, enabled: bool)
    ensures
        textarea_contents(*final(t)) == textarea_contents(*old(t)),
        textarea_cursor_state(*final(t)) == textarea_cursor_state(*old(t)),
{
    t.inner.set_hard_tab_indent(enabled);
}

/// Calls `TextArea::select_all`: the cursor jumps to the end of the text
/// (a jump reaches at most row and column 65535) and the selection starts
/// at its beginning; the text is as it was.
#[verifier::external_body]
fn textarea_select_all(t: &mut EditorBuffer)
    ensures
        textarea_contents(*final(t)) == textarea_contents(*old(t)),
        textarea_contents(*old(t)).len() > 0 ==> ({
            let (row, col) = select_all_cursor(textarea_contents(*old(t)));
            textarea_cursor_state(*final(t)) == (row, col, Some((0int, 0int)))
        }),
{
    t.inner.select_all();
}

/// Calls `TextArea::insert_str`. With nothing selected and the cursor
/// inside the text, the text, split into its lines, goes in at the cursor:
/// its first line joins the part of the cursor's line before the cursor,
/// its last line the part after it, and the lines between come in between;
/// the cursor ends after the inserted text and nothing is selected. With a
/// selection, the selection is deleted first, and what the text becomes is
/// not stated.
#[verifier::external_body]
fn textarea_insert_str(t: &mut EditorBuffer, s: &str) -> (r: bool)
    ensures
        empty_at_start(*old(t)) ==> textarea_contents(*final(t)) == text_pieces(s@),
        ({
            let (row, col, sel) = textarea_cursor_state(*old(t));
            let lines = textarea_contents(*old(t));
            (sel is None && cursor_in_text(lines, row, col)) ==> {
                let (nrow, ncol) = cursor_after_splice(row, col, text_pieces(s@));
                &&& textarea_contents(*final(t)) == spliced_lines(lines, row, col, text_pieces(s@))
                &&& textarea_cursor_state(*final(t)) == (nrow, ncol, None::<(int, int)>)
            }
        }),
{
    t.inner.insert_str(s)
}

/// Calls `TextArea::delete_str`. When the whole text is selected, the
/// selection is deleted: one empty line remains, the cursor at its start
/// and nothing selected. Elsewhere what the text becomes depends on the
/// cursor and the selection, and is not stated.
#[verifier::external_body]
fn textarea_delete_str(t: &mut EditorBuffer, chars: usize) -> (r: bool)
    ensures
        whole_text_selected(*old(t)) ==> empty_at_start(*final(t)),
{
    t.inner.delete_str(chars)
}

/// Calls `TextArea::lines`, which gives the lines of text.
#[verifier::external_body]
fn textarea_lines<'b>(t: &'b EditorBuffer) -> (r: &'b [String])
    ensures
        r@.map_values(|s: String| s@) == textarea_contents(*t),
{
    t.inner.lines()
}

/// Calls `TextArea::cursor`, the row and column of the cursor.
#[verifier::external_body]
fn textarea_cursor(t: &EditorBuffer) -> (r: (usize, usize))
    ensures
        r.0 == textarea_cursor_state(*t).0,
        r.1 == textarea_cursor_state(*t).1,
{
    t.inner.cursor()
}

/// A key of the text editor.
#[derive(Debug, Clone, Copy, PartialEq, Eq, Structural)]
pub enum TextKey {
    Char(char),
    F(u8),
    Backspace,
    Enter,
    Left,
    Right,
    Up,
    Down,
    Tab,
    Delete,
    Home,
    End,
    PageUp,
    PageDown,
    Esc,
    Null,
}

/// A key press for the text editor.
#[derive(Debug, Clone, Copy, PartialEq, Eq, Structural)]
pub struct TextKeyInput {
    pub key: TextKey,
    pub ctrl: bool,
    pub alt: bool,
    pub shift: bool,
}

/// A key that the text editor acts on. Of the keys of `TextKey`, the editor
/// does nothing with Esc, the function keys and Null.
#[derive(Debug, Clone, Copy, PartialEq, Eq, Structural)]
pub enum EditorKey {
    Char(char),
    Backspace,
    Enter,
    Left,
    Right,
    Up,
    Down,
    Tab,
    Delete,
    Home,
    End,
    PageUp,
    PageDown,
}

/// Calls `TextArea::input` with a key, given as the `tui_textarea::Key`
/// variant of the same name, and the state of Ctrl, Alt and Shift; the
/// editor reports whether it handled the key as an edit. What its key map
/// fixes, and is stated here:
/// - except for the paste key (Ctrl+Y without Alt), which deletes the
///   selection and then reports only whether the pasted text was empty, a
///   key reported as no edit leaves the lines as they were;
/// - Enter, and a character typed without Ctrl or Alt, are edits; a
///   character other than a line break, typed with nothing selected and
///   the cursor inside the text, goes in at the cursor, which moves one
///   column on;
/// - Backspace without Ctrl or Alt, with nothing selected and the cursor
///   after the first column of its line, removes the character before the
///   cursor, which moves one column back;
/// - the arrows, Home, End, Page Up and Page Down only move the cursor or
///   scroll, and are no edit;
/// - Ctrl without Alt on a letter that the key map does not bind (g, i, l,
///   o, q, s, t, z) does nothing at all.
/// Other edits depend on the selection, the undo history and the yank
/// buffer, and are not stated.
#[verifier::external_body]
fn textarea_input(t: &mut EditorBuffer, k: EditorKey, ctrl: bool, alt: bool, shift: bool) -> (r: bool)
    ensures
        !r && !(k == EditorKey::Char('y') && ctrl && !alt)
            ==> textarea_contents(*final(t)) == textarea_contents(*old(t)),
        (k == EditorKey::Enter || (k is Char && !ctrl && !alt)) ==> r,
        moves_only(k) ==> !r,
        ({
            let (row, col, sel) = textarea_cursor_state(*old(t));
            let lines = textarea_contents(*old(t));
            &&& (k matches EditorKey::Char(c) && !ctrl && !alt && c != '\n' && c != '\r'
                && sel is None && cursor_in_text(lines, row, col)) ==> {
                &&& textarea_contents(*final(t)) == insert_char_at(lines, row, col, k->Char_0)
                &&& textarea_cursor_state(*final(t)) == (row, col + 1, None::<(int, int)>)
            }
            &&& (k == EditorKey::Backspace && !ctrl && !alt && sel is None
                && cursor_in_text(lines, row, col) && col > 0) ==> {
                &&& r
                &&& textarea_contents(*final(t)) == remove_char_before(lines, row, col)
                &&& textarea_cursor_state(*final(t)) == (row, col - 1, None::<(int, int)>)
            }
        }),
        (k matches EditorKey::Char(c) && ctrl && !alt && unbound_ctrl_letter(c)) ==> !r && *final(t) == *old(t),
{
    t.inner.input(tui_textarea::Input { key: match k {
        EditorKey::Char(c) => Key::Char(c), EditorKey::Backspace => Key::Backspace,
        EditorKey::Enter => Key::Enter, EditorKey::Left => Key::Left,
        EditorKey::Right => Key::Right, EditorKey::Up => Key::Up,
        EditorKey::Down => Key::Down, EditorKey::Tab => Key::Tab,
        EditorKey::Delete => Key::Delete, EditorKey::Home => Key::Home,
        EditorKey::End => Key::End, EditorKey::PageUp => Key::PageUp,
        EditorKey::PageDown => Key::PageDown,
    }, ctrl, alt, shift })
}

/// Whether a row and column lie inside the lines: on a line, and at most
/// at its end.
pub open spec fn cursor_in_text(lines: Seq<Seq<char>>, row: int, col: int) -> bool {
    0 <= row < lines.len() && 0 <= col <= lines[row].len()
}

/// The lines with text, given as its lines `pieces` (at least one), put
/// in at a row and column: the first piece follows the part of that line
/// before the column, the last piece is followed by the part after it, and
/// the pieces between become lines of their own.
pub open spec fn spliced_lines(lines: Seq<Seq<char>>, row: int, col: int, pieces: Seq<Seq<char>>) -> Seq<Seq<char>> {
    let before = lines[row].take(col);
    let after = lines[row].skip(col);
    let n = pieces.len();
    let middle = if n == 1 {
        seq![before + pieces[0] + after]
    } else {
        seq![before + pieces[0]] + pieces.subrange(1, n - 1) + seq![pieces[n - 1] + after]
    };
    lines.take(row) + middle + lines.skip(row + 1)
}

/// Where the cursor ends after text given as its lines `pieces` is put in
/// at a row and column: after the last piece.
pub open spec fn cursor_after_splice(row: int, col: int, pieces: Seq<Seq<char>>) -> (int, int) {
    let n = pieces.len();
    if n == 1 {
        (row, col + pieces[0].len())
    } else {
        (row + n - 1, pieces[n - 1].len() as int)
    }
}

/// The lines with a character put in at a row and column.
pub open spec fn insert_char_at(lines: Seq<Seq<char>>, row: int, col: int, c: char) -> Seq<Seq<char>> {
    lines.update(row, lines[row].take(col).push(c) + lines[row].skip(col))
}

/// The lines with the character before a row and column taken out.
pub open spec fn remove_char_before(lines: Seq<Seq<char>>, row: int, col: int) -> Seq<Seq<char>> {
    lines.update(row, lines[row].take(col - 1) + lines[row].skip(col))
}

/// The letters that the editor's key map binds to nothing when typed with
/// Ctrl and without Alt.
pub open spec fn unbound_ctrl_letter(c: char) -> bool {
    c == 'g' || c == 'i' || c == 'l' || c == 'o' || c == 'q' || c == 's' || c == 't' || c == 'z'
}

/// The keys with which the editor only moves the cursor or scrolls.
pub open spec fn moves_only(k: EditorKey) -> bool {
    ||| k == EditorKey::Left
    ||| k == EditorKey::Right
    ||| k == EditorKey::Up
    ||| k == EditorKey::Down
    ||| k == EditorKey::Home
    ||| k == EditorKey::End
    ||| k == EditorKey::PageUp
    ||| k == EditorKey::PageDown
}

/// The key that reaches the editor for a key of `TextKey`: none for the
/// keys that it does nothing with.
pub open spec fn acted_key(k: TextKey) -> Option<EditorKey> {
    match k {
        TextKey::Char(c) => Some(EditorKey::Char(c)),
        TextKey::Backspace => Some(EditorKey::Backspace),
        TextKey::Enter => Some(EditorKey::Enter),
        TextKey::Left => Some(EditorKey::Left),
        TextKey::Right => Some(EditorKey::Right),
        TextKey::Up => Some(EditorKey::Up),
        TextKey::Down => Some(EditorKey::Down),
        TextKey::Tab => Some(EditorKey::Tab),
        TextKey::Delete => Some(EditorKey::Delete),
        TextKey::Home => Some(EditorKey::Home),
        TextKey::End => Some(EditorKey::End),
        TextKey::PageUp => Some(EditorKey::PageUp),
        TextKey::PageDown => Some(EditorKey::PageDown),
        TextKey::F(_) | TextKey::Esc | TextKey::Null => None,
    }
}

/// The key that reaches the editor for a key of `TextKey`.
pub fn acted_key_of(k: TextKey) -> (r: Option<EditorKey>)
    ensures
        r == acted_key(k),
{
    match k {
        TextKey::Char(c) => Some(EditorKey::Char(c)),
        TextKey::Backspace => Some(EditorKey::Backspace),
        TextKey::Enter => Some(EditorKey::Enter),
        TextKey::Left => Some(EditorKey::Left),
        TextKey::Right => Some(EditorKey::Right),
        TextKey::Up => Some(EditorKey::Up),
        TextKey::Down => Some(EditorKey::Down),
        TextKey::Tab => Some(EditorKey::Tab),
        TextKey::Delete => Some(EditorKey::Delete),
        TextKey::Home => Some(EditorKey::Home),
        TextKey::End => Some(EditorKey::End),
        TextKey::PageUp => Some(EditorKey::PageUp),
        TextKey::PageDown => Some(EditorKey::PageDown),
        TextKey::F(_) | TextKey::Esc | TextKey::Null => None,
    }
}

/// Whether a text matches a regular expression, as the `regex` crate
/// decides it: `None` when the pattern is not a valid expression.
pub uninterp spec fn regex_outcome(pattern: Seq<char>, text: Seq<char>) -> Option<bool>;

/// Calls `regex::Regex::new` on the pattern and, when it compiles,
/// `Regex::is_match` on the text. The outcome depends on the pattern and the
/// text alone; it is named `regex_outcome`.
#[verifier::external_body]
fn pattern_matches(pattern: &str, text: &str) -> (r: Option<bool>)
    ensures
        r == regex_outcome(pattern@, text@),
{
    match regex::Regex::new(pattern) {
        Ok(re) => Some(re.is_match(text)),
        Err(_) => None,
    }
}

/// Whether a character is white space (the Unicode `White_Space` property,
/// as `char::is_whitespace` has it).
pub open spec fn is_space(c: char) -> bool {
    ||| ('\u{9}' <= c && c <= '\u{D}')
    ||| c == ' '
    ||| c == '\u{85}'
    ||| c == '\u{A0}'
    ||| c == '\u{1680}'
    ||| ('\u{2000}' <= c && c <= '\u{200A}')
    ||| c == '\u{2028}'
    ||| c == '\u{2029}'
    ||| c == '\u{202F}'
    ||| c == '\u{205F}'
    ||| c == '\u{3000}'
}

/// Whether a text is empty or all white space.
pub open spec fn is_blank(s: Seq<char>) -> bool {
    forall|i: int| 0 <= i < s.len() ==> is_space(#[trigger] s[i])
}

/// Whether a character is white space.
pub fn char_is_space(c: char) -> (r: bool)
    ensures
        r == is_space(c),
{
    ('\u{9}' <= c && c <= '\u{D}') || c == ' ' || c == '\u{85}' || c == '\u{A0}' || c == '\u{1680}'
        || ('\u{2000}' <= c && c <= '\u{200A}') || c == '\u{2028}' || c == '\u{2029}' || c == '\u{202F}'
        || c == '\u{205F}' || c == '\u{3000}'
}

/// Whether a text is empty or all white space.
pub fn text_is_blank(s: &str) -> (r: bool)
    ensures
        r == is_blank(s@),
{
    let cs = chars_of(s);
    let mut i: usize = 0;
    while i < cs.len()
        invariant
            cs@ == s@,
            i <= cs@.len(),
            forall|j: int| 0 <= j < i ==> is_space(#[trigger] s@[j]),
        decreases cs@.len() - i,
    {
        if !char_is_space(cs[i]) {
            return false;
        }
        i += 1;
    }
    true
}

/// The text of a text area: its lines joined by newlines.
pub open spec fn text_of(lines: Seq<Seq<char>>) -> Seq<char> {
    join_with(lines, "\n"@)
}

/// The validation of a text: blank where required, not matching a valid
/// pattern, longer in bytes than the limit, or valid.
pub open spec fn text_validation(p: TextInputProps, text: Seq<char>, byte_len: nat, vs: ValidationState, msg: Option<String>) -> bool {
    let pattern_fails = match p.validation_pattern {
        Some(pat) => regex_outcome(pat@, text) == Some(false),
        None => false,
    };
    if p.required && is_blank(text) {
        &&& vs matches ValidationState::Invalid(m) && m@ == "This field is required"@
        &&& msg matches Some(m) && m@ == "This field is required"@
    } else if pattern_fails {
        &&& vs matches ValidationState::Invalid(m) && m@ == "Invalid format"@
        &&& msg matches Some(m) && m@ == "Invalid format"@
    } else if p.max_length is Some && byte_len > p.max_length->0 {
        let t = "Text exceeds maximum length of "@ + decimal(p.max_length->0 as nat);
        &&& vs matches ValidationState::Invalid(m) && m@ == t
        &&& msg matches Some(m) && m@ == t
    } else {
        vs == ValidationState::Valid && msg is None
    }
}

/// A text with a character other than white space, whose pattern (when it
/// has one that compiles) it matches, and whose UTF-8 length passes the
/// field's maximum, is invalid for exceeding that maximum, whether the
/// field is required or not.
pub proof fn lemma_too_long_is_invalid(
    p: TextInputProps,
    text: Seq<char>,
    vs: ValidationState,
    msg: Option<String>,
    c: int,
)
    requires
        text_validation(p, text, utf8_length(text), vs, msg),
        0 <= c < text.len() && !is_space(text[c]),
        p.validation_pattern matches Some(pat) ==> regex_outcome(pat@, text) != Some(false),
        p.max_length matches Some(m) && utf8_length(text) > m,
    ensures
        vs matches ValidationState::Invalid(s) && s@ == "Text exceeds maximum length of "@ + decimal(p.max_length->0 as nat),
        msg matches Some(s) && s@ == "Text exceeds maximum length of "@ + decimal(p.max_length->0 as nat),
{
    assert(!is_blank(text));
}

/// A required field left blank (empty or white space only) is invalid
/// for it, whatever its pattern and length; otherwise a text that fails a
/// pattern that compiles is invalid for its format, whatever its length.
pub proof fn lemma_required_then_format(p: TextInputProps, text: Seq<char>, vs: ValidationState, msg: Option<String>)
    requires
        text_validation(p, text, utf8_length(text), vs, msg),
    ensures
        (p.required && forall|c: int| 0 <= c < text.len() ==> is_space(#[trigger] text[c])) ==> {
            &&& vs matches ValidationState::Invalid(s) && s@ == "This field is required"@
            &&& msg matches Some(s) && s@ == "This field is required"@
        },
        (!(p.required && forall|c: int| 0 <= c < text.len() ==> is_space(#[trigger] text[c]))
            && (p.validation_pattern matches Some(pat) && regex_outcome(pat@, text) == Some(false))) ==> {
            &&& vs matches ValidationState::Invalid(s) && s@ == "Invalid format"@
            &&& msg matches Some(s) && s@ == "Invalid format"@
        },
{
}

/// A text that matches its pattern (when it has one that compiles), is not
/// left blank on a required field, and keeps within the maximum length
/// (when there is one) is valid, with no message.
pub proof fn lemma_acceptable_is_valid(p: TextInputProps, text: Seq<char>, vs: ValidationState, msg: Option<String>)
    requires
        text_validation(p, text, utf8_length(text), vs, msg),
        p.required ==> exists|c: int| 0 <= c < text.len() && !is_space(#[trigger] text[c]),
        p.validation_pattern matches Some(pat) ==> regex_outcome(pat@, text) != Some(false),
        p.max_length matches Some(m) ==> utf8_length(text) <= m,
    ensures
        vs == ValidationState::Valid,
        msg is None,
{
}

/// Configuration of a text input.
#[derive(Debug, Clone)]
pub struct TextInputProps {
    pub id: ComponentId,
    pub placeholder: String,
    pub title: String,
    pub multiline: bool,
    pub max_length: Option<usize>,
    pub required: bool,
    pub readonly: bool,
    pub tab_length: u8,
    pub initial_value: String,
    pub validation_pattern: Option<String>,
    pub help_text: Option<String>,
}

impl Default for TextInputProps {
    fn default() -> (r: Self)
        ensures
            r.id@ == "text_input"@,
            r.placeholder@.len() == 0 && r.title@.len() == 0 && r.initial_value@.len() == 0,
            !r.multiline && !r.required && !r.readonly,
            r.max_length is None && r.validation_pattern is None && r.help_text is None,
            r.tab_length == 4,
    {
        TextInputProps {
            id: ComponentId::new("text_input"),
            placeholder: String::new(),
            title: String::new(),
            multiline: false,
            max_length: None,
            required: false,
            readonly: false,
            tab_length: 4,
            initial_value: String::new(),
            validation_pattern: None,
            help_text: None,
        }
    }
}

/// A row and column in a text.
#[derive(Debug, Clone, Copy, PartialEq, Eq, Structural)]
pub struct TextPosition {
    pub row: usize,
    pub col: usize,
}

/// State of a text input.
#[derive(Debug, Clone)]
pub struct TextInputState {
    pub common: CommonComponentState,
    pub last_validation_message: Option<String>,
    pub cursor_position: TextPosition,
    pub scroll_offset: TextPosition,
}

impl Default for TextInputState {
    fn default() -> (r: Self)
        ensures
            r.last_validation_message is None,
            r.cursor_position == (TextPosition { row: 0, col: 0 }),
            r.scroll_offset == (TextPosition { row: 0, col: 0 }),
            r.common.focus_state == FocusState::Unfocused,
            !r.common.dirty,
    {
        TextInputState {
            common: CommonComponentState::default(),
            last_validation_message: None,
            cursor_position: TextPosition { row: 0, col: 0 },
            scroll_offset: TextPosition { row: 0, col: 0 },
        }
    }
}

/// The editor key of a terminal key press: the keys the editor knows map to
/// themselves (Back-Tab to Tab), the others to no key.
pub open spec fn editor_key(code: KeyCode) -> TextKey {
    match code {
        KeyCode::Char(c) => TextKey::Char(c),
        KeyCode::Enter => TextKey::Enter,
        KeyCode::Left => TextKey::Left,
        KeyCode::Right => TextKey::Right,
        KeyCode::Up => TextKey::Up,
        KeyCode::Down => TextKey::Down,
        KeyCode::Home => TextKey::Home,
        KeyCode::End => TextKey::End,
        KeyCode::PageUp => TextKey::PageUp,
        KeyCode::PageDown => TextKey::PageDown,
        KeyCode::Tab => TextKey::Tab,
        KeyCode::BackTab => TextKey::Tab,
        KeyCode::Delete => TextKey::Delete,
        KeyCode::Backspace => TextKey::Backspace,
        KeyCode::Insert => TextKey::Null,
        KeyCode::Esc => TextKey::Esc,
        KeyCode::F(n) => TextKey::F(n),
        _ => TextKey::Null,
    }
}

/// Whether a key press is the editor's paste key: Ctrl+Y without Alt.
pub open spec fn is_paste(input: TextKeyInput) -> bool {
    input.key == TextKey::Char('y') && input.ctrl && !input.alt
}

/// The events of a key press on a text field `id` whose text goes from
/// `before` to `after`: one value change when the editor handled the key as
/// an edit and the text changed, else none.
pub open spec fn text_change_events(
    events: Seq<ComponentEvent>,
    id: Seq<char>,
    before: Seq<char>,
    after: Seq<char>,
    handled: bool,
) -> bool {
    if handled && after != before {
        &&& events.len() == 1
        &&& events[0] matches ComponentEvent::ValueChanged { component_id, old_value, new_value }
            && component_id@ == id && old_value@ == before && new_value@ == after
    } else {
        events.len() == 0
    }
}

/// Whether two text fields show the same: identifier, configuration,
/// state, lines, cursor and selection.
pub open spec fn same_views(a: TextInput, b: TextInput) -> bool {
    &&& a.id_view() == b.id_view()
    &&& a.props_view() == b.props_view()
    &&& a.state_view() == b.state_view()
    &&& a.lines_view() == b.lines_view()
    &&& a.cursor_view() == b.cursor_view()
    &&& a.selection_view() == b.selection_view()
}

/// Whether a key press leaves a text field exactly as it was: it is
/// refused, the editor does not take its key, or it is Ctrl with a letter
/// the editor binds to nothing.
pub open spec fn input_ignored(o: TextInput, input: TextKeyInput) -> bool {
    ||| o.refuses(input)
    ||| acted_key(input.key) is None
    ||| (input.key matches TextKey::Char(c) && input.ctrl && !input.alt && unbound_ctrl_letter(c))
}

/// What handing the key press `input` to a text field does, taking it from
/// `o` to `f` and reporting `r`, whether the editor handled it as an edit.
pub open spec fn input_post(o: TextInput, f: TextInput, input: TextKeyInput, r: bool) -> bool {
    let row = o.cursor_view().0;
    let col = o.cursor_view().1;
    let lines = o.lines_view();
    let plain = !input.ctrl && !input.alt;
    let at_cursor = o.selection_view() is None && cursor_in_text(lines, row, col);
    &&& o.refuses(input) ==> !r && same_views(f, o)
    &&& acted_key(input.key) is None ==> !r && same_views(f, o)
    &&& (input.key matches TextKey::Char(c) && input.ctrl && !input.alt && unbound_ctrl_letter(c)) ==> !r && same_views(f, o)
    &&& !o.refuses(input) && (input.key == TextKey::Enter || (input.key is Char && plain)) ==> r
    &&& (acted_key(input.key) matches Some(k) && moves_only(k)) ==> !r
    &&& (!o.refuses(input) && plain && at_cursor && (input.key matches TextKey::Char(c) && c != '\n' && c != '\r')) ==> {
        &&& f.lines_view() == insert_char_at(lines, row, col, input.key->Char_0)
        &&& f.cursor_view() == (row, col + 1)
    }
    &&& (!o.refuses(input) && plain && at_cursor && input.key == TextKey::Backspace && col > 0) ==> {
        &&& r
        &&& f.lines_view() == remove_char_before(lines, row, col)
        &&& f.cursor_view() == (row, col - 1)
    }
    &&& !r && !is_paste(input) ==> f.lines_view() == o.lines_view()
    &&& !r ==> f.state_view().common == o.state_view().common
    &&& r ==> f.state_view().common.dirty && f.validated()
    &&& r ==> f.state_view().cursor_position.row == f.cursor_view().0
        && f.state_view().cursor_position.col == f.cursor_view().1
    &&& f.props_view() == o.props_view()
    &&& f.id_view() == o.id_view()
    &&& f.state_view().common.focus_state == o.state_view().common.focus_state
}

/// A text input field.
#[derive(Debug)]
pub struct TextInput {
    id: ComponentId,
    props: TextInputProps,
    state: TextInputState,
    textarea: EditorBuffer,
}

impl Clone for TextInput {
    /// A copy with the same identifier, configuration and state, whose
    /// editor holds the same lines, cursor and selection.
    fn clone(&self) -> (r: Self)
        ensures
            same_views(r, *self),
    {
        let props = TextInputProps {
            id: self.props.id.duplicate(),
            placeholder: self.props.placeholder.clone(),
            title: self.props.title.clone(),
            multiline: self.props.multiline,
            max_length: self.props.max_length,
            required: self.props.required,
            readonly: self.props.readonly,
            tab_length: self.props.tab_length,
            initial_value: self.props.initial_value.clone(),
            validation_pattern: copy_text(&self.props.validation_pattern),
            help_text: copy_text(&self.props.help_text),
        };
        let state = TextInputState {
            common: self.state.common.duplicate(),
            last_validation_message: copy_text(&self.state.last_validation_message),
            cursor_position: self.state.cursor_position,
            scroll_offset: self.state.scroll_offset,
        };
        TextInput { id: self.id.duplicate(), props, state, textarea: self.textarea.clone() }
    }
}

impl TextInput {
    pub closed spec fn id_view(&self) -> Seq<char> {
        self.id@
    }

    pub closed spec fn props_view(&self) -> TextInputProps {
        self.props
    }

    pub closed spec fn state_view(&self) -> TextInputState {
        self.state
    }

    /// The lines of text.
    pub closed spec fn lines_view(&self) -> Seq<Seq<char>> {
        textarea_contents(self.textarea)
    }

    /// The row and column of the editor's cursor.
    pub closed spec fn cursor_view(&self) -> (int, int) {
        (textarea_cursor_state(self.textarea).0, textarea_cursor_state(self.textarea).1)
    }

    /// The text: the lines joined by newlines.
    pub open spec fn text_view(&self) -> Seq<char> {
        text_of(self.lines_view())
    }

    /// The current text.
    pub fn text(&self) -> (r: String)
        ensures
            r@ == self.text_view(),
    {
        let lines = textarea_lines(&self.textarea);
        let mut v: Vec<String> = Vec::new();
        let mut i: usize = 0;
        while i < lines.len()
            invariant
                i <= lines@.len(),
                lines@.map_values(|s: String| s@) == self.lines_view(),
                strings_view(v@) == self.lines_view().take(i as int),
            decreases lines@.len() - i,
        {
            let ghost before = v@;
            v.push(lines[i].clone());
            assert(strings_view(v@) =~= strings_view(before).push(lines@[i as int]@));
            assert(strings_view(v@) =~= self.lines_view().take(i + 1));
            i += 1;
        }
        assert(self.lines_view().take(i as int) =~= self.lines_view());
        join_strings(&v, "\n")
    }

    /// The lines of text.
    pub fn lines(&self) -> (r: &[String])
        ensures
            r@.map_values(|s: String| s@) == self.lines_view(),
    {
        textarea_lines(&self.textarea)
    }

    /// Set the validation of the current text.
    fn validate_content(&mut self)
        ensures
            text_validation(
                final(self).props_view(),
                final(self).text_view(),
                utf8_length(final(self).text_view()),
                final(self).state_view().common.validation_state,
                final(self).state_view().last_validation_message,
            ),
            final(self).lines_view() == old(self).lines_view(),
            final(self).cursor_view() == old(self).cursor_view(),
            final(self).state_view().cursor_position == old(self).state_view().cursor_position,
            final(self).props_view() == old(self).props_view(),
            final(self).id_view() == old(self).id_view(),
            final(self).state_view().common.focus_state == old(self).state_view().common.focus_state,
            final(self).state_view().common.dirty == old(self).state_view().common.dirty,
            final(self).state_view().cursor_position == old(self).state_view().cursor_position,
    {
        let text = self.text();
        let ghost t = text@;
        if self.props.required && text_is_blank(text.as_str()) {
            self.state.common.validation_state = ValidationState::Invalid(required_message());
            self.state.last_validation_message = Some(required_message());
            return;
        }
        match &self.props.validation_pattern {
            Some(pattern) => {
                match pattern_matches(pattern.as_str(), text.as_str()) {
                    Some(false) => {
                        self.state.common.validation_state = ValidationState::Invalid("Invalid format".to_owned());
                        self.state.last_validation_message = Some("Invalid format".to_owned());
                        return;
                    },
                    _ => {},
                }
            },
            None => {},
        }
        match self.props.max_length {
            Some(max) => {
                if utf8_len(text.as_str()) > max as u128 {
                    let mut msg = "Text exceeds maximum length of ".to_owned();
                    let n = decimal_text(max as u64);
                    msg.append(n.as_str());
                    self.state.common.validation_state = ValidationState::Invalid(msg.clone());
                    self.state.last_validation_message = Some(msg);
                    return;
                }
            },
            None => {},
        }
        self.state.common.validation_state = ValidationState::Valid;
        self.state.last_validation_message = None;
    }

    /// The text input checks its text whenever it is set: the validation
    /// state and message agree with the text.
    pub open spec fn validated(&self) -> bool {
        text_validation(
            self.props_view(),
            self.text_view(),
            utf8_length(self.text_view()),
            self.state_view().common.validation_state,
            self.state_view().last_validation_message,
        )
    }

    /// A text input with the configuration: the placeholder and tab length
    /// are set, the initial value is inserted, and the text is validated.
    pub fn new(props: TextInputProps) -> (r: Self)
        ensures
            r.id_view() == props.id@,
            r.props_view() == props,
            r.lines_view() == text_pieces(props.initial_value@),
            r.validated(),
            r.state_view().common.focus_state == FocusState::Unfocused,
            !r.state_view().common.dirty,
    {
        let mut textarea = textarea_new();
        textarea_set_placeholder(&mut textarea, props.placeholder.as_str());
        textarea_set_tab_length(&mut textarea, props.tab_length);
        if !props.initial_value.as_str().is_empty() {
            let _ = textarea_insert_str(&mut textarea, props.initial_value.as_str());
        } else {
            assert(props.initial_value@ =~= Seq::<char>::empty());
            assert(text_pieces(props.initial_value@) =~= seq![Seq::<char>::empty()]);
        }
        if !props.multiline {
            textarea_set_hard_tab_indent(&mut textarea, false);
        }
        let mut instance = TextInput { id: props.id.duplicate(), props, state: TextInputState::default(), textarea };
        instance.validate_content();
        instance
    }

    /// Set the placeholder.
    pub fn with_placeholder(self, placeholder: &str) -> (r: Self)
        ensures
            r.props_view().placeholder@ == placeholder@,
            r.props_view() == (TextInputProps { placeholder: r.props_view().placeholder, ..self.props_view() }),
            r.lines_view() == self.lines_view(),
            r.state_view() == self.state_view(),
            r.id_view() == self.id_view(),
    {
        let mut s = self;
        s.props.placeholder = placeholder.to_owned();
        textarea_set_placeholder(&mut s.textarea, placeholder);
        s
    }

    /// Set the title.
    pub fn with_title(self, title: &str) -> (r: Self)
        ensures
            r.props_view().title@ == title@,
            r.props_view() == (TextInputProps { title: r.props_view().title, ..self.props_view() }),
            r.lines_view() == self.lines_view(),
            r.state_view() == self.state_view(),
            r.id_view() == self.id_view(),
    {
        let mut s = self;
        s.props.title = title.to_owned();
        s
    }

    /// Allow several lines.
    pub fn multiline(self, multiline: bool) -> (r: Self)
        ensures
            r.props_view() == (TextInputProps { multiline, ..self.props_view() }),
            r.lines_view() == self.lines_view(),
            r.state_view() == self.state_view(),
            r.id_view() == self.id_view(),
    {
        let mut s = self;
        s.props.multiline = multiline;
        if !multiline {
            textarea_set_hard_tab_indent(&mut s.textarea, false);
        }
        s
    }

    /// Require a text; the text is validated again.
    pub fn required(self, required: bool) -> (r: Self)
        ensures
            r.props_view() == (TextInputProps { required, ..self.props_view() }),
            r.lines_view() == self.lines_view(),
            r.validated(),
            r.id_view() == self.id_view(),
    {
        let mut s = self;
        s.props.required = required;
        s.validate_content();
        s
    }

    /// Forbid edits.
    pub fn readonly(self, readonly: bool) -> (r: Self)
        ensures
            r.props_view() == (TextInputProps { readonly, ..self.props_view() }),
            r.lines_view() == self.lines_view(),
            r.state_view() == self.state_view(),
            r.id_view() == self.id_view(),
    {
        let mut s = self;
        s.props.readonly = readonly;
        s
    }

    /// Limit the length, in bytes.
    pub fn max_length(self, max_length: usize) -> (r: Self)
        ensures
            r.props_view() == (TextInputProps { max_length: Some(max_length), ..self.props_view() }),
            r.lines_view() == self.lines_view(),
            r.state_view() == self.state_view(),
            r.id_view() == self.id_view(),
    {
        let mut s = self;
        s.props.max_length = Some(max_length);
        s
    }

    /// Set the pattern the text must match.
    pub fn with_validation_pattern(self, pattern: &str) -> (r: Self)
        ensures
            r.props_view().validation_pattern matches Some(p) && p@ == pattern@,
            r.props_view() == (TextInputProps { validation_pattern: r.props_view().validation_pattern, ..self.props_view() }),
            r.lines_view() == self.lines_view(),
            r.state_view() == self.state_view(),
            r.id_view() == self.id_view(),
    {
        let mut s = self;
        s.props.validation_pattern = Some(pattern.to_owned());
        s
    }

    /// Set the help text.
    pub fn with_help_text(self, help_text: &str) -> (r: Self)
        ensures
            r.props_view().help_text matches Some(h) && h@ == help_text@,
            r.props_view() == (TextInputProps { help_text: r.props_view().help_text, ..self.props_view() }),
            r.lines_view() == self.lines_view(),
            r.state_view() == self.state_view(),
            r.id_view() == self.id_view(),
    {
        let mut s = self;
        s.props.help_text = Some(help_text.to_owned());
        s
    }

    /// Replace the text with `value`, remembered as the initial value.
    pub fn with_initial_value(self, value: &str) -> (r: Self)
        ensures
            r.props_view().initial_value@ == value@,
            r.props_view() == (TextInputProps { initial_value: r.props_view().initial_value, ..self.props_view() }),
            select_all_reaches_end(self.lines_view()) ==> r.lines_view() == text_pieces(value@),
            r.state_view() == self.state_view(),
            r.id_view() == self.id_view(),
    {
        let mut s = self;
        s.props.initial_value = value.to_owned();
        textarea_select_all(&mut s.textarea);
        let bytes = s.text();
        let n = bytes.as_str().len();
        let _ = textarea_delete_str(&mut s.textarea, n);
        let _ = textarea_insert_str(&mut s.textarea, value);
        s
    }

    /// The identifier.
    pub fn id(&self) -> (r: &ComponentId)
        ensures
            r@ == self.id_view(),
    {
        &self.id
    }

    /// The configuration.
    pub fn props(&self) -> (r: &TextInputProps)
        ensures
            *r == self.props_view(),
    {
        &self.props
    }

    /// The state.
    pub fn state(&self) -> (r: &TextInputState)
        ensures
            *r == self.state_view(),
    {
        &self.state
    }

    /// Remove the whole text; the text is validated again.
    pub fn clear(&mut self)
        ensures
            select_all_reaches_end(old(self).lines_view()) ==> final(self).lines_view() == seq![Seq::<char>::empty()],
            final(self).validated(),
            final(self).state_view().common.dirty,
            final(self).props_view() == old(self).props_view(),
            final(self).id_view() == old(self).id_view(),
            final(self).state_view().common.focus_state == old(self).state_view().common.focus_state,
    {
        textarea_select_all(&mut self.textarea);
        let t = self.text();
        let n = t.as_str().len();
        let _ = textarea_delete_str(&mut self.textarea, n);
        self.state.common.mark_dirty();
        self.validate_content();
    }

    /// Replace the whole text; the text is validated again.
    pub fn set_text(&mut self, text: &str)
        ensures
            select_all_reaches_end(old(self).lines_view()) ==> final(self).lines_view() == text_pieces(text@),
            final(self).validated(),
            final(self).state_view().common.dirty,
            final(self).props_view() == old(self).props_view(),
            final(self).id_view() == old(self).id_view(),
            final(self).state_view().common.focus_state == old(self).state_view().common.focus_state,
    {
        textarea_select_all(&mut self.textarea);
        let t = self.text();
        let n = t.as_str().len();
        let _ = textarea_delete_str(&mut self.textarea, n);
        let _ = textarea_insert_str(&mut self.textarea, text);
        self.state.common.mark_dirty();
        self.validate_content();
    }

    /// Insert text at the cursor; the text is not validated again. With
    /// nothing selected and the cursor inside the text, the text's lines
    /// are spliced in at the cursor, which ends after them.
    pub fn insert_text(&mut self, text: &str)
        ensures
            (old(self).selection_view() is None
                && cursor_in_text(old(self).lines_view(), old(self).cursor_view().0, old(self).cursor_view().1)) ==> {
                &&& final(self).lines_view() == spliced_lines(
                    old(self).lines_view(),
                    old(self).cursor_view().0,
                    old(self).cursor_view().1,
                    text_pieces(text@),
                )
                &&& final(self).cursor_view() == cursor_after_splice(
                    old(self).cursor_view().0,
                    old(self).cursor_view().1,
                    text_pieces(text@),
                )
                &&& final(self).selection_view() is None
            },
            final(self).state_view().common.dirty,
            final(self).state_view().common.validation_state == old(self).state_view().common.validation_state,
            final(self).props_view() == old(self).props_view(),
            final(self).id_view() == old(self).id_view(),
            final(self).state_view().common.focus_state == old(self).state_view().common.focus_state,
    {
        let _ = textarea_insert_str(&mut self.textarea, text);
        self.state.common.mark_dirty();
    }

    /// Record where the cursor is.
    fn update_cursor_position(&mut self)
        ensures
            final(self).state_view().cursor_position.row == final(self).cursor_view().0,
            final(self).state_view().cursor_position.col == final(self).cursor_view().1,
            final(self).cursor_view() == old(self).cursor_view(),
            final(self).lines_view() == old(self).lines_view(),
            final(self).props_view() == old(self).props_view(),
            final(self).id_view() == old(self).id_view(),
            final(self).state_view().common == old(self).state_view().common,
            final(self).state_view().last_validation_message == old(self).state_view().last_validation_message,
    {
        let (row, col) = textarea_cursor(&self.textarea);
        self.state.cursor_position = TextPosition { row, col };
    }

    /// Where the editor's selection starts, when text is being selected.
    pub closed spec fn selection_view(&self) -> Option<(int, int)> {
        textarea_cursor_state(self.textarea).2
    }

    /// Whether an input is refused before it reaches the editor: a readonly
    /// field takes none, a single-line field no Enter, and a field at its
    /// length limit no character.
    pub open spec fn refuses(&self, input: TextKeyInput) -> bool {
        ||| self.props_view().readonly
        ||| (!self.props_view().multiline && input.key == TextKey::Enter)
        ||| (self.props_view().max_length matches Some(max)
            && utf8_length(self.text_view()) >= max && input.key is Char)
    }

    /// Hand a key press to the editor, unless refused. The result says
    /// whether the editor handled it as an edit; then the field is marked
    /// modified, the cursor recorded and the text validated.
    pub fn handle_input(&mut self, input: TextKeyInput) -> (r: bool)
        ensures
            input_post(*old(self), *final(self), input, r),
            input_ignored(*old(self), input) ==> *final(self) == *old(self),
    {
        if self.props.readonly {
            return false;
        }
        if !self.props.multiline && input.key == TextKey::Enter {
            return false;
        }
        match self.props.max_length {
            Some(max) => {
                let t = self.text();
                let is_char = match input.key {
                    TextKey::Char(_) => true,
                    _ => false,
                };
                if utf8_len(t.as_str()) >= max as u128 && is_char {
                    return false;
                }
            },
            None => {},
        }
        let result = match acted_key_of(input.key) {
            Some(k) => textarea_input(&mut self.textarea, k, input.ctrl, input.alt, input.shift),
            None => false,
        };
        if result {
            self.state.common.mark_dirty();
            self.update_cursor_position();
            self.validate_content();
        }
        result
    }

    /// The editor key press of a terminal key press: the key, and whether
    /// Ctrl, Alt and Shift are held.
    pub fn crossterm_to_textarea_input(key: KeyEvent) -> (r: TextKeyInput)
        ensures
            r.key == editor_key(key.code),
            r.ctrl == (key.modifiers.bits & 2 == 2),
            r.alt == (key.modifiers.bits & 4 == 4),
            r.shift == (key.modifiers.bits & 1 == 1),
    {
        let tui_key = match key.code {
            KeyCode::Char(c) => TextKey::Char(c),
            KeyCode::Enter => TextKey::Enter,
            KeyCode::Left => TextKey::Left,
            KeyCode::Right => TextKey::Right,
            KeyCode::Up => TextKey::Up,
            KeyCode::Down => TextKey::Down,
            KeyCode::Home => TextKey::Home,
            KeyCode::End => TextKey::End,
            KeyCode::PageUp => TextKey::PageUp,
            KeyCode::PageDown => TextKey::PageDown,
            KeyCode::Tab => TextKey::Tab,
            KeyCode::BackTab => TextKey::Tab,
            KeyCode::Delete => TextKey::Delete,
            KeyCode::Backspace => TextKey::Backspace,
            KeyCode::Insert => TextKey::Null,
            KeyCode::Esc => TextKey::Esc,
            KeyCode::F(n) => TextKey::F(n),
            _ => TextKey::Null,
        };
        TextKeyInput {
            key: tui_key,
            ctrl: key.modifiers.contains(KeyModifiers::control()),
            alt: key.modifiers.contains(KeyModifiers::alt()),
            shift: key.modifiers.contains(KeyModifiers::shift()),
        }
    }

    /// Hand a terminal key press to the editor.
    pub fn handle_key_event(&mut self, key: KeyEvent) -> (r: bool)
        ensures
            input_post(*old(self), *final(self), Self::editor_input(key), r),
            input_ignored(*old(self), Self::editor_input(key)) ==> *final(self) == *old(self),
    {
        let input = Self::crossterm_to_textarea_input(key);
        self.handle_input(input)
    }

    /// The editor key press of a terminal key press.
    pub open spec fn editor_input(key: KeyEvent) -> TextKeyInput {
        TextKeyInput {
            key: editor_key(key.code),
            ctrl: key.modifiers.bits & 2 == 2,
            alt: key.modifiers.bits & 4 == 4,
            shift: key.modifiers.bits & 1 == 1,
        }
    }

    /// The style of the border.
    pub fn get_border_style(&self) -> (r: CellStyle)
        ensures
            r == field_border_spec(self.state_view().common),
    {
        field_border_style(&self.state.common)
    }

    /// The title with its markers: required, modified, validation and help.
    pub fn get_title_with_indicators(&self) -> (r: String)
        ensures
            r@ == self.props_view().title@
                + (if self.props_view().required { " *"@ } else { Seq::empty() })
                + (if self.state_view().common.dirty { " (modified)"@ } else { Seq::empty() })
                + (match self.state_view().common.validation_state {
                    ValidationState::Invalid(_) => " ❌"@,
                    ValidationState::Pending => " ⚠️"@,
                    ValidationState::Valid => if self.state_view().common.dirty { " ✅"@ } else { Seq::empty() },
                })
                + (if self.props_view().help_text is Some { " (?)"@ } else { Seq::empty() }),
    {
        let mut title = self.props.title.clone();
        let ghost t0 = title@;
        if self.props.required {
            title.append(" *");
        }
        let ghost t1 = title@;
        assert(t1 =~= t0 + (if self.props.required { " *"@ } else { Seq::empty() }));
        if self.state.common.dirty {
            title.append(" (modified)");
        }
        let ghost t2 = title@;
        assert(t2 =~= t1 + (if self.state.common.dirty { " (modified)"@ } else { Seq::empty() }));
        match &self.state.common.validation_state {
            ValidationState::Invalid(_) => title.append(" ❌"),
            ValidationState::Pending => title.append(" ⚠️"),
            ValidationState::Valid => {
                if self.state.common.dirty {
                    title.append(" ✅");
                }
            },
        }
        let ghost t3 = title@;
        assert(t3 =~= t2 + (match self.state.common.validation_state {
            ValidationState::Invalid(_) => " ❌"@,
            ValidationState::Pending => " ⚠️"@,
            ValidationState::Valid => if self.state.common.dirty { " ✅"@ } else { Seq::empty() },
        }));
        if self.props.help_text.is_some() {
            title.append(" (?)");
        }
        assert(title@ =~= t3 + (if self.props.help_text is Some { " (?)"@ } else { Seq::empty() }));
        title
    }

    /// The last validation message.
    pub fn validation_message(&self) -> (r: Option<&str>)
        ensures
            match self.state_view().last_validation_message {
                Some(m) => r matches Some(x) && x@ == m@,
                None => r is None,
            },
    {
        match &self.state.last_validation_message {
            Some(m) => Some(m.as_str()),
            None => None,
        }
    }

    /// Whether the text is valid.
    pub fn is_valid(&self) -> (r: bool)
        ensures
            r == (self.state_view().common.validation_state is Valid),
    {
        match self.state.common.validation_state {
            ValidationState::Valid => true,
            _ => false,
        }
    }

    /// Whether the text is empty or all white space.
    pub fn is_empty(&self) -> (r: bool)
        ensures
            r == is_blank(self.text_view()),
    {
        let t = self.text();
        text_is_blank(t.as_str())
    }

    /// The length of the text, in bytes.
    pub fn char_count(&self) -> (r: usize)
        ensures
            r == utf8_length(self.text_view()) as usize,
    {
        let t = self.text();
        utf8_len(t.as_str()) as usize
    }

    /// The number of lines.
    pub fn line_count(&self) -> (r: usize)
        ensures
            r == self.lines_view().len(),
    {
        let lines = textarea_lines(&self.textarea);
        lines.len()
    }

    /// The validation state.
    pub fn validate(&self) -> (r: ValidationState)
        ensures
            r == self.state_view().common.validation_state,
    {
        match &self.state.common.validation_state {
            ValidationState::Valid => ValidationState::Valid,
            ValidationState::Invalid(m) => ValidationState::Invalid(m.clone()),
            ValidationState::Pending => ValidationState::Pending,
        }
    }

    /// Set the focus state.
    pub fn set_focus_state(&mut self, focus_state: FocusState)
        ensures
            final(self).state_view().common.focus_state == focus_state,
            final(self).lines_view() == old(self).lines_view(),
            final(self).props_view() == old(self).props_view(),
            final(self).id_view() == old(self).id_view(),
    {
        self.state.common.focus_state = focus_state;
    }

    /// The events that a key press on this field reports: none unless it
    /// is focused; then, for an outcome of the editor that `input_post`
    /// admits (the field as it leaves it, and whether it handled the key as
    /// an edit), one value change from the old text to the new one when the
    /// key was handled and the text changed, else none.
    pub open spec fn key_events(&self, key: KeyEvent, events: Seq<ComponentEvent>) -> bool {
        if self.state_view().common.focus_state != FocusState::Focused {
            events.len() == 0
        } else {
            exists|f: TextInput, handled: bool| {
                &&& #[trigger] input_post(*self, f, Self::editor_input(key), handled)
                &&& text_change_events(events, self.id_view(), self.text_view(), f.text_view(), handled)
            }
        }
    }

    /// Two fields that show the same report the same events for a key.
    pub(crate) proof fn lemma_key_events_same_views(a: TextInput, b: TextInput, key: KeyEvent, events: Seq<ComponentEvent>)
        requires
            same_views(a, b),
            a.key_events(key, events),
        ensures
            b.key_events(key, events),
    {
        if a.state_view().common.focus_state == FocusState::Focused {
            let (f, handled) = choose|f: TextInput, handled: bool| {
                &&& #[trigger] input_post(a, f, Self::editor_input(key), handled)
                &&& text_change_events(events, a.id_view(), a.text_view(), f.text_view(), handled)
            };
            assert(input_post(b, f, Self::editor_input(key), handled));
        }
    }

    /// Handle a key. Only a focused field takes keys; the key goes to the
    /// editor, and when the editor handled it as an edit and the text
    /// changed, a value change is reported with the old and new texts.
    pub fn handle_key(&mut self, key: KeyEvent) -> (r: ComponentResult<Vec<ComponentEvent>>)
        ensures
            r matches Ok(events) && old(self).key_events(key, events@),
            final(self).props_view() == old(self).props_view(),
            final(self).id_view() == old(self).id_view(),
            old(self).state_view().common.focus_state != FocusState::Focused ==> {
                &&& *final(self) == *old(self)
                &&& r matches Ok(events) && events@.len() == 0
            },
            old(self).state_view().common.focus_state == FocusState::Focused ==> exists|handled: bool| {
                &&& #[trigger] input_post(*old(self), *final(self), Self::editor_input(key), handled)
                &&& !(handled && final(self).text_view() != old(self).text_view())
                    ==> (r matches Ok(events) && events@.len() == 0)
                &&& (handled && final(self).text_view() != old(self).text_view())
                    ==> (r matches Ok(events) && events@.len() == 1
                    && (events@[0] matches ComponentEvent::ValueChanged { component_id, old_value, new_value }
                        && component_id@ == old(self).id_view()
                        && old_value@ == old(self).text_view()
                        && new_value@ == final(self).text_view()))
            },
    {
        let mut events: Vec<ComponentEvent> = Vec::new();
        if self.state.common.focus_state == FocusState::Focused {
            let old_text = self.text();
            let handled = self.handle_key_event(key);
            if handled {
                let new_text = self.text();
                if !crate::text::str_eq(old_text.as_str(), new_text.as_str()) {
                    events.push(ComponentEvent::ValueChanged {
                        component_id: self.id.duplicate(),
                        old_value: old_text,
                        new_value: new_text,
                    });
                }
            }
        }
        Ok(events)
    }

    /// Focus events for this field set its focus; losing the focus also
    /// validates the text.
    pub fn handle_event(&mut self, event: &ComponentEvent) -> (r: ComponentResult<Vec<ComponentEvent>>)
        ensures
            r matches Ok(events) && events@.len() == 0,
            final(self).props_view() == old(self).props_view(),
            final(self).id_view() == old(self).id_view(),
            final(self).lines_view() == old(self).lines_view(),
            match event {
                ComponentEvent::FocusGained { component_id } if component_id@ == old(self).id_view() =>
                    final(self).state_view().common.focus_state == FocusState::Focused,
                ComponentEvent::FocusLost { component_id } if component_id@ == old(self).id_view() =>
                    final(self).state_view().common.focus_state == FocusState::Unfocused && final(self).validated(),
                _ => *final(self) == *old(self),
            },
    {
        match event {
            ComponentEvent::FocusGained { component_id } => {
                if component_id.same_as(&self.id) {
                    self.set_focus_state(FocusState::Focused);
                }
            },
            ComponentEvent::FocusLost { component_id } => {
                if component_id.same_as(&self.id) {
                    self.set_focus_state(FocusState::Unfocused);
                    self.validate_content();
                }
            },
            _ => {},
        }
        Ok(Vec::new())
    }
}

} // verus!
