//! Dialogs: a confirmation dialog with two buttons and a modal dialog with
//! free content. Each has its key handling and says what it shows; drawing
//! is left to the terminal front end.

use vstd::prelude::*;
use vstd::string::*;
use crate::component::{
    CommonComponentState, ComponentEvent, ComponentId, ComponentResult, ValidationState,
};
use crate::colors::ThemeColors;
use crate::keys::{KeyCode, KeyEvent, KeyModifiers};
use crate::style::CellStyle;

verus! {

/// How a confirmation dialog was answered.
#[derive(Debug, Clone, Copy, PartialEq, Eq, Structural)]
pub enum ConfirmationResult {
    Confirmed,
    Cancelled,
    Dismissed,
}

/// The buttons of a confirmation dialog.
#[derive(Debug, Clone)]
pub enum ConfirmationType {
    YesNo,
    OkCancel,
    Custom { confirm_text: String, cancel_text: String },
}

/// The texts of the confirm and cancel buttons.
pub open spec fn button_texts_spec(t: ConfirmationType) -> (Seq<char>, Seq<char>) {
    match t {
        ConfirmationType::YesNo => ("Yes"@, "No"@),
        ConfirmationType::OkCancel => ("OK"@, "Cancel"@),
        ConfirmationType::Custom { confirm_text, cancel_text } => (confirm_text@, cancel_text@),
    }
}

impl ConfirmationType {
    /// The texts of the confirm and cancel buttons.
    pub fn button_texts(&self) -> (r: (String, String))
        ensures
            (r.0@, r.1@) == button_texts_spec(*self),
    {
        match self {
            ConfirmationType::YesNo => ("Yes".to_owned(), "No".to_owned()),
            ConfirmationType::OkCancel => ("OK".to_owned(), "Cancel".to_owned()),
            ConfirmationType::Custom { confirm_text, cancel_text } => (confirm_text.clone(), cancel_text.clone()),
        }
    }
}

/// Configuration of a confirmation dialog.
#[derive(Debug, Clone)]
pub struct ConfirmationProps {
    pub title: String,
    pub message: String,
    pub confirmation_type: ConfirmationType,
    pub destructive: bool,
    pub show_icons: bool,
    pub auto_focus_confirm: bool,
}

impl Default for ConfirmationProps {
    fn default() -> (r: Self)
        ensures
            r.title@ == "Confirm"@,
            r.message@ == "Are you sure?"@,
            r.confirmation_type is YesNo,
            !r.destructive,
            r.show_icons,
            r.auto_focus_confirm,
    {
        ConfirmationProps {
            title: "Confirm".to_owned(),
            message: "Are you sure?".to_owned(),
            confirmation_type: ConfirmationType::YesNo,
            destructive: false,
            show_icons: true,
            auto_focus_confirm: true,
        }
    }
}

/// State of a confirmation dialog. The selected button is 0 for confirm
/// and 1 for cancel.
#[derive(Debug, Clone)]
pub struct ConfirmationComponentState {
    pub common: CommonComponentState,
    pub is_open: bool,
    pub selected_button: usize,
    pub result: Option<ConfirmationResult>,
}

impl Default for ConfirmationComponentState {
    fn default() -> (r: Self)
        ensures
            !r.is_open,
            r.selected_button == 0,
            r.result is None,
            !r.common.dirty,
    {
        ConfirmationComponentState {
            common: CommonComponentState::default(),
            is_open: false,
            selected_button: 0,
            result: None,
        }
    }
}

/// The answer a key gives to an open confirmation dialog, if any.
pub open spec fn confirmation_key_result(t: ConfirmationType, selected: usize, key: KeyEvent) -> Option<ConfirmationResult> {
    match key.code {
        KeyCode::Enter => Some(if selected == 0 { ConfirmationResult::Confirmed } else { ConfirmationResult::Cancelled }),
        KeyCode::Esc => Some(ConfirmationResult::Dismissed),
        KeyCode::Char(c) => {
            if (c == 'y' || c == 'Y') {
                if t is YesNo { Some(ConfirmationResult::Confirmed) } else { None }
            } else if (c == 'n' || c == 'N') {
                if t is YesNo { Some(ConfirmationResult::Cancelled) } else { None }
            } else if (c == 'o' || c == 'O') {
                if t is OkCancel { Some(ConfirmationResult::Confirmed) } else { None }
            } else if (c == 'c' || c == 'C') {
                if t is OkCancel { Some(ConfirmationResult::Cancelled) } else { None }
            } else if c == 'q' && key.modifiers.bits & 2 == 2 {
                Some(ConfirmationResult::Dismissed)
            } else {
                None
            }
        },
        _ => None,
    }
}

/// Whether a key moves the selection between the two buttons.
pub open spec fn is_switch_key(key: KeyEvent) -> bool {
    key.code == KeyCode::Left || key.code == KeyCode::Right || key.code == KeyCode::Tab
}

/// The label of a button: its icon, when icons are shown, then its text.
pub open spec fn button_label(p: ConfirmationProps, is_confirm: bool) -> Seq<char> {
    let texts = button_texts_spec(p.confirmation_type);
    let text = if is_confirm { texts.0 } else { texts.1 };
    if p.show_icons {
        let icon = if is_confirm {
            if p.destructive { "⚠ "@ } else { "✓ "@ }
        } else {
            "✗ "@
        };
        icon + text
    } else {
        text
    }
}

/// The keyboard hint of a confirmation dialog.
pub open spec fn confirmation_hint(t: ConfirmationType) -> Seq<char> {
    match t {
        ConfirmationType::YesNo => "Y/N: quick select, Tab/←→: navigate, Enter: confirm, Esc: dismiss"@,
        ConfirmationType::OkCancel => "O/C: quick select, Tab/←→: navigate, Enter: confirm, Esc: dismiss"@,
        ConfirmationType::Custom { .. } => "Tab/←→: navigate, Enter: confirm, Esc: dismiss"@,
    }
}

/// What an open confirmation dialog shows.
#[derive(Debug, Clone)]
pub struct ConfirmationView {
    pub title: String,
    pub message: String,
    /// A destructive dialog has the error color on its border and confirm
    /// button.
    pub destructive: bool,
    pub confirm_label: String,
    pub cancel_label: String,
    pub confirm_selected: bool,
    pub hint: String,
}

/// The styles an open confirmation dialog is drawn with.
#[derive(Debug, Clone, Copy, PartialEq, Eq, Structural)]
pub struct ConfirmationStyles {
    /// The border: the error color for a destructive action, else the
    /// focus color.
    pub border: CellStyle,
    /// The dialog's ground: the foreground color on the background color.
    pub body: CellStyle,
    /// The message, in the foreground color.
    pub message: CellStyle,
    /// The confirm button: when selected, bold in the background color on
    /// the error color for a destructive action, else on the success
    /// color; otherwise in the foreground color.
    pub confirm: CellStyle,
    /// The cancel button: when selected, bold in the background color on
    /// the info color; otherwise in the foreground color.
    pub cancel: CellStyle,
    /// The key hint, in the info color.
    pub hint: CellStyle,
}

/// The styles of a confirmation dialog with the given theme colors.
pub fn confirmation_styles(destructive: bool, confirm_selected: bool, colors: &ThemeColors) -> (r: ConfirmationStyles)
    ensures
        r.border == (CellStyle { fg: Some(if destructive { colors.error } else { colors.focus }), bg: None, bold: false }),
        r.body == (CellStyle { fg: Some(colors.foreground), bg: Some(colors.background), bold: false }),
        r.message == (CellStyle { fg: Some(colors.foreground), bg: None, bold: false }),
        r.confirm == (if confirm_selected {
            CellStyle {
                fg: Some(colors.background),
                bg: Some(if destructive { colors.error } else { colors.success }),
                bold: true,
            }
        } else {
            CellStyle { fg: Some(colors.foreground), bg: None, bold: false }
        }),
        r.cancel == (if !confirm_selected {
            CellStyle { fg: Some(colors.background), bg: Some(colors.info), bold: true }
        } else {
            CellStyle { fg: Some(colors.foreground), bg: None, bold: false }
        }),
        r.hint == (CellStyle { fg: Some(colors.info), bg: None, bold: false }),
{
    let plain = CellStyle { fg: Some(colors.foreground), bg: None, bold: false };
    let confirm = if confirm_selected {
        CellStyle {
            fg: Some(colors.background),
            bg: Some(if destructive { colors.error } else { colors.success }),
            bold: true,
        }
    } else {
        plain
    };
    let cancel = if !confirm_selected {
        CellStyle { fg: Some(colors.background), bg: Some(colors.info), bold: true }
    } else {
        plain
    };
    ConfirmationStyles {
        border: CellStyle { fg: Some(if destructive { colors.error } else { colors.focus }), bg: None, bold: false },
        body: CellStyle { fg: Some(colors.foreground), bg: Some(colors.background), bold: false },
        message: plain,
        confirm,
        cancel,
        hint: CellStyle { fg: Some(colors.info), bg: None, bold: false },
    }
}

/// A confirmation dialog.
pub struct Confirmation {
    id: ComponentId,
    props: ConfirmationProps,
    state: ConfirmationComponentState,
}

impl Confirmation {
    pub closed spec fn id_view(&self) -> Seq<char> {
        self.id@
    }

    pub closed spec fn props_view(&self) -> ConfirmationProps {
        self.props
    }

    pub closed spec fn state_view(&self) -> ConfirmationComponentState {
        self.state
    }

    /// A closed dialog; the confirm button is selected first when the
    /// configuration says so, else the cancel button.
    pub fn new(id: ComponentId, props: ConfirmationProps) -> (r: Self)
        ensures
            r.id_view() == id@,
            r.props_view() == props,
            !r.state_view().is_open,
            r.state_view().selected_button == (if props.auto_focus_confirm { 0usize } else { 1usize }),
            r.state_view().result is None,
    {
        let selected_button: usize = if props.auto_focus_confirm { 0 } else { 1 };
        let mut state = ConfirmationComponentState::default();
        state.selected_button = selected_button;
        Confirmation { id, props, state }
    }

    /// Open the dialog; an earlier answer is forgotten.
    pub fn open(&mut self)
        ensures
            final(self).state_view().is_open,
            final(self).state_view().result is None,
            final(self).state_view().selected_button == old(self).state_view().selected_button,
            final(self).state_view().common.dirty,
            final(self).props_view() == old(self).props_view(),
            final(self).id_view() == old(self).id_view(),
    {
        self.state.is_open = true;
        self.state.result = None;
        self.state.common.mark_dirty();
    }

    /// Close the dialog.
    pub fn close(&mut self)
        ensures
            !final(self).state_view().is_open,
            final(self).state_view().result == old(self).state_view().result,
            final(self).state_view().selected_button == old(self).state_view().selected_button,
            final(self).state_view().common.dirty,
            final(self).props_view() == old(self).props_view(),
            final(self).id_view() == old(self).id_view(),
    {
        self.state.is_open = false;
        self.state.common.mark_dirty();
    }

    /// Set the message.
    pub fn set_message(&mut self, message: &str)
        ensures
            final(self).props_view().message@ == message@,
            final(self).props_view().title == old(self).props_view().title,
            final(self).props_view().confirmation_type == old(self).props_view().confirmation_type,
            final(self).state_view().is_open == old(self).state_view().is_open,
            final(self).state_view().result == old(self).state_view().result,
            final(self).state_view().common.dirty,
    {
        self.props.message = message.to_owned();
        self.state.common.mark_dirty();
    }

    /// Set the title.
    pub fn set_title(&mut self, title: &str)
        ensures
            final(self).props_view().title@ == title@,
            final(self).props_view().message == old(self).props_view().message,
            final(self).props_view().confirmation_type == old(self).props_view().confirmation_type,
            final(self).state_view().is_open == old(self).state_view().is_open,
            final(self).state_view().result == old(self).state_view().result,
            final(self).state_view().common.dirty,
    {
        self.props.title = title.to_owned();
        self.state.common.mark_dirty();
    }

    /// The answer, once given.
    pub fn get_result(&self) -> (r: Option<ConfirmationResult>)
        ensures
            r == self.state_view().result,
    {
        self.state.result
    }

    /// Whether the dialog was confirmed.
    pub fn is_confirmed(&self) -> (r: bool)
        ensures
            r == (self.state_view().result == Some(ConfirmationResult::Confirmed)),
    {
        self.state.result == Some(ConfirmationResult::Confirmed)
    }

    /// Whether the dialog was cancelled.
    pub fn is_cancelled(&self) -> (r: bool)
        ensures
            r == (self.state_view().result == Some(ConfirmationResult::Cancelled)),
    {
        self.state.result == Some(ConfirmationResult::Cancelled)
    }

    /// Whether the dialog is open.
    pub fn is_open(&self) -> (r: bool)
        ensures
            r == self.state_view().is_open,
    {
        self.state.is_open
    }

    /// The state of the dialog.
    pub fn state(&self) -> (r: &ConfirmationComponentState)
        ensures
            *r == self.state_view(),
    {
        &self.state
    }

    /// The configuration of the dialog.
    pub fn props(&self) -> (r: &ConfirmationProps)
        ensures
            *r == self.props_view(),
    {
        &self.props
    }

    /// Record an answer and close the dialog; the dialog reports that it
    /// was activated.
    fn answer(&mut self, result: ConfirmationResult) -> (r: ComponentResult<Vec<ComponentEvent>>)
        ensures
            final(self).state_view().result == Some(result),
            !final(self).state_view().is_open,
            final(self).state_view().selected_button == old(self).state_view().selected_button,
            final(self).state_view().common.dirty,
            final(self).props_view() == old(self).props_view(),
            final(self).id_view() == old(self).id_view(),
            r matches Ok(events) && events@.len() == 1
                && (events@[0] matches ComponentEvent::Activated { component_id } && component_id@ == old(self).id_view()),
    {
        self.state.result = Some(result);
        self.close();
        Ok(vec![ComponentEvent::Activated { component_id: self.id.duplicate() }])
    }

    /// Handle a key. A closed dialog ignores keys. Left, Right and Tab move
    /// the selection to the other button (the selection is 0 or 1); Enter answers with the selected
    /// button; Esc and Ctrl+q dismiss; Y/N answer a yes/no dialog and O/C an
    /// OK/cancel one, in either case. An answer closes the dialog and
    /// reports it activated.
    pub fn handle_key(&mut self, key: KeyEvent) -> (r: ComponentResult<Vec<ComponentEvent>>)
        ensures
            final(self).props_view() == old(self).props_view(),
            final(self).id_view() == old(self).id_view(),
            ({
                let o = old(self).state_view();
                let answer = confirmation_key_result(old(self).props_view().confirmation_type, o.selected_button, key);
                if !o.is_open {
                    &&& final(self).state_view() == o
                    &&& r matches Ok(events) && events@.len() == 0
                } else if is_switch_key(key) {
                    &&& final(self).state_view().selected_button == (if o.selected_button == 0 { 1usize } else { 0usize })
                    &&& final(self).state_view().is_open
                    &&& final(self).state_view().result == o.result
                    &&& final(self).state_view().common.dirty
                    &&& r matches Ok(events) && events@.len() == 0
                } else {
                    match answer {
                        Some(a) => {
                            &&& final(self).state_view().result == Some(a)
                            &&& !final(self).state_view().is_open
                            &&& final(self).state_view().selected_button == o.selected_button
                            &&& r matches Ok(events) && events@.len() == 1
                                && (events@[0] matches ComponentEvent::Activated { component_id }
                                    && component_id@ == old(self).id_view())
                        },
                        None => {
                            &&& final(self).state_view() == o
                            &&& r matches Ok(events) && events@.len() == 0
                        },
                    }
                }
            }),
    {
        if !self.state.is_open {
            return Ok(Vec::new());
        }
        let is_yes_no = match self.props.confirmation_type {
            ConfirmationType::YesNo => true,
            _ => false,
        };
        let is_ok_cancel = match self.props.confirmation_type {
            ConfirmationType::OkCancel => true,
            _ => false,
        };
        match key.code {
            KeyCode::Left | KeyCode::Right | KeyCode::Tab => {
                self.state.selected_button = if self.state.selected_button == 0 { 1 } else { 0 };
                self.state.common.mark_dirty();
                Ok(Vec::new())
            },
            KeyCode::Enter => {
                if self.state.selected_button == 0 {
                    self.answer(ConfirmationResult::Confirmed)
                } else {
                    self.answer(ConfirmationResult::Cancelled)
                }
            },
            KeyCode::Esc => self.answer(ConfirmationResult::Dismissed),
            KeyCode::Char('y') | KeyCode::Char('Y') => {
                if is_yes_no {
                    self.answer(ConfirmationResult::Confirmed)
                } else {
                    Ok(Vec::new())
                }
            },
            KeyCode::Char('n') | KeyCode::Char('N') => {
                if is_yes_no {
                    self.answer(ConfirmationResult::Cancelled)
                } else {
                    Ok(Vec::new())
                }
            },
            KeyCode::Char('o') | KeyCode::Char('O') => {
                if is_ok_cancel {
                    self.answer(ConfirmationResult::Confirmed)
                } else {
                    Ok(Vec::new())
                }
            },
            KeyCode::Char('c') | KeyCode::Char('C') => {
                if is_ok_cancel {
                    self.answer(ConfirmationResult::Cancelled)
                } else {
                    Ok(Vec::new())
                }
            },
            KeyCode::Char('q') => {
                if key.modifiers.contains(KeyModifiers::control()) {
                    self.answer(ConfirmationResult::Dismissed)
                } else {
                    Ok(Vec::new())
                }
            },
            _ => Ok(Vec::new()),
        }
    }

    /// Events from other components change nothing.
    pub fn handle_event(&mut self, event: ComponentEvent) -> (r: ComponentResult<Vec<ComponentEvent>>)
        ensures
            r matches Ok(events) && events@.len() == 0,
            *final(self) == *old(self),
    {
        Ok(Vec::new())
    }

    /// The label of a button.
    pub fn build_button_text(&self, is_confirm: bool) -> (r: String)
        ensures
            r@ == button_label(self.props_view(), is_confirm),
    {
        let (confirm_text, cancel_text) = self.props.confirmation_type.button_texts();
        let text = if is_confirm { confirm_text } else { cancel_text };
        if self.props.show_icons {
            let mut label = if is_confirm {
                if self.props.destructive { "⚠ ".to_owned() } else { "✓ ".to_owned() }
            } else {
                "✗ ".to_owned()
            };
            label.append(text.as_str());
            label
        } else {
            text
        }
    }

    /// What the dialog shows: nothing when closed; else its title, message,
    /// the labels of its buttons, which one is selected, and the keyboard
    /// hint.
    pub fn view(&self) -> (r: Option<ConfirmationView>)
        ensures
            !self.state_view().is_open ==> r is None,
            self.state_view().is_open ==> (r matches Some(v) && {
                &&& v.title@ == self.props_view().title@
                &&& v.message@ == self.props_view().message@
                &&& v.destructive == self.props_view().destructive
                &&& v.confirm_label@ == button_label(self.props_view(), true)
                &&& v.cancel_label@ == button_label(self.props_view(), false)
                &&& v.confirm_selected == (self.state_view().selected_button == 0)
                &&& v.hint@ == confirmation_hint(self.props_view().confirmation_type)
            }),
    {
        if !self.state.is_open {
            return None;
        }
        let hint = match self.props.confirmation_type {
            ConfirmationType::YesNo => "Y/N: quick select, Tab/←→: navigate, Enter: confirm, Esc: dismiss".to_owned(),
            ConfirmationType::OkCancel => "O/C: quick select, Tab/←→: navigate, Enter: confirm, Esc: dismiss".to_owned(),
            ConfirmationType::Custom { .. } => "Tab/←→: navigate, Enter: confirm, Esc: dismiss".to_owned(),
        };
        Some(ConfirmationView {
            title: self.props.title.clone(),
            message: self.props.message.clone(),
            destructive: self.props.destructive,
            confirm_label: self.build_button_text(true),
            cancel_label: self.build_button_text(false),
            confirm_selected: self.state.selected_button == 0,
            hint,
        })
    }

    /// A dialog needs a title and a message.
    pub fn validate(&self) -> (r: ValidationState)
        ensures
            self.props_view().title@.len() == 0 ==> (r matches ValidationState::Invalid(m)
                && m@ == "Confirmation title cannot be empty"@),
            self.props_view().title@.len() > 0 && self.props_view().message@.len() == 0 ==> (r matches ValidationState::Invalid(m)
                && m@ == "Confirmation message cannot be empty"@),
            self.props_view().title@.len() > 0 && self.props_view().message@.len() > 0 ==> r == ValidationState::Valid,
    {
        if self.props.title.as_str().is_empty() {
            return ValidationState::Invalid("Confirmation title cannot be empty".to_owned());
        }
        if self.props.message.as_str().is_empty() {
            return ValidationState::Invalid("Confirmation message cannot be empty".to_owned());
        }
        ValidationState::Valid
    }
}

/// The size of a modal dialog.
#[derive(Debug, Clone, Copy, PartialEq, Eq, Structural)]
pub enum ModalSize {
    Small,
    Medium,
    Large,
    Custom { width: u16, height: u16 },
}

/// The width and height of a modal size.
pub open spec fn modal_dimensions(s: ModalSize) -> (u16, u16) {
    match s {
        ModalSize::Small => (40, 15),
        ModalSize::Medium => (60, 25),
        ModalSize::Large => (80, 35),
        ModalSize::Custom { width, height } => (width, height),
    }
}

impl ModalSize {
    /// The width and height of the size.
    pub fn dimensions(&self) -> (r: (u16, u16))
        ensures
            r == modal_dimensions(*self),
    {
        match self {
            ModalSize::Small => (40, 15),
            ModalSize::Medium => (60, 25),
            ModalSize::Large => (80, 35),
            ModalSize::Custom { width, height } => (*width, *height),
        }
    }
}

/// Configuration of a modal dialog.
#[derive(Debug, Clone)]
pub struct ModalProps {
    pub title: String,
    pub content: String,
    pub size: ModalSize,
    pub closable: bool,
    pub show_close_button: bool,
    pub center_content: bool,
    pub wrap_content: bool,
}

impl Default for ModalProps {
    fn default() -> (r: Self)
        ensures
            r.title@ == "Modal"@,
            r.content@ == "Modal content"@,
            r.size == ModalSize::Medium,
            r.closable && r.show_close_button && r.center_content && r.wrap_content,
    {
        ModalProps {
            title: "Modal".to_owned(),
            content: "Modal content".to_owned(),
            size: ModalSize::Medium,
            closable: true,
            show_close_button: true,
            center_content: true,
            wrap_content: true,
        }
    }
}

/// State of a modal dialog.
#[derive(Debug, Clone)]
pub struct ModalComponentState {
    pub common: CommonComponentState,
    pub is_open: bool,
    pub can_close: bool,
}

impl Default for ModalComponentState {
    fn default() -> (r: Self)
        ensures
            !r.is_open,
            r.can_close,
            !r.common.dirty,
    {
        ModalComponentState { common: CommonComponentState::default(), is_open: false, can_close: true }
    }
}

/// What an open modal dialog shows.
#[derive(Debug, Clone)]
pub struct ModalView {
    pub title: String,
    /// Whether the title carries the close marker `[×]`.
    pub close_marker: bool,
    pub content: String,
    pub width: u16,
    pub height: u16,
    pub center_content: bool,
    pub wrap_content: bool,
    /// The hint line shown under the content of a dialog that can close.
    pub close_hint: Option<String>,
}

/// The styles an open modal dialog is drawn with.
#[derive(Debug, Clone, Copy, PartialEq, Eq, Structural)]
pub struct ModalStyles {
    /// The border, in the focus color.
    pub border: CellStyle,
    /// The dialog's ground: the foreground color on the background color.
    pub body: CellStyle,
    /// The content, in the foreground color.
    pub content: CellStyle,
    /// The close hint, in the info color.
    pub hint: CellStyle,
}

/// The styles of a modal dialog with the given theme colors.
pub fn modal_styles(colors: &ThemeColors) -> (r: ModalStyles)
    ensures
        r.border == (CellStyle { fg: Some(colors.focus), bg: None, bold: false }),
        r.body == (CellStyle { fg: Some(colors.foreground), bg: Some(colors.background), bold: false }),
        r.content == (CellStyle { fg: Some(colors.foreground), bg: None, bold: false }),
        r.hint == (CellStyle { fg: Some(colors.info), bg: None, bold: false }),
{
    ModalStyles {
        border: CellStyle { fg: Some(colors.focus), bg: None, bold: false },
        body: CellStyle { fg: Some(colors.foreground), bg: Some(colors.background), bold: false },
        content: CellStyle { fg: Some(colors.foreground), bg: None, bold: false },
        hint: CellStyle { fg: Some(colors.info), bg: None, bold: false },
    }
}

/// A modal dialog.
pub struct Modal {
    id: ComponentId,
    props: ModalProps,
    state: ModalComponentState,
}

impl Modal {
    pub closed spec fn id_view(&self) -> Seq<char> {
        self.id@
    }

    pub closed spec fn props_view(&self) -> ModalProps {
        self.props
    }

    pub closed spec fn state_view(&self) -> ModalComponentState {
        self.state
    }

    /// Whether the dialog can be closed now.
    pub open spec fn closable_now(&self) -> bool {
        self.props_view().closable && self.state_view().can_close
    }

    /// A closed dialog.
    pub fn new(id: ComponentId, props: ModalProps) -> (r: Self)
        ensures
            r.id_view() == id@,
            r.props_view() == props,
            !r.state_view().is_open,
            r.state_view().can_close,
    {
        Modal { id, props, state: ModalComponentState::default() }
    }

    /// Open the dialog.
    pub fn open(&mut self)
        ensures
            final(self).state_view().is_open,
            final(self).state_view().can_close == old(self).state_view().can_close,
            final(self).state_view().common.dirty,
            final(self).props_view() == old(self).props_view(),
            final(self).id_view() == old(self).id_view(),
    {
        self.state.is_open = true;
        self.state.common.mark_dirty();
    }

    /// Close the dialog, when it can be closed.
    pub fn close(&mut self)
        ensures
            old(self).closable_now() ==> !final(self).state_view().is_open && final(self).state_view().common.dirty,
            !old(self).closable_now() ==> final(self).state_view() == old(self).state_view(),
            final(self).state_view().can_close == old(self).state_view().can_close,
            final(self).props_view() == old(self).props_view(),
            final(self).id_view() == old(self).id_view(),
    {
        if self.state.can_close && self.props.closable {
            self.state.is_open = false;
            self.state.common.mark_dirty();
        }
    }

    /// Set the content.
    pub fn set_content(&mut self, content: &str)
        ensures
            final(self).props_view().content@ == content@,
            final(self).props_view().title == old(self).props_view().title,
            final(self).props_view().closable == old(self).props_view().closable,
            final(self).state_view().is_open == old(self).state_view().is_open,
            final(self).state_view().can_close == old(self).state_view().can_close,
            final(self).state_view().common.dirty,
    {
        self.props.content = content.to_owned();
        self.state.common.mark_dirty();
    }

    /// Set the title.
    pub fn set_title(&mut self, title: &str)
        ensures
            final(self).props_view().title@ == title@,
            final(self).props_view().content == old(self).props_view().content,
            final(self).props_view().closable == old(self).props_view().closable,
            final(self).state_view().is_open == old(self).state_view().is_open,
            final(self).state_view().can_close == old(self).state_view().can_close,
            final(self).state_view().common.dirty,
    {
        self.props.title = title.to_owned();
        self.state.common.mark_dirty();
    }

    /// Allow or forbid closing.
    pub fn set_closable(&mut self, closable: bool)
        ensures
            final(self).state_view().can_close == closable,
            final(self).state_view().is_open == old(self).state_view().is_open,
            final(self).state_view().common.dirty,
            final(self).props_view() == old(self).props_view(),
    {
        self.state.can_close = closable;
        self.state.common.mark_dirty();
    }

    /// Whether the dialog is open.
    pub fn is_open(&self) -> (r: bool)
        ensures
            r == self.state_view().is_open,
    {
        self.state.is_open
    }

    /// Handle a key. A closed dialog ignores keys. Esc and Ctrl+q close a
    /// dialog that can be closed and report it activated; Enter reports it
    /// activated.
    pub fn handle_key(&mut self, key: KeyEvent) -> (r: ComponentResult<Vec<ComponentEvent>>)
        ensures
            final(self).props_view() == old(self).props_view(),
            final(self).id_view() == old(self).id_view(),
            ({
                let o = old(self).state_view();
                let close_key = key.code == KeyCode::Esc
                    || (key.code == KeyCode::Char('q') && key.modifiers.bits & 2 == 2);
                if o.is_open && close_key && old(self).closable_now() {
                    &&& !final(self).state_view().is_open
                    &&& final(self).state_view().can_close == o.can_close
                    &&& final(self).state_view().common.dirty
                    &&& r matches Ok(events) && events@.len() == 1
                        && (events@[0] matches ComponentEvent::Activated { component_id } && component_id@ == old(self).id_view())
                } else if o.is_open && key.code == KeyCode::Enter {
                    &&& final(self).state_view() == o
                    &&& r matches Ok(events) && events@.len() == 1
                        && (events@[0] matches ComponentEvent::Activated { component_id } && component_id@ == old(self).id_view())
                } else {
                    &&& final(self).state_view() == o
                    &&& r matches Ok(events) && events@.len() == 0
                }
            }),
    {
        if !self.state.is_open {
            return Ok(Vec::new());
        }
        let closes = match key.code {
            KeyCode::Esc => true,
            KeyCode::Char('q') => key.modifiers.contains(KeyModifiers::control()),
            _ => false,
        };
        if closes {
            if self.props.closable && self.state.can_close {
                self.close();
                Ok(vec![ComponentEvent::Activated { component_id: self.id.duplicate() }])
            } else {
                Ok(Vec::new())
            }
        } else {
            match key.code {
                KeyCode::Enter => Ok(vec![ComponentEvent::Activated { component_id: self.id.duplicate() }]),
                _ => Ok(Vec::new()),
            }
        }
    }

    /// Events from other components change nothing.
    pub fn handle_event(&mut self, event: ComponentEvent) -> (r: ComponentResult<Vec<ComponentEvent>>)
        ensures
            r matches Ok(events) && events@.len() == 0,
            *final(self) == *old(self),
    {
        Ok(Vec::new())
    }

    /// What the dialog shows: nothing when closed; else its title (with
    /// the close marker when a close button is shown on a closable dialog),
    /// content and size, and the close hint when it can be closed.
    pub fn view(&self) -> (r: Option<ModalView>)
        ensures
            !self.state_view().is_open ==> r is None,
            self.state_view().is_open ==> (r matches Some(v) && {
                &&& v.title@ == self.props_view().title@
                &&& v.close_marker == (self.props_view().show_close_button && self.props_view().closable)
                &&& v.content@ == self.props_view().content@
                &&& (v.width, v.height) == modal_dimensions(self.props_view().size)
                &&& v.center_content == self.props_view().center_content
                &&& v.wrap_content == self.props_view().wrap_content
                &&& self.closable_now() ==> (v.close_hint matches Some(h)
                    && h@ == "Press ESC or Ctrl+Q to close, Enter to confirm"@)
                &&& !self.closable_now() ==> v.close_hint is None
            }),
    {
        if !self.state.is_open {
            return None;
        }
        let (width, height) = self.props.size.dimensions();
        let close_hint = if self.props.closable && self.state.can_close {
            Some("Press ESC or Ctrl+Q to close, Enter to confirm".to_owned())
        } else {
            None
        };
        Some(ModalView {
            title: self.props.title.clone(),
            close_marker: self.props.show_close_button && self.props.closable,
            content: self.props.content.clone(),
            width,
            height,
            center_content: self.props.center_content,
            wrap_content: self.props.wrap_content,
            close_hint,
        })
    }

    /// A dialog needs a title and a size of at least 10 by 5.
    pub fn validate(&self) -> (r: ValidationState)
        ensures
            ({
                let (w, h) = modal_dimensions(self.props_view().size);
                if self.props_view().title@.len() == 0 {
                    r matches ValidationState::Invalid(m) && m@ == "Modal title cannot be empty"@
                } else if w < 10 || h < 5 {
                    r matches ValidationState::Invalid(m) && m@ == "Modal size too small"@
                } else {
                    r == ValidationState::Valid
                }
            }),
    {
        if self.props.title.as_str().is_empty() {
            return ValidationState::Invalid("Modal title cannot be empty".to_owned());
        }
        let (width, height) = self.props.size.dimensions();
        if width < 10 || height < 5 {
            return ValidationState::Invalid("Modal size too small".to_owned());
        }
        ValidationState::Valid
    }
}

} // verus!
