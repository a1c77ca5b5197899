//! State of the terminal interface that is separate from domain state, the
//! input handlers of its screens, and the key handling of the application.

use vstd::prelude::*;
use vstd::string::*;
use crate::assoc::StringTable;
use crate::keys::{KeyCode, KeyEvent, KeyModifiers};
use crate::text::{str_eq, push_char, pop_char};

verus! {

/// UI events that can occur.
#[derive(Debug, Clone)]
pub enum UiEvent {
    ReleaseCreated,
    TasksSynced,
    NotesGenerated,
    StatusUpdated(String),
    Error(String),
}

/// UI actions that can be triggered.
#[derive(Debug, Clone)]
pub enum UiAction {
    UpdateField(String, String),
    SubmitForm,
    NavigateToScreen(String),
}

/// What a UI action says, with its texts as character sequences.
pub enum UiActionView {
    UpdateField(Seq<char>, Seq<char>),
    SubmitForm,
    NavigateToScreen(Seq<char>),
}

impl View for UiAction {
    type V = UiActionView;

    open spec fn view(&self) -> UiActionView {
        match self {
            UiAction::UpdateField(f, v) => UiActionView::UpdateField(f@, v@),
            UiAction::SubmitForm => UiActionView::SubmitForm,
            UiAction::NavigateToScreen(s) => UiActionView::NavigateToScreen(s@),
        }
    }
}

/// The view of an optional action.
pub open spec fn opt_action_view(a: Option<UiAction>) -> Option<UiActionView> {
    match a {
        Some(x) => Some(x@),
        None => None,
    }
}

/// Errors of the terminal interface.
#[derive(Debug, Clone)]
pub enum TuiError {
    CommandFailed(String),
    QueryFailed(String),
    StateError(String),
    InputError(String),
}

impl TuiError {
    /// The message shown for the error.
    pub fn message(&self) -> (r: String)
        ensures
            r@ == match self {
                TuiError::CommandFailed(m) => "Command execution failed: "@ + m@,
                TuiError::QueryFailed(m) => "Query execution failed: "@ + m@,
                TuiError::StateError(m) => "UI state error: "@ + m@,
                TuiError::InputError(m) => "Input handling error: "@ + m@,
            },
    {
        let (mut out, m) = match self {
            TuiError::CommandFailed(m) => ("Command execution failed: ".to_owned(), m),
            TuiError::QueryFailed(m) => ("Query execution failed: ".to_owned(), m),
            TuiError::StateError(m) => ("UI state error: ".to_owned(), m),
            TuiError::InputError(m) => ("Input handling error: ".to_owned(), m),
        };
        out.append(m.as_str());
        out
    }
}

/// The component that gets the focus after `current`.
pub open spec fn next_focus_of(current: Seq<char>) -> Seq<char> {
    if current == "main_menu"@ {
        "repository_path"@
    } else if current == "repository_path"@ {
        "actions"@
    } else {
        "main_menu"@
    }
}

/// The component that gets the focus before `current`.
pub open spec fn previous_focus_of(current: Seq<char>) -> Seq<char> {
    if current == "main_menu"@ {
        "actions"@
    } else if current == "repository_path"@ {
        "main_menu"@
    } else if current == "actions"@ {
        "repository_path"@
    } else {
        "main_menu"@
    }
}

/// UI-specific state for the terminal application.
#[derive(Debug)]
pub struct UiState {
    pub current_screen: String,
    pub current_repository_path: String,
    pub status_message: String,
    pub is_loading: bool,
    pub loading_message: String,
    pub focused_component: String,
    pub form_fields: StringTable,
    pub error_message: Option<String>,
}

impl Default for UiState {
    fn default() -> (r: Self)
        ensures
            r.current_screen@ == "main"@,
            r.current_repository_path@ == "."@,
            r.status_message@ == "Ready"@,
            !r.is_loading,
            r.loading_message@ == Seq::<char>::empty(),
            r.focused_component@ == "main_menu"@,
            r.form_fields@ == Map::<Seq<char>, Seq<char>>::empty(),
            r.error_message is None,
    {
        UiState {
            current_screen: "main".to_owned(),
            current_repository_path: ".".to_owned(),
            status_message: "Ready".to_owned(),
            is_loading: false,
            loading_message: String::new(),
            focused_component: "main_menu".to_owned(),
            form_fields: StringTable::new(),
            error_message: None,
        }
    }
}

impl UiState {
    /// Set the current status message; the error message is cleared.
    pub fn set_status(&mut self, message: String)
        ensures
            final(self).status_message == message,
            final(self).error_message is None,
            final(self).current_screen == old(self).current_screen,
            final(self).is_loading == old(self).is_loading,
            final(self).loading_message == old(self).loading_message,
            final(self).focused_component == old(self).focused_component,
            final(self).form_fields@ == old(self).form_fields@,
            final(self).current_repository_path == old(self).current_repository_path,
    {
        self.status_message = message;
        self.error_message = None;
    }

    /// Set loading state.
    pub fn set_loading(&mut self, loading: bool, message: String)
        ensures
            final(self).is_loading == loading,
            final(self).loading_message == message,
            final(self).status_message == old(self).status_message,
            final(self).error_message == old(self).error_message,
            final(self).current_screen == old(self).current_screen,
            final(self).focused_component == old(self).focused_component,
            final(self).form_fields@ == old(self).form_fields@,
            final(self).current_repository_path == old(self).current_repository_path,
    {
        self.is_loading = loading;
        self.loading_message = message;
    }

    /// Set error message; loading stops.
    pub fn set_error(&mut self, error: String)
        ensures
            final(self).error_message == Some(error),
            !final(self).is_loading,
            final(self).status_message == old(self).status_message,
            final(self).loading_message == old(self).loading_message,
            final(self).current_screen == old(self).current_screen,
            final(self).focused_component == old(self).focused_component,
            final(self).form_fields@ == old(self).form_fields@,
            final(self).current_repository_path == old(self).current_repository_path,
    {
        self.error_message = Some(error);
        self.is_loading = false;
    }

    /// Navigate to a different screen; the error message is cleared.
    pub fn navigate_to(&mut self, screen: String)
        ensures
            final(self).current_screen == screen,
            final(self).error_message is None,
            final(self).status_message == old(self).status_message,
            final(self).is_loading == old(self).is_loading,
            final(self).focused_component == old(self).focused_component,
            final(self).form_fields@ == old(self).form_fields@,
            final(self).loading_message == old(self).loading_message,
            final(self).current_repository_path == old(self).current_repository_path,
    {
        self.current_screen = screen;
        self.error_message = None;
    }

    /// Move focus to the next component: main menu, repository path,
    /// actions, and round again; from anything else to the main menu.
    pub fn next_focus(&mut self)
        ensures
            final(self).focused_component@ == next_focus_of(old(self).focused_component@),
            final(self).current_screen == old(self).current_screen,
            final(self).status_message == old(self).status_message,
            final(self).error_message == old(self).error_message,
            final(self).form_fields@ == old(self).form_fields@,
            final(self).is_loading == old(self).is_loading,
            final(self).loading_message == old(self).loading_message,
            final(self).current_repository_path == old(self).current_repository_path,
    {
        let next = if str_eq(self.focused_component.as_str(), "main_menu") {
            "repository_path".to_owned()
        } else if str_eq(self.focused_component.as_str(), "repository_path") {
            "actions".to_owned()
        } else {
            "main_menu".to_owned()
        };
        self.focused_component = next;
    }

    /// Move focus to the previous component, the other way round.
    pub fn previous_focus(&mut self)
        ensures
            final(self).focused_component@ == previous_focus_of(old(self).focused_component@),
            final(self).current_screen == old(self).current_screen,
            final(self).status_message == old(self).status_message,
            final(self).error_message == old(self).error_message,
            final(self).form_fields@ == old(self).form_fields@,
            final(self).is_loading == old(self).is_loading,
            final(self).loading_message == old(self).loading_message,
            final(self).current_repository_path == old(self).current_repository_path,
    {
        let previous = if str_eq(self.focused_component.as_str(), "main_menu") {
            "actions".to_owned()
        } else if str_eq(self.focused_component.as_str(), "repository_path") {
            "main_menu".to_owned()
        } else if str_eq(self.focused_component.as_str(), "actions") {
            "repository_path".to_owned()
        } else {
            "main_menu".to_owned()
        };
        self.focused_component = previous;
    }

    /// Update a form field.
    pub fn update_field(&mut self, field: String, value: String)
        ensures
            final(self).form_fields@ == old(self).form_fields@.insert(field@, value@),
            final(self).current_screen == old(self).current_screen,
            final(self).status_message == old(self).status_message,
            final(self).error_message == old(self).error_message,
            final(self).focused_component == old(self).focused_component,
            final(self).is_loading == old(self).is_loading,
            final(self).loading_message == old(self).loading_message,
            final(self).current_repository_path == old(self).current_repository_path,
    {
        self.form_fields.insert(field.as_str(), value.as_str());
    }

    /// Get the action for the focused component and a key: no key is
    /// mapped to an action yet.
    pub fn get_focused_action(&self, key: KeyEvent) -> (r: Option<UiAction>)
        ensures
            r is None,
    {
        None
    }

    /// Handle UI events: a completed operation sets its success message, a
    /// status update sets a fixed message, an error is shown.
    pub fn handle_event(&mut self, event: UiEvent)
        ensures
            match event {
                UiEvent::ReleaseCreated => final(self).status_message@ == "Release created successfully!"@
                    && final(self).error_message is None,
                UiEvent::TasksSynced => final(self).status_message@ == "Tasks synchronized successfully!"@
                    && final(self).error_message is None,
                UiEvent::NotesGenerated => final(self).status_message@ == "Release notes generated successfully!"@
                    && final(self).error_message is None,
                UiEvent::StatusUpdated(_) => final(self).status_message@ == "Status updated"@
                    && final(self).error_message is None,
                UiEvent::Error(e) => final(self).error_message == Some(e) && !final(self).is_loading
                    && final(self).status_message == old(self).status_message,
            },
            final(self).current_screen == old(self).current_screen,
            final(self).focused_component == old(self).focused_component,
            final(self).form_fields@ == old(self).form_fields@,
            final(self).loading_message == old(self).loading_message,
            final(self).current_repository_path == old(self).current_repository_path,
            !(event is Error) ==> final(self).is_loading == old(self).is_loading,
    {
        match event {
            UiEvent::ReleaseCreated => {
                self.set_status("Release created successfully!".to_owned());
            },
            UiEvent::TasksSynced => {
                self.set_status("Tasks synchronized successfully!".to_owned());
            },
            UiEvent::NotesGenerated => {
                self.set_status("Release notes generated successfully!".to_owned());
            },
            UiEvent::StatusUpdated(_status) => {
                self.set_status("Status updated".to_owned());
            },
            UiEvent::Error(error) => {
                self.set_error(error);
            },
        }
    }
}

/// The screen that a digit key opens from the main screen.
pub open spec fn main_screen_target(c: char) -> Option<Seq<char>> {
    if c == '1' {
        Some("create_release"@)
    } else if c == '2' {
        Some("sync_tasks"@)
    } else if c == '3' {
        Some("generate_notes"@)
    } else if c == '4' {
        Some("settings"@)
    } else {
        None
    }
}

/// Handle input for the main screen: the digits 1 to 4 open the release,
/// task, notes and settings screens.
pub fn handle_main_screen_input(key: KeyEvent, state: &UiState) -> (r: Option<UiAction>)
    ensures
        opt_action_view(r) == match key.code {
            KeyCode::Char(c) => match main_screen_target(c) {
                Some(s) => Some(UiActionView::NavigateToScreen(s)),
                None => None,
            },
            _ => None,
        },
{
    match key.code {
        KeyCode::Char('1') => Some(UiAction::NavigateToScreen("create_release".to_owned())),
        KeyCode::Char('2') => Some(UiAction::NavigateToScreen("sync_tasks".to_owned())),
        KeyCode::Char('3') => Some(UiAction::NavigateToScreen("generate_notes".to_owned())),
        KeyCode::Char('4') => Some(UiAction::NavigateToScreen("settings".to_owned())),
        _ => None,
    }
}

/// The form field that the focused input of the release screen edits.
pub open spec fn release_field(focused: Seq<char>) -> Option<Seq<char>> {
    if focused == "version_input"@ {
        Some("target_version"@)
    } else if focused == "notes_input"@ {
        Some("release_notes"@)
    } else {
        None
    }
}

/// The current text of a form field: empty when it has none.
pub open spec fn field_text(fields: Map<Seq<char>, Seq<char>>, field: Seq<char>) -> Seq<char> {
    if fields.contains_key(field) {
        fields[field]
    } else {
        Seq::empty()
    }
}

/// What the release screen does with a key.
pub open spec fn create_release_action(key: KeyEvent, focused: Seq<char>, fields: Map<Seq<char>, Seq<char>>) -> Option<UiActionView> {
    match key.code {
        KeyCode::Enter => Some(UiActionView::SubmitForm),
        KeyCode::Esc => Some(UiActionView::NavigateToScreen("main"@)),
        KeyCode::Char(c) => match release_field(focused) {
            Some(f) => Some(UiActionView::UpdateField(f, field_text(fields, f).push(c))),
            None => None,
        },
        KeyCode::Backspace => match release_field(focused) {
            Some(f) => Some(UiActionView::UpdateField(
                f,
                if field_text(fields, f).len() == 0 { field_text(fields, f) } else { field_text(fields, f).drop_last() },
            )),
            None => None,
        },
        _ => None,
    }
}

/// The form field edited by the focused input, if any.
fn focused_release_field(state: &UiState) -> (r: Option<String>)
    ensures
        match r {
            Some(f) => release_field(state.focused_component@) == Some(f@),
            None => release_field(state.focused_component@) is None,
        },
{
    if str_eq(state.focused_component.as_str(), "version_input") {
        Some("target_version".to_owned())
    } else if str_eq(state.focused_component.as_str(), "notes_input") {
        Some("release_notes".to_owned())
    } else {
        None
    }
}

/// The current text of a form field, empty when it has none.
fn current_field_text(state: &UiState, field: &str) -> (r: String)
    ensures
        r@ == field_text(state.form_fields@, field@),
{
    match state.form_fields.get(field) {
        Some(v) => v.to_owned(),
        None => String::new(),
    }
}

/// Handle input for the create release screen: Enter submits, Esc goes
/// back to the main screen, and a character or Backspace edits the field of
/// the focused input.
pub fn handle_create_release_input(key: KeyEvent, state: &UiState) -> (r: Option<UiAction>)
    ensures
        opt_action_view(r) == create_release_action(key, state.focused_component@, state.form_fields@),
{
    match key.code {
        KeyCode::Enter => Some(UiAction::SubmitForm),
        KeyCode::Esc => Some(UiAction::NavigateToScreen("main".to_owned())),
        KeyCode::Char(c) => {
            match focused_release_field(state) {
                Some(field) => {
                    let mut current_value = current_field_text(state, field.as_str());
                    push_char(&mut current_value, c);
                    Some(UiAction::UpdateField(field, current_value))
                },
                None => None,
            }
        },
        KeyCode::Backspace => {
            match focused_release_field(state) {
                Some(field) => {
                    let mut current_value = current_field_text(state, field.as_str());
                    let _ = pop_char(&mut current_value);
                    Some(UiAction::UpdateField(field, current_value))
                },
                None => None,
            }
        },
        _ => None,
    }
}

/// What the task and notes screens do with a key.
pub open spec fn confirm_or_back_action(key: KeyEvent) -> Option<UiActionView> {
    match key.code {
        KeyCode::Enter => Some(UiActionView::SubmitForm),
        KeyCode::Esc => Some(UiActionView::NavigateToScreen("main"@)),
        _ => None,
    }
}

/// Handle input for the sync tasks screen: Enter submits, Esc goes back.
pub fn handle_sync_tasks_input(key: KeyEvent, state: &UiState) -> (r: Option<UiAction>)
    ensures
        opt_action_view(r) == confirm_or_back_action(key),
{
    match key.code {
        KeyCode::Enter => Some(UiAction::SubmitForm),
        KeyCode::Esc => Some(UiAction::NavigateToScreen("main".to_owned())),
        _ => None,
    }
}

/// Handle input for the generate notes screen: Enter submits, Esc goes back.
pub fn handle_generate_notes_input(key: KeyEvent, state: &UiState) -> (r: Option<UiAction>)
    ensures
        opt_action_view(r) == confirm_or_back_action(key),
{
    match key.code {
        KeyCode::Enter => Some(UiAction::SubmitForm),
        KeyCode::Esc => Some(UiAction::NavigateToScreen("main".to_owned())),
        _ => None,
    }
}

/// Whether a key press is Ctrl+q.
pub open spec fn is_quit_key(key: KeyEvent) -> bool {
    key.code == KeyCode::Char('q') && key.modifiers.bits & 2 == 2
}

/// Main input router: Ctrl+q is left to the application; other keys go to
/// the handler of the current screen.
pub fn route_input(key: KeyEvent, state: &UiState) -> (r: Option<UiAction>)
    ensures
        opt_action_view(r) == if is_quit_key(key) {
            None
        } else if state.current_screen@ == "main"@ {
            match key.code {
                KeyCode::Char(c) => match main_screen_target(c) {
                    Some(s) => Some(UiActionView::NavigateToScreen(s)),
                    None => None,
                },
                _ => None,
            }
        } else if state.current_screen@ == "create_release"@ {
            create_release_action(key, state.focused_component@, state.form_fields@)
        } else if state.current_screen@ == "sync_tasks"@ || state.current_screen@ == "generate_notes"@ {
            confirm_or_back_action(key)
        } else {
            None
        },
{
    if key.code == KeyCode::Char('q') && key.modifiers.contains(KeyModifiers::control()) {
        return None;
    }
    if str_eq(state.current_screen.as_str(), "main") {
        handle_main_screen_input(key, state)
    } else if str_eq(state.current_screen.as_str(), "create_release") {
        handle_create_release_input(key, state)
    } else if str_eq(state.current_screen.as_str(), "sync_tasks") {
        handle_sync_tasks_input(key, state)
    } else if str_eq(state.current_screen.as_str(), "generate_notes") {
        handle_generate_notes_input(key, state)
    } else {
        None
    }
}

/// The terminal application: its UI state and whether it should quit.
pub struct TuiApplication {
    ui_state: UiState,
    should_quit: bool,
}

impl TuiApplication {
    /// The UI state.
    pub closed spec fn state_view(&self) -> &UiState {
        &self.ui_state
    }

    /// Whether the application should quit.
    pub closed spec fn quit_view(&self) -> bool {
        self.should_quit
    }

    /// A new application with the default UI state.
    pub fn new() -> (r: Self)
        ensures
            !r.quit_view(),
            r.state_view().current_screen@ == "main"@,
            r.state_view().status_message@ == "Ready"@,
            r.state_view().focused_component@ == "main_menu"@,
    {
        TuiApplication { ui_state: UiState::default(), should_quit: false }
    }

    /// Handle keyboard input: Ctrl+q asks to quit, `r` starts creating a
    /// release; other keys do nothing.
    pub fn handle_key_event(&mut self, key: KeyEvent) -> (r: Result<(), TuiError>)
        ensures
            r is Ok,
            final(self).quit_view() == (old(self).quit_view() || is_quit_key(key)),
            !is_quit_key(key) && key.code == KeyCode::Char('r') ==> {
                &&& final(self).state_view().status_message@ == "Creating release..."@
                &&& final(self).state_view().error_message is None
            },
            !is_quit_key(key) && key.code != KeyCode::Char('r') ==> final(self).state_view() == old(self).state_view(),
            final(self).state_view().current_screen == old(self).state_view().current_screen,
            final(self).state_view().focused_component == old(self).state_view().focused_component,
    {
        if key.code == KeyCode::Char('q') && key.modifiers.contains(KeyModifiers::control()) {
            self.should_quit = true;
        } else if key.code == KeyCode::Char('r') {
            self.ui_state.set_status("Creating release...".to_owned());
        }
        Ok(())
    }

    /// Check if the application should quit.
    pub fn should_quit(&self) -> (r: bool)
        ensures
            r == self.quit_view(),
    {
        self.should_quit
    }

    /// The current UI state, for rendering.
    pub fn get_ui_state(&self) -> (r: &UiState)
        ensures
            r == self.state_view(),
    {
        &self.ui_state
    }
}

} // verus!
