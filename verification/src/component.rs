//! Core component vocabulary: identifiers, focus/visibility/validation
//! states, component events and the state every component carries.

use vstd::prelude::*;
use vstd::string::*;

verus! {

/// Calls `chrono::Utc::now` and converts the instant to milliseconds since
/// the Unix epoch (`DateTime::timestamp_millis`). Nothing is promised about
/// the value: it depends on the clock at the time of the call.
#[verifier::external_body]
pub fn utc_now_millis() -> (r: i64) {
    chrono::Utc::now().timestamp_millis()
}

/// Unique identifier for components.
#[derive(Debug, Clone, PartialEq, Eq, Hash)]
pub struct ComponentId(pub String);

impl View for ComponentId {
    type V = Seq<char>;

    open spec fn view(&self) -> Seq<char> {
        self.0@
    }
}

impl ComponentId {
    /// Creates an identifier holding `name`.
    pub fn new(name: &str) -> (r: Self)
        ensures
            r@ == name@,
    {
        ComponentId(name.to_owned())
    }

    /// Creates the identifier `<self>_<suffix>`.
    pub fn with_suffix(&self, suffix: &str) -> (r: Self)
        ensures
            r@ == self@ + "_"@ + suffix@,
    {
        proof {
            reveal_strlit("_");
        }
        let mut s = self.0.clone();
        s.append("_");
        s.append(suffix);
        ComponentId(s)
    }

    /// A copy of this identifier.
    pub fn duplicate(&self) -> (r: Self)
        ensures
            r@ == self@,
            r == *self,
    {
        ComponentId(self.0.clone())
    }

    /// Whether two identifiers hold the same text.
    pub fn same_as(&self, other: &ComponentId) -> (r: bool)
        ensures
            r == (self@ == other@),
    {
        self.0 == other.0
    }

    /// The text shown for this identifier (its name).
    pub fn to_display_string(&self) -> (r: String)
        ensures
            r@ == self@,
    {
        self.0.clone()
    }
}

impl From<&str> for ComponentId {
    fn from(s: &str) -> (r: ComponentId)
        ensures
            r@ == s@,
    {
        ComponentId::new(s)
    }
}

impl vstd::std_specs::convert::FromSpecImpl<&str> for ComponentId {
    open spec fn obeys_from_spec() -> bool {
        false
    }

    open spec fn from_spec(s: &str) -> ComponentId {
        arbitrary()
    }
}

/// Component focus state for navigation.
#[derive(Debug, Clone, Copy, PartialEq, Eq, Hash, Structural)]
pub enum FocusState {
    Focused,
    Unfocused,
    Disabled,
}

/// Component visibility state.
#[derive(Debug, Clone, Copy, PartialEq, Eq, Hash, Structural)]
pub enum VisibilityState {
    Visible,
    Hidden,
    Collapsed,
}

/// Component validation state.
#[derive(Debug, Clone, PartialEq, Eq)]
pub enum ValidationState {
    Valid,
    Invalid(String),
    Pending,
}

/// Navigation directions for focus traversal.
#[derive(Debug, Clone, Copy, PartialEq, Eq, Structural)]
pub enum NavigationDirection {
    Up,
    Down,
    Left,
    Right,
    Next,
    Previous,
    First,
    Last,
}

/// Common component events.
#[derive(Debug, Clone)]
pub enum ComponentEvent {
    /// Component gained focus.
    FocusGained { component_id: ComponentId },
    /// Component lost focus.
    FocusLost { component_id: ComponentId },
    /// Component value changed.
    ValueChanged { component_id: ComponentId, old_value: String, new_value: String },
    /// Component validation state changed.
    ValidationChanged { component_id: ComponentId, state: ValidationState },
    /// Component was clicked/activated.
    Activated { component_id: ComponentId },
    /// Button was clicked with click count.
    ButtonClicked { component_id: ComponentId, button_text: String, click_count: u32 },
    /// Component requests navigation.
    NavigationRequested { component_id: ComponentId, direction: NavigationDirection },
}

/// Component-specific errors.
#[derive(Debug, Clone)]
pub enum ComponentError {
    NotFound { id: ComponentId },
    ValidationFailed { message: String },
    StateError { message: String },
    RenderError { message: String },
    LifecycleError { message: String },
}

/// Result type for component operations.
pub type ComponentResult<T> = Result<T, ComponentError>;

/// Trait for component properties (immutable configuration).
pub trait ComponentProps: Sized {
    fn default_props() -> Self;
}

/// Builder trait for creating components with proper configuration.
pub trait ComponentBuilder<C>: Sized {
    type Error;
    type Props;
    type State;

    /// Set component ID.
    fn id(self, id: ComponentId) -> Self;

    /// Set component properties.
    fn props(self, props: Self::Props) -> Self;

    /// Set initial state.
    fn state(self, state: Self::State) -> Self;

    /// Build the component.
    fn build(self) -> Result<C, Self::Error>;
}

/// Common state shared by all components.
#[derive(Debug, Clone)]
pub struct CommonComponentState {
    pub focus_state: FocusState,
    pub visibility_state: VisibilityState,
    pub validation_state: ValidationState,
    pub dirty: bool,
    /// Milliseconds since the Unix epoch (UTC) of the last change.
    pub last_update: i64,
}

impl ValidationState {
    /// An exact copy of this state.
    pub(crate) fn duplicate(&self) -> (r: Self)
        ensures
            r == *self,
    {
        match self {
            ValidationState::Valid => ValidationState::Valid,
            ValidationState::Invalid(m) => ValidationState::Invalid(m.clone()),
            ValidationState::Pending => ValidationState::Pending,
        }
    }
}

impl CommonComponentState {
    /// An exact copy of this state.
    pub(crate) fn duplicate(&self) -> (r: Self)
        ensures
            r == *self,
    {
        CommonComponentState {
            focus_state: self.focus_state,
            visibility_state: self.visibility_state,
            validation_state: self.validation_state.duplicate(),
            dirty: self.dirty,
            last_update: self.last_update,
        }
    }

    /// The initial state: unfocused, visible, valid and clean.
    pub fn new() -> (r: Self)
        ensures
            r.focus_state == FocusState::Unfocused,
            r.visibility_state == VisibilityState::Visible,
            r.validation_state == ValidationState::Valid,
            !r.dirty,
    {
        CommonComponentState {
            focus_state: FocusState::Unfocused,
            visibility_state: VisibilityState::Visible,
            validation_state: ValidationState::Valid,
            dirty: false,
            last_update: utc_now_millis(),
        }
    }

    /// Marks the state as modified and records the time of the change.
    pub fn mark_dirty(&mut self)
        ensures
            final(self).dirty,
            final(self).focus_state == old(self).focus_state,
            final(self).visibility_state == old(self).visibility_state,
            final(self).validation_state == old(self).validation_state,
    {
        self.dirty = true;
        self.last_update = utc_now_millis();
    }

    /// Clears the modified flag.
    pub fn clear_dirty(&mut self)
        ensures
            !final(self).dirty,
            final(self).focus_state == old(self).focus_state,
            final(self).visibility_state == old(self).visibility_state,
            final(self).validation_state == old(self).validation_state,
            final(self).last_update == old(self).last_update,
    {
        self.dirty = false;
    }

    /// Whether the state has been modified.
    pub fn is_dirty(&self) -> (r: bool)
        ensures
            r == self.dirty,
    {
        self.dirty
    }

    /// Whether a component in this state can receive focus:
    /// it is visible and not disabled.
    pub fn can_focus(&self) -> (r: bool)
        ensures
            r == (self.visibility_state == VisibilityState::Visible
                && self.focus_state != FocusState::Disabled),
    {
        self.visibility_state == VisibilityState::Visible && self.focus_state != FocusState::Disabled
    }

    /// Whether the component is focused.
    pub fn is_focused(&self) -> (r: bool)
        ensures
            r == (self.focus_state == FocusState::Focused),
    {
        self.focus_state == FocusState::Focused
    }

    /// Whether the component is visible.
    pub fn is_visible(&self) -> (r: bool)
        ensures
            r == (self.visibility_state == VisibilityState::Visible),
    {
        self.visibility_state == VisibilityState::Visible
    }
}

impl Default for CommonComponentState {
    fn default() -> (r: Self)
        ensures
            r.focus_state == FocusState::Unfocused,
            r.visibility_state == VisibilityState::Visible,
            r.validation_state == ValidationState::Valid,
            !r.dirty,
    {
        CommonComponentState::new()
    }
}

/// The message of the required-field validation error.
pub fn required_message() -> (r: String)
    ensures
        r@ == "This field is required"@,
{
    "This field is required".to_owned()
}

} // verus!
