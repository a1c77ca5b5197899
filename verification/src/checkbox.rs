//! Checkbox with optional third (indeterminate) state, required-field
//! validation, keyboard handling, and groups of checkboxes.

use vstd::prelude::*;
use crate::text::copy_text;
use vstd::string::*;
use crate::component::{
    ComponentId, ComponentEvent, ComponentProps, CommonComponentState, FocusState,
    ValidationState, required_message,
};
use crate::keys::{KeyCode, KeyEvent};

verus! {

#[derive(Debug, Clone, Copy, PartialEq, Eq, Structural)]
pub enum CheckboxValue {
    Unchecked,
    Checked,
    /// For tristate support.
    Indeterminate,
}

impl Default for CheckboxValue {
    fn default() -> (r: Self)
        ensures
            r == CheckboxValue::Unchecked,
    {
        CheckboxValue::Unchecked
    }
}

/// The value after a two-state toggle.
pub open spec fn toggle_spec(v: CheckboxValue) -> CheckboxValue {
    match v {
        CheckboxValue::Unchecked => CheckboxValue::Checked,
        CheckboxValue::Checked => CheckboxValue::Unchecked,
        CheckboxValue::Indeterminate => CheckboxValue::Checked,
    }
}

/// The value after a three-state toggle: unchecked, checked, indeterminate, unchecked...
pub open spec fn tristate_toggle_spec(v: CheckboxValue) -> CheckboxValue {
    match v {
        CheckboxValue::Unchecked => CheckboxValue::Checked,
        CheckboxValue::Checked => CheckboxValue::Indeterminate,
        CheckboxValue::Indeterminate => CheckboxValue::Unchecked,
    }
}

impl CheckboxValue {
    pub fn is_checked(self) -> (r: bool)
        ensures
            r == (self == CheckboxValue::Checked),
    {
        matches!(self, CheckboxValue::Checked)
    }

    pub fn is_unchecked(self) -> (r: bool)
        ensures
            r == (self == CheckboxValue::Unchecked),
    {
        matches!(self, CheckboxValue::Unchecked)
    }

    pub fn is_indeterminate(self) -> (r: bool)
        ensures
            r == (self == CheckboxValue::Indeterminate),
    {
        matches!(self, CheckboxValue::Indeterminate)
    }

    /// Unchecked and indeterminate become checked; checked becomes unchecked.
    pub fn toggle(self) -> (r: Self)
        ensures
            r == toggle_spec(self),
    {
        match self {
            CheckboxValue::Unchecked => CheckboxValue::Checked,
            CheckboxValue::Checked => CheckboxValue::Unchecked,
            CheckboxValue::Indeterminate => CheckboxValue::Checked,
        }
    }

    /// The symbol drawn for the value.
    pub fn to_symbol(self) -> (r: &'static str)
        ensures
            r@ == (match self {
                CheckboxValue::Unchecked => "☐"@,
                CheckboxValue::Checked => "☑"@,
                CheckboxValue::Indeterminate => "☒"@,
            }),
    {
        match self {
            CheckboxValue::Unchecked => "☐",
            CheckboxValue::Checked => "☑",
            CheckboxValue::Indeterminate => "☒",
        }
    }

    /// The symbol drawn for the value, as a character.
    pub fn to_char(self) -> (r: char)
        ensures
            r == (match self {
                CheckboxValue::Unchecked => '☐',
                CheckboxValue::Checked => '☑',
                CheckboxValue::Indeterminate => '☒',
            }),
    {
        match self {
            CheckboxValue::Unchecked => '☐',
            CheckboxValue::Checked => '☑',
            CheckboxValue::Indeterminate => '☒',
        }
    }

    /// The name of the value, as it appears in change events.
    pub fn debug_name(self) -> (r: String)
        ensures
            r@ == value_name_spec(self),
    {
        match self {
            CheckboxValue::Unchecked => "Unchecked".to_owned(),
            CheckboxValue::Checked => "Checked".to_owned(),
            CheckboxValue::Indeterminate => "Indeterminate".to_owned(),
        }
    }
}

/// The name of a value, as it appears in change events.
pub open spec fn value_name_spec(v: CheckboxValue) -> Seq<char> {
    match v {
        CheckboxValue::Unchecked => "Unchecked"@,
        CheckboxValue::Checked => "Checked"@,
        CheckboxValue::Indeterminate => "Indeterminate"@,
    }
}

#[derive(Debug, Clone)]
pub struct CheckboxProps {
    pub id: ComponentId,
    pub label: String,
    pub help_text: Option<String>,
    pub required: bool,
    pub readonly: bool,
    /// Allow the indeterminate state.
    pub tristate: bool,
    /// For checkbox groups.
    pub group: Option<String>,
}

impl Default for CheckboxProps {
    fn default() -> (r: Self)
        ensures
            r.id@ == "checkbox"@,
            r.label@.len() == 0,
            r.help_text is None,
            !r.required,
            !r.readonly,
            !r.tristate,
            r.group is None,
    {
        CheckboxProps {
            id: ComponentId::new("checkbox"),
            label: String::new(),
            help_text: None,
            required: false,
            readonly: false,
            tristate: false,
            group: None,
        }
    }
}

impl ComponentProps for CheckboxProps {
    fn default_props() -> Self {
        CheckboxProps::default()
    }
}

#[derive(Debug, Clone)]
pub struct CheckboxState {
    pub common: CommonComponentState,
    pub value: CheckboxValue,
    pub last_validation_message: Option<String>,
}

impl Default for CheckboxState {
    fn default() -> (r: Self)
        ensures
            r.value == CheckboxValue::Unchecked,
            r.last_validation_message is None,
            r.common.focus_state == FocusState::Unfocused,
            r.common.validation_state == ValidationState::Valid,
            !r.common.dirty,
    {
        CheckboxState {
            common: CommonComponentState::new(),
            value: CheckboxValue::Unchecked,
            last_validation_message: None,
        }
    }
}

/// The validation outcome of a required field: `ok` means valid; otherwise
/// both the state and the message carry "This field is required".
pub open spec fn required_outcome(vs: ValidationState, msg: Option<String>, ok: bool) -> bool {
    if ok {
        vs == ValidationState::Valid && msg is None
    } else {
        &&& vs matches ValidationState::Invalid(m) && m@ == "This field is required"@
        &&& msg matches Some(m) && m@ == "This field is required"@
    }
}

/// Whether a value satisfies the checkbox's requirement.
pub open spec fn checkbox_ok(required: bool, v: CheckboxValue) -> bool {
    !required || v == CheckboxValue::Checked
}

/// The value a key press sets on a focused, writable checkbox.
pub open spec fn key_value_spec(tristate: bool, v: CheckboxValue, key: KeyEvent) -> CheckboxValue {
    let toggled = if tristate { tristate_toggle_spec(v) } else { toggle_spec(v) };
    match key.code {
        KeyCode::Char(' ') | KeyCode::Enter => toggled,
        KeyCode::Char('y') | KeyCode::Char('1') => CheckboxValue::Checked,
        KeyCode::Char('n') | KeyCode::Char('0') => CheckboxValue::Unchecked,
        KeyCode::Char('i') => if tristate { CheckboxValue::Indeterminate } else { v },
        KeyCode::Char('t') => if key.modifiers.bits == 2 { toggled } else { v },
        _ => v,
    }
}

#[derive(Debug)]
pub struct Checkbox {
    id: ComponentId,
    props: CheckboxProps,
    state: CheckboxState,
}

impl Clone for Checkbox {
    /// An exact copy: the same identifier, configuration and state.
    fn clone(&self) -> (r: Self)
        ensures
            r == *self,
    {
        let props = CheckboxProps {
            id: self.props.id.duplicate(),
            label: self.props.label.clone(),
            help_text: copy_text(&self.props.help_text),
            required: self.props.required,
            readonly: self.props.readonly,
            tristate: self.props.tristate,
            group: copy_text(&self.props.group),
        };
        let state = CheckboxState {
            common: self.state.common.duplicate(),
            value: self.state.value,
            last_validation_message: copy_text(&self.state.last_validation_message),
        };
        Checkbox { id: self.id.duplicate(), props, state }
    }
}

impl Checkbox {
    /// The events that a key press on this checkbox reports: one value
    /// change when the key changes the value of a focused, writable
    /// checkbox, else none.
    pub open spec fn key_events(&self, key: KeyEvent, events: Seq<ComponentEvent>) -> bool {
        let o = self.spec_state();
        let p = self.spec_props();
        let active = o.common.focus_state == FocusState::Focused && !p.readonly;
        let nv = if active { key_value_spec(p.tristate, o.value, key) } else { o.value };
        if nv == o.value {
            events.len() == 0
        } else {
            &&& events.len() == 1
            &&& events[0] matches ComponentEvent::ValueChanged { component_id, old_value, new_value }
                && component_id@ == self.spec_id()@
                && old_value@ == value_name_spec(o.value)
                && new_value@ == value_name_spec(nv)
        }
    }

    pub closed spec fn spec_id(&self) -> ComponentId {
        self.id
    }

    pub closed spec fn spec_props(&self) -> CheckboxProps {
        self.props
    }

    pub closed spec fn spec_state(&self) -> CheckboxState {
        self.state
    }

    pub fn new(props: CheckboxProps) -> (r: Self)
        ensures
            r.spec_id()@ == props.id@,
            r.spec_props() == props,
            r.spec_state().value == CheckboxValue::Unchecked,
            r.spec_state().last_validation_message is None,
            r.spec_state().common.focus_state == FocusState::Unfocused,
            r.spec_state().common.validation_state == ValidationState::Valid,
            !r.spec_state().common.dirty,
    {
        Checkbox { id: props.id.duplicate(), props, state: CheckboxState::default() }
    }

    pub fn with_label(self, label: &str) -> (r: Self)
        ensures
            r.spec_props().label@ == label@,
            r.spec_props().required == self.spec_props().required,
            r.spec_props().readonly == self.spec_props().readonly,
            r.spec_props().tristate == self.spec_props().tristate,
            r.spec_props().group == self.spec_props().group,
            r.spec_props().help_text == self.spec_props().help_text,
            r.spec_id() == self.spec_id(),
            r.spec_state() == self.spec_state(),
    {
        let mut s = self;
        s.props.label = label.to_owned();
        s
    }

    pub fn with_help_text(self, help_text: &str) -> (r: Self)
        ensures
            r.spec_props().help_text matches Some(h) && h@ == help_text@,
            r.spec_props().label == self.spec_props().label,
            r.spec_props().required == self.spec_props().required,
            r.spec_props().readonly == self.spec_props().readonly,
            r.spec_props().tristate == self.spec_props().tristate,
            r.spec_props().group == self.spec_props().group,
            r.spec_id() == self.spec_id(),
            r.spec_state() == self.spec_state(),
    {
        let mut s = self;
        s.props.help_text = Some(help_text.to_owned());
        s
    }

    pub fn required(self, required: bool) -> (r: Self)
        ensures
            r.spec_props() == (CheckboxProps { required, ..self.spec_props() }),
            r.spec_id() == self.spec_id(),
            r.spec_state() == self.spec_state(),
    {
        let mut s = self;
        s.props.required = required;
        s
    }

    pub fn readonly(self, readonly: bool) -> (r: Self)
        ensures
            r.spec_props() == (CheckboxProps { readonly, ..self.spec_props() }),
            r.spec_id() == self.spec_id(),
            r.spec_state() == self.spec_state(),
    {
        let mut s = self;
        s.props.readonly = readonly;
        s
    }

    pub fn tristate(self, tristate: bool) -> (r: Self)
        ensures
            r.spec_props() == (CheckboxProps { tristate, ..self.spec_props() }),
            r.spec_id() == self.spec_id(),
            r.spec_state() == self.spec_state(),
    {
        let mut s = self;
        s.props.tristate = tristate;
        s
    }

    pub fn with_group(self, group: &str) -> (r: Self)
        ensures
            r.spec_props().group matches Some(g) && g@ == group@,
            r.spec_props().label == self.spec_props().label,
            r.spec_props().required == self.spec_props().required,
            r.spec_props().readonly == self.spec_props().readonly,
            r.spec_props().tristate == self.spec_props().tristate,
            r.spec_props().help_text == self.spec_props().help_text,
            r.spec_id() == self.spec_id(),
            r.spec_state() == self.spec_state(),
    {
        let mut s = self;
        s.props.group = Some(group.to_owned());
        s
    }

    /// Sets the value and validates it.
    pub fn with_value(self, value: CheckboxValue) -> (r: Self)
        ensures
            r.spec_state().value == value,
            required_outcome(
                r.spec_state().common.validation_state,
                r.spec_state().last_validation_message,
                checkbox_ok(self.spec_props().required, value),
            ),
            r.spec_state().common.dirty == self.spec_state().common.dirty,
            r.spec_state().common.focus_state == self.spec_state().common.focus_state,
            r.spec_props() == self.spec_props(),
            r.spec_id() == self.spec_id(),
    {
        let mut s = self;
        s.state.value = value;
        s.validate();
        s
    }

    /// Checks the box and validates it.
    pub fn checked(self) -> (r: Self)
        ensures
            r.spec_state().value == CheckboxValue::Checked,
            required_outcome(r.spec_state().common.validation_state, r.spec_state().last_validation_message, true),
            r.spec_state().common.dirty == self.spec_state().common.dirty,
            r.spec_props() == self.spec_props(),
            r.spec_id() == self.spec_id(),
    {
        self.with_value(CheckboxValue::Checked)
    }

    /// Unchecks the box and validates it.
    pub fn unchecked(self) -> (r: Self)
        ensures
            r.spec_state().value == CheckboxValue::Unchecked,
            required_outcome(
                r.spec_state().common.validation_state,
                r.spec_state().last_validation_message,
                !self.spec_props().required,
            ),
            r.spec_state().common.dirty == self.spec_state().common.dirty,
            r.spec_props() == self.spec_props(),
            r.spec_id() == self.spec_id(),
    {
        self.with_value(CheckboxValue::Unchecked)
    }

    pub fn id(&self) -> (r: &ComponentId)
        ensures
            *r == self.spec_id(),
    {
        &self.id
    }

    pub fn props(&self) -> (r: &CheckboxProps)
        ensures
            *r == self.spec_props(),
    {
        &self.props
    }

    pub fn state(&self) -> (r: &CheckboxState)
        ensures
            *r == self.spec_state(),
    {
        &self.state
    }

    /// Get current value.
    pub fn value(&self) -> (r: CheckboxValue)
        ensures
            r == self.spec_state().value,
    {
        self.state.value
    }

    /// Set value; a change marks the box modified and revalidates it.
    pub fn set_value(&mut self, value: CheckboxValue)
        ensures
            final(self).spec_state().value == value,
            final(self).spec_props() == old(self).spec_props(),
            final(self).spec_id() == old(self).spec_id(),
            final(self).spec_state().common.focus_state == old(self).spec_state().common.focus_state,
            old(self).spec_state().value != value ==> {
                &&& final(self).spec_state().common.dirty
                &&& required_outcome(
                    final(self).spec_state().common.validation_state,
                    final(self).spec_state().last_validation_message,
                    checkbox_ok(old(self).spec_props().required, value),
                )
            },
            old(self).spec_state().value == value ==> final(self).spec_state() == old(self).spec_state(),
    {
        if self.state.value != value {
            self.state.value = value;
            self.state.common.mark_dirty();
            self.validate();
        }
    }

    /// Check if checkbox is checked.
    pub fn is_checked(&self) -> (r: bool)
        ensures
            r == (self.spec_state().value == CheckboxValue::Checked),
    {
        self.state.value.is_checked()
    }

    /// Check if checkbox is unchecked.
    pub fn is_unchecked(&self) -> (r: bool)
        ensures
            r == (self.spec_state().value == CheckboxValue::Unchecked),
    {
        self.state.value.is_unchecked()
    }

    /// Check if checkbox is indeterminate.
    pub fn is_indeterminate(&self) -> (r: bool)
        ensures
            r == (self.spec_state().value == CheckboxValue::Indeterminate),
    {
        self.state.value.is_indeterminate()
    }

    /// Toggle the checkbox value (nothing happens when it is read-only).
    pub fn toggle(&mut self)
        ensures
            old(self).spec_props().readonly ==> *final(self) == *old(self),
            !old(self).spec_props().readonly ==> {
                &&& final(self).spec_state().value == (if old(self).spec_props().tristate {
                    tristate_toggle_spec(old(self).spec_state().value)
                } else {
                    toggle_spec(old(self).spec_state().value)
                })
                &&& final(self).spec_state().common.dirty
                &&& required_outcome(
                    final(self).spec_state().common.validation_state,
                    final(self).spec_state().last_validation_message,
                    checkbox_ok(old(self).spec_props().required, final(self).spec_state().value),
                )
            },
            final(self).spec_props() == old(self).spec_props(),
            final(self).spec_id() == old(self).spec_id(),
            final(self).spec_state().common.focus_state == old(self).spec_state().common.focus_state,
    {
        if self.props.readonly {
            return;
        }
        let old_value = self.state.value;
        if self.props.tristate {
            self.state.value = match old_value {
                CheckboxValue::Unchecked => CheckboxValue::Checked,
                CheckboxValue::Checked => CheckboxValue::Indeterminate,
                CheckboxValue::Indeterminate => CheckboxValue::Unchecked,
            };
        } else {
            self.state.value = old_value.toggle();
        }
        self.state.common.mark_dirty();
        self.validate();
    }

    /// Check the checkbox.
    pub fn check(&mut self)
        ensures
            final(self).spec_state().value == CheckboxValue::Checked,
            final(self).spec_props() == old(self).spec_props(),
            final(self).spec_id() == old(self).spec_id(),
            final(self).spec_state().common.focus_state == old(self).spec_state().common.focus_state,
            old(self).spec_state().value != CheckboxValue::Checked ==> {
                &&& final(self).spec_state().common.dirty
                &&& required_outcome(
                    final(self).spec_state().common.validation_state,
                    final(self).spec_state().last_validation_message,
                    true,
                )
            },
            old(self).spec_state().value == CheckboxValue::Checked ==> final(self).spec_state() == old(self).spec_state(),
    {
        self.set_value(CheckboxValue::Checked);
    }

    /// Uncheck the checkbox.
    pub fn uncheck(&mut self)
        ensures
            final(self).spec_state().value == CheckboxValue::Unchecked,
            final(self).spec_props() == old(self).spec_props(),
            final(self).spec_id() == old(self).spec_id(),
            final(self).spec_state().common.focus_state == old(self).spec_state().common.focus_state,
            old(self).spec_state().value != CheckboxValue::Unchecked ==> {
                &&& final(self).spec_state().common.dirty
                &&& required_outcome(
                    final(self).spec_state().common.validation_state,
                    final(self).spec_state().last_validation_message,
                    !old(self).spec_props().required,
                )
            },
            old(self).spec_state().value == CheckboxValue::Unchecked ==> final(self).spec_state() == old(self).spec_state(),
    {
        self.set_value(CheckboxValue::Unchecked);
    }

    /// Set to indeterminate (if tristate is enabled).
    pub fn set_indeterminate(&mut self)
        ensures
            !old(self).spec_props().tristate ==> *final(self) == *old(self),
            old(self).spec_props().tristate ==> final(self).spec_state().value == CheckboxValue::Indeterminate,
            old(self).spec_props().tristate && old(self).spec_state().value != CheckboxValue::Indeterminate ==> {
                &&& final(self).spec_state().common.dirty
                &&& required_outcome(
                    final(self).spec_state().common.validation_state,
                    final(self).spec_state().last_validation_message,
                    !old(self).spec_props().required,
                )
            },
            old(self).spec_state().value == CheckboxValue::Indeterminate ==> final(self).spec_state() == old(self).spec_state(),
            final(self).spec_props() == old(self).spec_props(),
            final(self).spec_id() == old(self).spec_id(),
            final(self).spec_state().common.focus_state == old(self).spec_state().common.focus_state,
    {
        if self.props.tristate {
            self.set_value(CheckboxValue::Indeterminate);
        }
    }

    /// Validate current value.
    fn validate(&mut self)
        ensures
            required_outcome(
                final(self).spec_state().common.validation_state,
                final(self).spec_state().last_validation_message,
                checkbox_ok(old(self).spec_props().required, old(self).spec_state().value),
            ),
            final(self).spec_state().value == old(self).spec_state().value,
            final(self).spec_state().common.dirty == old(self).spec_state().common.dirty,
            final(self).spec_state().common.focus_state == old(self).spec_state().common.focus_state,
            final(self).spec_state().common.visibility_state == old(self).spec_state().common.visibility_state,
            final(self).spec_props() == old(self).spec_props(),
            final(self).spec_id() == old(self).spec_id(),
    {
        if self.props.required && !self.state.value.is_checked() {
            self.state.common.validation_state = ValidationState::Invalid(required_message());
            self.state.last_validation_message = Some(required_message());
            return;
        }
        self.state.common.validation_state = ValidationState::Valid;
        self.state.last_validation_message = None;
    }

    /// Check if component is valid.
    pub fn is_valid(&self) -> (r: bool)
        ensures
            r == (self.spec_state().common.validation_state == ValidationState::Valid),
    {
        match self.state.common.validation_state {
            ValidationState::Valid => true,
            _ => false,
        }
    }

    /// Get validation message.
    pub fn validation_message(&self) -> (r: Option<&str>)
        ensures
            match self.spec_state().last_validation_message {
                Some(m) => r matches Some(x) && x@ == m@,
                None => r is None,
            },
    {
        match &self.state.last_validation_message {
            Some(m) => Some(m.as_str()),
            None => None,
        }
    }

    /// Convert to boolean (checked = true, others = false).
    pub fn to_bool(&self) -> (r: bool)
        ensures
            r == (self.spec_state().value == CheckboxValue::Checked),
    {
        self.is_checked()
    }

    /// Get group name.
    pub fn group(&self) -> (r: Option<&str>)
        ensures
            match self.spec_props().group {
                Some(g) => r matches Some(x) && x@ == g@,
                None => r is None,
            },
    {
        match &self.props.group {
            Some(g) => Some(g.as_str()),
            None => None,
        }
    }

    /// The focus state.
    pub fn focus_state(&self) -> (r: FocusState)
        ensures
            r == self.spec_state().common.focus_state,
    {
        self.state.common.focus_state
    }

    /// Sets the focus state.
    pub fn set_focus_state(&mut self, state: FocusState)
        ensures
            final(self).spec_state().common.focus_state == state,
            final(self).spec_state().value == old(self).spec_state().value,
            final(self).spec_state().common.validation_state == old(self).spec_state().common.validation_state,
            final(self).spec_state().common.dirty == old(self).spec_state().common.dirty,
            final(self).spec_props() == old(self).spec_props(),
            final(self).spec_id() == old(self).spec_id(),
    {
        self.state.common.focus_state = state;
    }

    /// Handles a key press: a focused, writable box toggles on space, enter
    /// and Ctrl+T, is checked by `y`/`1`, unchecked by `n`/`0` and made
    /// indeterminate by `i` (tristate only). A change of value is reported
    /// by one value-changed event with the old and new value names.
    pub fn handle_key(&mut self, key: KeyEvent) -> (events: Vec<ComponentEvent>)
        ensures
            ({
                let o = old(self).spec_state();
                let p = old(self).spec_props();
                let active = o.common.focus_state == FocusState::Focused && !p.readonly;
                let nv = if active { key_value_spec(p.tristate, o.value, key) } else { o.value };
                &&& final(self).spec_state().value == nv
                &&& nv == o.value ==> final(self).spec_state() == o
                &&& nv != o.value ==> {
                    &&& final(self).spec_state().common.dirty
                    &&& required_outcome(
                        final(self).spec_state().common.validation_state,
                        final(self).spec_state().last_validation_message,
                        checkbox_ok(p.required, nv),
                    )
                    &&& events@.len() == 1
                    &&& events@[0] matches ComponentEvent::ValueChanged { component_id, old_value, new_value }
                        && component_id@ == old(self).spec_id()@
                        && old_value@ == value_name_spec(o.value)
                        && new_value@ == value_name_spec(nv)
                }
                &&& nv == o.value ==> events@.len() == 0
            }),
            old(self).key_events(key, events@),
            final(self).spec_props() == old(self).spec_props(),
            final(self).spec_id() == old(self).spec_id(),
            final(self).spec_state().common.focus_state == old(self).spec_state().common.focus_state,
    {
        let mut events: Vec<ComponentEvent> = Vec::new();
        if self.state.common.focus_state != FocusState::Focused || self.props.readonly {
            return events;
        }
        let old_value = self.state.value;
        match key.code {
            KeyCode::Char(' ') | KeyCode::Enter => {
                self.toggle();
            },
            KeyCode::Char('y') | KeyCode::Char('1') => {
                self.check();
            },
            KeyCode::Char('n') | KeyCode::Char('0') => {
                self.uncheck();
            },
            KeyCode::Char('i') => {
                if self.props.tristate {
                    self.set_indeterminate();
                }
            },
            KeyCode::Char('t') => {
                if key.modifiers.bits == 2 {
                    self.toggle();
                }
            },
            _ => {},
        }
        if old_value != self.state.value {
            events.push(
                ComponentEvent::ValueChanged {
                    component_id: self.id.duplicate(),
                    old_value: old_value.debug_name(),
                    new_value: self.state.value.debug_name(),
                },
            );
        }
        events
    }

    /// Handles focus events addressed to this checkbox: gaining focus
    /// focuses it; losing focus unfocuses and revalidates it.
    pub fn handle_event(&mut self, event: &ComponentEvent) -> (events: Vec<ComponentEvent>)
        ensures
            events@.len() == 0,
            final(self).spec_state().value == old(self).spec_state().value,
            final(self).spec_props() == old(self).spec_props(),
            final(self).spec_id() == old(self).spec_id(),
            match event {
                ComponentEvent::FocusGained { component_id } if component_id@ == old(self).spec_id()@ =>
                    final(self).spec_state().common.focus_state == FocusState::Focused,
                ComponentEvent::FocusLost { component_id } if component_id@ == old(self).spec_id()@ => {
                    &&& final(self).spec_state().common.focus_state == FocusState::Unfocused
                    &&& required_outcome(
                        final(self).spec_state().common.validation_state,
                        final(self).spec_state().last_validation_message,
                        checkbox_ok(old(self).spec_props().required, old(self).spec_state().value),
                    )
                },
                _ => *final(self) == *old(self),
            },
    {
        match event {
            ComponentEvent::FocusGained { component_id } => {
                if component_id.same_as(&self.id) {
                    self.set_focus_state(FocusState::Focused);
                }
            },
            ComponentEvent::FocusLost { component_id } => {
                if component_id.same_as(&self.id) {
                    self.set_focus_state(FocusState::Unfocused);
                    self.validate();
                }
            },
            _ => {},
        }
        Vec::new()
    }

    /// The label decorated with the markers of the box's state: required,
    /// modified, validation outcome, tristate and group.
    #[verifier::rlimit(40)]
    pub fn label_with_indicators(&self) -> (r: String)
        ensures
            r@ == label_indicators_spec(self.spec_props(), self.spec_state().common),
    {
        let mut label = self.props.label.clone();
        if self.props.required {
            label.append(" *");
        }
        if self.state.common.dirty {
            label.append(" (modified)");
        }
        match &self.state.common.validation_state {
            ValidationState::Invalid(_) => label.append(" ❌"),
            ValidationState::Pending => label.append(" ⚠️"),
            ValidationState::Valid => {
                if self.state.common.dirty {
                    label.append(" ✅");
                }
            },
        }
        if self.props.tristate {
            label.append(" (tristate)");
        }
        if let Some(group) = &self.props.group {
            label.append(" [");
            label.append(group.as_str());
            label.append("]");
        }
        label
    }
}

/// The decorations that follow a label: required, modified and validation markers.
pub open spec fn state_markers_spec(required: bool, common: CommonComponentState) -> Seq<char> {
    (if required { " *"@ } else { Seq::empty() })
    + (if common.dirty { " (modified)"@ } else { Seq::empty() })
    + (match common.validation_state {
        ValidationState::Invalid(_) => " ❌"@,
        ValidationState::Pending => " ⚠️"@,
        ValidationState::Valid => if common.dirty { " ✅"@ } else { Seq::empty() },
    })
}

/// A checkbox label with all its decorations.
pub open spec fn label_indicators_spec(p: CheckboxProps, common: CommonComponentState) -> Seq<char> {
    p.label@ + state_markers_spec(p.required, common)
    + (if p.tristate { " (tristate)"@ } else { Seq::empty() })
    + (match p.group {
        Some(g) => " ["@ + g@ + "]"@,
        None => Seq::empty(),
    })
}

/// Utility functions for working with checkbox groups.
pub struct CheckboxGroup {
    checkboxes: Vec<Checkbox>,
    allow_multiple: bool,
}

/// The number of checked boxes among the first `n`.
pub open spec fn checked_count_spec(s: Seq<Checkbox>, n: int) -> nat
    decreases n,
{
    if n <= 0 {
        0
    } else {
        checked_count_spec(s, n - 1) + (if s[n - 1].spec_state().value == CheckboxValue::Checked { 1nat } else { 0nat })
    }
}

/// The index of the first box with the given identifier, if any.
pub open spec fn first_with_id(s: Seq<Checkbox>, id: Seq<char>) -> Option<int> {
    if exists|i: int| 0 <= i < s.len() && s[i].spec_id()@ == id {
        Some(choose|i: int| 0 <= i < s.len() && s[i].spec_id()@ == id
            && forall|j: int| 0 <= j < i ==> s[j].spec_id()@ != id)
    } else {
        None
    }
}

impl CheckboxGroup {
    pub closed spec fn spec_boxes(&self) -> Seq<Checkbox> {
        self.checkboxes@
    }

    pub closed spec fn spec_allow_multiple(&self) -> bool {
        self.allow_multiple
    }

    /// At most one box is checked.
    pub open spec fn at_most_one_checked(&self) -> bool {
        forall|i: int, j: int|
            0 <= i < j < self.spec_boxes().len()
            ==> !(self.spec_boxes()[i].spec_state().value == CheckboxValue::Checked
                && self.spec_boxes()[j].spec_state().value == CheckboxValue::Checked)
    }

    pub fn new(allow_multiple: bool) -> (r: Self)
        ensures
            r.spec_boxes().len() == 0,
            r.spec_allow_multiple() == allow_multiple,
    {
        CheckboxGroup { checkboxes: Vec::new(), allow_multiple }
    }

    pub fn add_checkbox(&mut self, checkbox: Checkbox)
        ensures
            final(self).spec_boxes() == old(self).spec_boxes().push(checkbox),
            final(self).spec_allow_multiple() == old(self).spec_allow_multiple(),
    {
        self.checkboxes.push(checkbox);
    }

    fn position(&self, checkbox_id: &ComponentId) -> (r: Option<usize>)
        ensures
            match r {
                Some(i) => i < self.spec_boxes().len() && self.spec_boxes()[i as int].spec_id()@ == checkbox_id@
                    && forall|j: int| 0 <= j < i ==> self.spec_boxes()[j].spec_id()@ != checkbox_id@,
                None => forall|j: int| 0 <= j < self.spec_boxes().len() ==> self.spec_boxes()[j].spec_id()@ != checkbox_id@,
            },
    {
        let mut i: usize = 0;
        while i < self.checkboxes.len()
            invariant
                i <= self.checkboxes@.len(),
                forall|j: int| 0 <= j < i ==> self.checkboxes@[j].spec_id()@ != checkbox_id@,
            decreases self.checkboxes@.len() - i,
        {
            if self.checkboxes[i].id().same_as(checkbox_id) {
                return Some(i);
            }
            i += 1;
        }
        None
    }

    /// Toggles the first box with the given identifier; in a single-choice
    /// group, checking a box unchecks all the others. Returns whether such
    /// a box exists.
    pub fn toggle_checkbox(&mut self, checkbox_id: &ComponentId) -> (found: bool)
        ensures
            found == (exists|j: int| 0 <= j < old(self).spec_boxes().len() && old(self).spec_boxes()[j].spec_id()@ == checkbox_id@),
            !found ==> final(self).spec_boxes() == old(self).spec_boxes(),
            found ==> ({
                let k = first_with_id(old(self).spec_boxes(), checkbox_id@)->0;
                let t = old(self).spec_boxes()[k];
                let was_checked = t.spec_state().value == CheckboxValue::Checked;
                let clears = !old(self).spec_allow_multiple() && !was_checked;
                &&& final(self).spec_boxes().len() == old(self).spec_boxes().len()
                &&& forall|j: int| 0 <= j < final(self).spec_boxes().len() && j != k ==>
                    (if clears {
                        final(self).spec_boxes()[j].spec_state().value == CheckboxValue::Unchecked
                    } else {
                        final(self).spec_boxes()[j] == old(self).spec_boxes()[j]
                    })
                &&& (t.spec_props().readonly ==> final(self).spec_boxes()[k].spec_state().value == t.spec_state().value)
                &&& (!t.spec_props().readonly ==> final(self).spec_boxes()[k].spec_state().value == (
                    if t.spec_props().tristate { tristate_toggle_spec(t.spec_state().value) } else { toggle_spec(t.spec_state().value) }))
            }),
            final(self).spec_allow_multiple() == old(self).spec_allow_multiple(),
            !old(self).spec_allow_multiple() && old(self).at_most_one_checked() ==> final(self).at_most_one_checked(),
            forall|j: int| 0 <= j < final(self).spec_boxes().len() ==>
                final(self).spec_boxes()[j].spec_id() == old(self).spec_boxes()[j].spec_id()
                && final(self).spec_boxes()[j].spec_props() == old(self).spec_boxes()[j].spec_props(),
    {
        match self.position(checkbox_id) {
            Some(index) => {
                proof {
                    let s = self.checkboxes@;
                    let fw = first_with_id(s, checkbox_id@);
                    assert(s[index as int].spec_id()@ == checkbox_id@);
                    let k = fw->0;
                    assert(0 <= k < s.len() && s[k].spec_id()@ == checkbox_id@
                        && forall|j: int| 0 <= j < k ==> s[j].spec_id()@ != checkbox_id@);
                    if k < index {
                    } else if index < k {
                    }
                    assert(k == index);
                }
                let was_checked = self.checkboxes[index].is_checked();
                let ghost s0 = self.checkboxes@;
                if !self.allow_multiple && !was_checked {
                    let mut i: usize = 0;
                    while i < self.checkboxes.len()
                        invariant
                            i <= self.checkboxes@.len(),
                            !self.allow_multiple,
                            self.checkboxes@.len() == s0.len(),
                            index < s0.len(),
                            self.checkboxes@[index as int] == s0[index as int],
                            forall|j: int| 0 <= j < i && j != index ==>
                                self.checkboxes@[j].spec_state().value == CheckboxValue::Unchecked,
                            forall|j: int| i <= j < s0.len() ==> self.checkboxes@[j] == s0[j],
                            forall|j: int| 0 <= j < s0.len() ==>
                                self.checkboxes@[j].spec_id() == s0[j].spec_id()
                                && self.checkboxes@[j].spec_props() == s0[j].spec_props(),
                        decreases s0.len() - i,
                    {
                        if i != index {
                            let mut cb = self.checkboxes.remove(i);
                            cb.uncheck();
                            self.checkboxes.insert(i, cb);
                        }
                        i += 1;
                    }
                }
                let mut target = self.checkboxes.remove(index);
                target.toggle();
                self.checkboxes.insert(index, target);
                proof {
                    if !self.allow_multiple && (forall|i: int, j: int| 0 <= i < j < s0.len() ==>
                        !(s0[i].spec_state().value == CheckboxValue::Checked && s0[j].spec_state().value == CheckboxValue::Checked)) {
                        lemma_single_choice_toggle(s0, self.checkboxes@, index as int, self.allow_multiple);
                    }
                }
                true
            },
            None => false,
        }
    }

    /// The identifiers of the checked boxes, in order.
    pub fn get_checked_values(&self) -> (r: Vec<ComponentId>)
        ensures
            r@.len() == checked_count_spec(self.spec_boxes(), self.spec_boxes().len() as int),
    {
        let mut r: Vec<ComponentId> = Vec::new();
        let mut i: usize = 0;
        while i < self.checkboxes.len()
            invariant
                i <= self.checkboxes@.len(),
                r@.len() == checked_count_spec(self.checkboxes@, i as int),
            decreases self.checkboxes@.len() - i,
        {
            if self.checkboxes[i].is_checked() {
                r.push(self.checkboxes[i].id().duplicate());
            }
            i += 1;
        }
        r
    }

    /// The number of checked boxes.
    pub fn get_checked_count(&self) -> (r: usize)
        ensures
            r == checked_count_spec(self.spec_boxes(), self.spec_boxes().len() as int),
    {
        let mut n: usize = 0;
        let mut i: usize = 0;
        while i < self.checkboxes.len()
            invariant
                i <= self.checkboxes@.len(),
                n == checked_count_spec(self.checkboxes@, i as int),
                n <= i,
            decreases self.checkboxes@.len() - i,
        {
            if self.checkboxes[i].is_checked() {
                n += 1;
            }
            i += 1;
        }
        n
    }

    /// Unchecks every box.
    pub fn clear_all(&mut self)
        ensures
            final(self).spec_boxes().len() == old(self).spec_boxes().len(),
            forall|j: int| 0 <= j < final(self).spec_boxes().len() ==>
                final(self).spec_boxes()[j].spec_state().value == CheckboxValue::Unchecked,
            final(self).spec_allow_multiple() == old(self).spec_allow_multiple(),
    {
        let ghost n = self.checkboxes@.len();
        let ghost am = self.allow_multiple;
        let mut i: usize = 0;
        while i < self.checkboxes.len()
            invariant
                i <= self.checkboxes@.len(),
                self.checkboxes@.len() == n,
                self.allow_multiple == am,
                forall|j: int| 0 <= j < i ==> self.checkboxes@[j].spec_state().value == CheckboxValue::Unchecked,
            decreases n - i,
        {
            let mut cb = self.checkboxes.remove(i);
            cb.uncheck();
            self.checkboxes.insert(i, cb);
            i += 1;
        }
    }

    /// Checks every box, in a group that allows several.
    pub fn check_all(&mut self)
        ensures
            !old(self).spec_allow_multiple() ==> final(self).spec_boxes() == old(self).spec_boxes(),
            final(self).spec_boxes().len() == old(self).spec_boxes().len(),
            old(self).spec_allow_multiple() ==> forall|j: int| 0 <= j < final(self).spec_boxes().len() ==>
                final(self).spec_boxes()[j].spec_state().value == CheckboxValue::Checked,
            final(self).spec_allow_multiple() == old(self).spec_allow_multiple(),
    {
        if self.allow_multiple {
            let ghost n = self.checkboxes@.len();
            let mut i: usize = 0;
            while i < self.checkboxes.len()
                invariant
                    i <= self.checkboxes@.len(),
                    self.checkboxes@.len() == n,
                    self.allow_multiple,
                    forall|j: int| 0 <= j < i ==> self.checkboxes@[j].spec_state().value == CheckboxValue::Checked,
                decreases n - i,
            {
                let mut cb = self.checkboxes.remove(i);
                cb.check();
                self.checkboxes.insert(i, cb);
                i += 1;
            }
        }
    }
}

/// In a single-choice group in which at most one box is checked, toggling a
/// box leaves at most one box checked.
pub proof fn lemma_single_choice_toggle(
    before: Seq<Checkbox>,
    after: Seq<Checkbox>,
    k: int,
    allow_multiple: bool,
)
    requires
        !allow_multiple,
        0 <= k < before.len(),
        after.len() == before.len(),
        forall|i: int, j: int| 0 <= i < j < before.len() ==>
            !(before[i].spec_state().value == CheckboxValue::Checked && before[j].spec_state().value == CheckboxValue::Checked),
        ({
            let t = before[k];
            let was_checked = t.spec_state().value == CheckboxValue::Checked;
            let clears = !was_checked;
            &&& forall|j: int| 0 <= j < after.len() && j != k ==>
                (if clears {
                    after[j].spec_state().value == CheckboxValue::Unchecked
                } else {
                    after[j] == before[j]
                })
            &&& (t.spec_props().readonly ==> after[k].spec_state().value == t.spec_state().value)
            &&& (!t.spec_props().readonly ==> after[k].spec_state().value == (
                if t.spec_props().tristate { tristate_toggle_spec(t.spec_state().value) } else { toggle_spec(t.spec_state().value) }))
        }),
    ensures
        forall|i: int, j: int| 0 <= i < j < after.len() ==>
            !(after[i].spec_state().value == CheckboxValue::Checked && after[j].spec_state().value == CheckboxValue::Checked),
{
    assert forall|i: int, j: int| 0 <= i < j < after.len() implies
        !(after[i].spec_state().value == CheckboxValue::Checked && after[j].spec_state().value == CheckboxValue::Checked) by {
        if before[k].spec_state().value == CheckboxValue::Checked {
            if i == k || j == k {
                let other = if i == k { j } else { i };
                if i == k {
                    assert(after[j] == before[j]);
                } else {
                    assert(after[i] == before[i]);
                }
            } else {
                assert(after[i] == before[i] && after[j] == before[j]);
            }
        }
    }
}

} // verus!
