//! Radio button groups: options, selection, highlight movement in the three
//! layouts, where the options are drawn, keyboard handling, and a registry
//! of selections per group.

use vstd::prelude::*;
use vstd::string::*;
use crate::assoc::StringTable;
use crate::checkbox::{required_outcome, state_markers_spec};
use crate::component::{
    ComponentId, ComponentEvent, ComponentProps, CommonComponentState, FocusState,
    ValidationState, required_message,
};
use crate::keys::{KeyCode, KeyEvent, is_ascii_digit};
use crate::placement::{
    grid_line, grid_lines, grid_lines_fit, line_cell, line_cells, line_count, lines_fit, row_cell, row_cells,
    row_fits, Area,
};
use crate::text::{copy_text, str_eq};

verus! {

#[derive(Debug, Clone, PartialEq)]
pub struct RadioOption {
    pub value: String,
    pub label: String,
    pub disabled: bool,
    pub help_text: Option<String>,
}

impl RadioOption {
    pub fn new(value: &str, label: &str) -> (r: Self)
        ensures
            r.value@ == value@,
            r.label@ == label@,
            !r.disabled,
            r.help_text is None,
    {
        RadioOption { value: value.to_owned(), label: label.to_owned(), disabled: false, help_text: None }
    }

    pub fn disabled(self) -> (r: Self)
        ensures
            r == (RadioOption { disabled: true, ..self }),
    {
        let mut s = self;
        s.disabled = true;
        s
    }

    pub fn with_help_text(self, help_text: &str) -> (r: Self)
        ensures
            r.help_text matches Some(h) && h@ == help_text@,
            r.value == self.value,
            r.label == self.label,
            r.disabled == self.disabled,
    {
        let mut s = self;
        s.help_text = Some(help_text.to_owned());
        s
    }
}

#[derive(Debug, Clone, Copy, PartialEq, Eq, Structural)]
pub enum RadioLayout {
    Vertical,
    Horizontal,
    /// Grid with specified number of columns.
    Grid(u16),
}

#[derive(Debug, Clone)]
pub struct RadioProps {
    pub id: ComponentId,
    pub group_name: String,
    pub options: Vec<RadioOption>,
    pub title: String,
    pub required: bool,
    pub readonly: bool,
    pub layout: RadioLayout,
    pub help_text: Option<String>,
}

impl Default for RadioProps {
    fn default() -> (r: Self)
        ensures
            r.id@ == "radio"@,
            r.group_name@.len() == 0,
            r.options@.len() == 0,
            r.title@.len() == 0,
            !r.required,
            !r.readonly,
            r.layout == RadioLayout::Vertical,
            r.help_text is None,
    {
        RadioProps {
            id: ComponentId::new("radio"),
            group_name: String::new(),
            options: Vec::new(),
            title: String::new(),
            required: false,
            readonly: false,
            layout: RadioLayout::Vertical,
            help_text: None,
        }
    }
}

impl ComponentProps for RadioProps {
    fn default_props() -> Self {
        RadioProps::default()
    }
}

#[derive(Debug, Clone)]
pub struct RadioState {
    pub common: CommonComponentState,
    pub selected_value: Option<String>,
    pub highlighted_index: usize,
    pub last_validation_message: Option<String>,
}

impl Default for RadioState {
    fn default() -> (r: Self)
        ensures
            r.selected_value is None,
            r.highlighted_index == 0,
            r.last_validation_message is None,
            r.common.focus_state == FocusState::Unfocused,
            r.common.validation_state == ValidationState::Valid,
            !r.common.dirty,
    {
        RadioState {
            common: CommonComponentState::new(),
            selected_value: None,
            highlighted_index: 0,
            last_validation_message: None,
        }
    }
}

/// The text of an optional string.
pub open spec fn opt_text(s: Option<String>) -> Option<Seq<char>> {
    match s {
        Some(x) => Some(x@),
        None => None,
    }
}

/// The index of the first option with the given value, if any.
pub open spec fn first_option_index(opts: Seq<RadioOption>, v: Seq<char>) -> Option<int> {
    if exists|i: int| 0 <= i < opts.len() && opts[i].value@ == v {
        Some(choose|i: int| 0 <= i < opts.len() && opts[i].value@ == v
            && forall|j: int| 0 <= j < i ==> opts[j].value@ != v)
    } else {
        None
    }
}

/// Whether selecting `v` succeeds: the group is writable and the first
/// option with that value is enabled.
pub open spec fn can_select(p: RadioProps, v: Seq<char>) -> bool {
    !p.readonly && match first_option_index(p.options@, v) {
        Some(i) => !p.options@[i].disabled,
        None => false,
    }
}

/// The highlight after moving up: the previous option, wrapping to the last.
pub open spec fn up_index(h: usize, n: nat) -> int {
    if h > 0 { h - 1 } else if n == 0 { 0 } else { n - 1 }
}

/// The highlight after moving down: the next option, wrapping to the first.
pub open spec fn down_index(h: usize, n: nat) -> int {
    (h + 1) % (n as int)
}

/// The highlight after moving left.
pub open spec fn left_index(layout: RadioLayout, h: usize, n: nat) -> int {
    match layout {
        RadioLayout::Horizontal => up_index(h, n),
        RadioLayout::Grid(c) => if (h as int) % (c as int) > 0 { h - 1 } else { h as int },
        RadioLayout::Vertical => h as int,
    }
}

/// The highlight after moving right.
pub open spec fn right_index(layout: RadioLayout, h: usize, n: nat) -> int {
    match layout {
        RadioLayout::Horizontal => down_index(h, n),
        RadioLayout::Grid(c) => if (h as int) % (c as int) < c - 1 && h + 1 < n { h + 1 } else { h as int },
        RadioLayout::Vertical => h as int,
    }
}

/// Whether a move in the layout can be made: wrapping needs options and a
/// grid needs columns.
pub open spec fn layout_moves_ok(layout: RadioLayout, h: usize, n: nat) -> bool {
    &&& h < usize::MAX
    &&& match layout {
        RadioLayout::Horizontal => n > 0,
        RadioLayout::Grid(c) => c > 0,
        RadioLayout::Vertical => true,
    }
}

/// Whether the group's requirement holds for a selection.
pub open spec fn radio_ok(required: bool, sel: Option<String>) -> bool {
    !(required && sel is None)
}

#[derive(Debug)]
pub struct Radio {
    id: ComponentId,
    props: RadioProps,
    state: RadioState,
}

/// Whether two radio groups agree in everything they show and do: the
/// identifier, the configuration (options compared by their contents) and
/// the state.
pub open spec fn same_radio(a: Radio, b: Radio) -> bool {
    let (p, q) = (a.spec_props(), b.spec_props());
    &&& a.spec_id() == b.spec_id()
    &&& p.id == q.id && p.group_name == q.group_name && p.options@ == q.options@
    &&& p.title == q.title && p.required == q.required && p.readonly == q.readonly
    &&& p.layout == q.layout && p.help_text == q.help_text
    &&& a.spec_state() == b.spec_state()
}

/// An exact copy of a list of options.
fn copy_options(v: &Vec<RadioOption>) -> (r: Vec<RadioOption>)
    ensures
        r@ == v@,
{
    let mut r: Vec<RadioOption> = Vec::new();
    let mut i: usize = 0;
    while i < v.len()
        invariant
            i <= v@.len(),
            r@ == v@.take(i as int),
        decreases v@.len() - i,
    {
        let o = &v[i];
        r.push(RadioOption {
            value: o.value.clone(),
            label: o.label.clone(),
            disabled: o.disabled,
            help_text: copy_text(&o.help_text),
        });
        assert(r@ =~= v@.take(i + 1));
        i += 1;
    }
    assert(v@.take(v@.len() as int) =~= v@);
    r
}

impl Clone for Radio {
    /// A copy that agrees with the group in everything it shows and does.
    fn clone(&self) -> (r: Self)
        ensures
            same_radio(r, *self),
    {
        let state = RadioState {
            common: self.state.common.duplicate(),
            selected_value: copy_text(&self.state.selected_value),
            highlighted_index: self.state.highlighted_index,
            last_validation_message: copy_text(&self.state.last_validation_message),
        };
        let props = RadioProps {
            id: self.props.id.duplicate(),
            group_name: self.props.group_name.clone(),
            options: copy_options(&self.props.options),
            title: self.props.title.clone(),
            required: self.props.required,
            readonly: self.props.readonly,
            layout: self.props.layout,
            help_text: copy_text(&self.props.help_text),
        };
        Radio { id: self.id.duplicate(), props, state }
    }
}

impl Radio {
    pub closed spec fn spec_id(&self) -> ComponentId {
        self.id
    }

    pub closed spec fn spec_props(&self) -> RadioProps {
        self.props
    }

    pub closed spec fn spec_state(&self) -> RadioState {
        self.state
    }

    /// The selected value's text.
    /// The selection after a key: a focused, writable group takes it as
    /// `radio_key_selection` says; otherwise it stays.
    pub open spec fn key_selection(&self, key: KeyEvent) -> Option<Seq<char>> {
        if self.spec_state().common.focus_state == FocusState::Focused && !self.spec_props().readonly {
            radio_key_selection(self.spec_props(), self.selection(), self.spec_state().highlighted_index, key)
        } else {
            self.selection()
        }
    }

    /// The events that a key reports: one value change, from the selected
    /// value to the new one (the empty text for none), when the key changes
    /// the selection; else none.
    pub open spec fn key_events(&self, key: KeyEvent, events: Seq<ComponentEvent>) -> bool {
        let after = self.key_selection(key);
        if after == self.selection() {
            events.len() == 0
        } else {
            &&& events.len() == 1
            &&& events[0] matches ComponentEvent::ValueChanged { component_id, old_value, new_value }
                && component_id@ == self.spec_id()@
                && old_value@ == text_or_empty(self.selection())
                && new_value@ == text_or_empty(after)
        }
    }

    pub open spec fn selection(&self) -> Option<Seq<char>> {
        opt_text(self.spec_state().selected_value)
    }

    pub fn new(props: RadioProps) -> (r: Self)
        ensures
            r.spec_id()@ == props.id@,
            r.spec_props() == props,
            r.spec_state().selected_value is None,
            r.spec_state().highlighted_index == 0,
            r.spec_state().last_validation_message is None,
            r.spec_state().common.focus_state == FocusState::Unfocused,
            r.spec_state().common.validation_state == ValidationState::Valid,
            !r.spec_state().common.dirty,
    {
        Radio { id: props.id.duplicate(), props, state: RadioState::default() }
    }

    pub fn with_group_name(self, group_name: &str) -> (r: Self)
        ensures
            r.spec_props().group_name@ == group_name@,
            r.spec_props().options == self.spec_props().options,
            r.spec_props().layout == self.spec_props().layout,
            r.spec_props().required == self.spec_props().required,
            r.spec_props().readonly == self.spec_props().readonly,
            r.spec_props().title == self.spec_props().title,
            r.spec_id() == self.spec_id(),
            r.spec_state() == self.spec_state(),
    {
        let mut s = self;
        s.props.group_name = group_name.to_owned();
        s
    }

    pub fn with_title(self, title: &str) -> (r: Self)
        ensures
            r.spec_props().title@ == title@,
            r.spec_props().options == self.spec_props().options,
            r.spec_props().layout == self.spec_props().layout,
            r.spec_props().required == self.spec_props().required,
            r.spec_props().readonly == self.spec_props().readonly,
            r.spec_props().group_name == self.spec_props().group_name,
            r.spec_id() == self.spec_id(),
            r.spec_state() == self.spec_state(),
    {
        let mut s = self;
        s.props.title = title.to_owned();
        s
    }

    pub fn with_options(self, options: Vec<RadioOption>) -> (r: Self)
        ensures
            r.spec_props() == (RadioProps { options, ..self.spec_props() }),
            r.spec_id() == self.spec_id(),
            r.spec_state() == self.spec_state(),
    {
        let mut s = self;
        s.props.options = options;
        s
    }

    pub fn required(self, required: bool) -> (r: Self)
        ensures
            r.spec_props() == (RadioProps { required, ..self.spec_props() }),
            r.spec_id() == self.spec_id(),
            r.spec_state() == self.spec_state(),
    {
        let mut s = self;
        s.props.required = required;
        s
    }

    pub fn readonly(self, readonly: bool) -> (r: Self)
        ensures
            r.spec_props() == (RadioProps { readonly, ..self.spec_props() }),
            r.spec_id() == self.spec_id(),
            r.spec_state() == self.spec_state(),
    {
        let mut s = self;
        s.props.readonly = readonly;
        s
    }

    pub fn with_layout(self, layout: RadioLayout) -> (r: Self)
        ensures
            r.spec_props() == (RadioProps { layout, ..self.spec_props() }),
            r.spec_id() == self.spec_id(),
            r.spec_state() == self.spec_state(),
    {
        let mut s = self;
        s.props.layout = layout;
        s
    }

    pub fn with_help_text(self, help_text: &str) -> (r: Self)
        ensures
            r.spec_props().help_text matches Some(h) && h@ == help_text@,
            r.spec_props().options == self.spec_props().options,
            r.spec_props().layout == self.spec_props().layout,
            r.spec_props().required == self.spec_props().required,
            r.spec_props().readonly == self.spec_props().readonly,
            r.spec_props().title == self.spec_props().title,
            r.spec_props().group_name == self.spec_props().group_name,
            r.spec_id() == self.spec_id(),
            r.spec_state() == self.spec_state(),
    {
        let mut s = self;
        s.props.help_text = Some(help_text.to_owned());
        s
    }

    pub fn vertical(self) -> (r: Self)
        ensures
            r.spec_props() == (RadioProps { layout: RadioLayout::Vertical, ..self.spec_props() }),
            r.spec_id() == self.spec_id(),
            r.spec_state() == self.spec_state(),
    {
        self.with_layout(RadioLayout::Vertical)
    }

    pub fn horizontal(self) -> (r: Self)
        ensures
            r.spec_props() == (RadioProps { layout: RadioLayout::Horizontal, ..self.spec_props() }),
            r.spec_id() == self.spec_id(),
            r.spec_state() == self.spec_state(),
    {
        self.with_layout(RadioLayout::Horizontal)
    }

    pub fn grid(self, columns: u16) -> (r: Self)
        ensures
            r.spec_props() == (RadioProps { layout: RadioLayout::Grid(columns), ..self.spec_props() }),
            r.spec_id() == self.spec_id(),
            r.spec_state() == self.spec_state(),
    {
        self.with_layout(RadioLayout::Grid(columns))
    }

    pub fn id(&self) -> (r: &ComponentId)
        ensures
            *r == self.spec_id(),
    {
        &self.id
    }

    pub fn props(&self) -> (r: &RadioProps)
        ensures
            *r == self.spec_props(),
    {
        &self.props
    }

    pub fn state(&self) -> (r: &RadioState)
        ensures
            *r == self.spec_state(),
    {
        &self.state
    }

    pub fn selected_value(&self) -> (r: Option<&str>)
        ensures
            match self.selection() {
                Some(v) => r matches Some(x) && x@ == v,
                None => r is None,
            },
    {
        match &self.state.selected_value {
            Some(v) => Some(v.as_str()),
            None => None,
        }
    }

    fn same_selection(a: &Option<String>, b: &Option<String>) -> (r: bool)
        ensures
            r == (opt_text(*a) == opt_text(*b)),
    {
        match a {
            Some(x) => match b {
                Some(y) => str_eq(x.as_str(), y.as_str()),
                None => false,
            },
            None => b.is_none(),
        }
    }

    /// Sets the selection; a change marks the group modified and revalidates it.
    pub fn set_selected_value(&mut self, value: Option<String>)
        ensures
            final(self).selection() == opt_text(value),
            final(self).spec_props() == old(self).spec_props(),
            final(self).spec_id() == old(self).spec_id(),
            final(self).spec_state().highlighted_index == old(self).spec_state().highlighted_index,
            final(self).spec_state().common.focus_state == old(self).spec_state().common.focus_state,
            old(self).selection() != opt_text(value) ==> {
                &&& final(self).spec_state().common.dirty
                &&& required_outcome(
                    final(self).spec_state().common.validation_state,
                    final(self).spec_state().last_validation_message,
                    radio_ok(old(self).spec_props().required, value),
                )
            },
            old(self).selection() == opt_text(value) ==> final(self).spec_state() == old(self).spec_state(),
    {
        if !Self::same_selection(&self.state.selected_value, &value) {
            self.state.selected_value = value;
            self.state.common.mark_dirty();
            self.validate();
        }
    }

    fn find_option(&self, value: &str) -> (r: Option<usize>)
        ensures
            match r {
                Some(i) => i < self.spec_props().options@.len()
                    && first_option_index(self.spec_props().options@, value@) == Some(i as int),
                None => first_option_index(self.spec_props().options@, value@) is None,
            },
    {
        let mut i: usize = 0;
        while i < self.props.options.len()
            invariant
                i <= self.props.options@.len(),
                forall|j: int| 0 <= j < i ==> self.props.options@[j].value@ != value@,
            decreases self.props.options@.len() - i,
        {
            if str_eq(self.props.options[i].value.as_str(), value) {
                proof {
                    let opts = self.props.options@;
                    let k = first_option_index(opts, value@)->0;
                    assert(opts[i as int].value@ == value@);
                    if k < i {
                    } else if i < k {
                    }
                }
                return Some(i);
            }
            i += 1;
        }
        None
    }

    /// Selects `value` when the group is writable and the first option with
    /// that value is enabled; returns whether it did.
    pub fn select_value(&mut self, value: &str) -> (r: bool)
        ensures
            r == can_select(old(self).spec_props(), value@),
            r ==> {
                &&& final(self).selection() == Some(value@)
                &&& old(self).selection() != Some(value@) ==> {
                    &&& final(self).spec_state().common.dirty
                    &&& required_outcome(
                        final(self).spec_state().common.validation_state,
                        final(self).spec_state().last_validation_message,
                        true,
                    )
                }
                &&& old(self).selection() == Some(value@) ==> final(self).spec_state() == old(self).spec_state()
            },
            !r ==> final(self).spec_state() == old(self).spec_state(),
            final(self).spec_props() == old(self).spec_props(),
            final(self).spec_id() == old(self).spec_id(),
            final(self).spec_state().highlighted_index == old(self).spec_state().highlighted_index,
            final(self).spec_state().common.focus_state == old(self).spec_state().common.focus_state,
    {
        if self.props.readonly {
            return false;
        }
        match self.find_option(value) {
            Some(i) => {
                if !self.props.options[i].disabled {
                    self.set_selected_value(Some(value.to_owned()));
                    return true;
                }
                false
            },
            None => false,
        }
    }

    pub fn clear_selection(&mut self)
        ensures
            final(self).selection() is None,
            final(self).spec_props() == old(self).spec_props(),
            final(self).spec_id() == old(self).spec_id(),
            final(self).spec_state().highlighted_index == old(self).spec_state().highlighted_index,
            final(self).spec_state().common.focus_state == old(self).spec_state().common.focus_state,
            old(self).selection() is Some ==> {
                &&& final(self).spec_state().common.dirty
                &&& required_outcome(
                    final(self).spec_state().common.validation_state,
                    final(self).spec_state().last_validation_message,
                    !old(self).spec_props().required,
                )
            },
            old(self).selection() is None ==> final(self).spec_state() == old(self).spec_state(),
    {
        self.set_selected_value(None);
    }

    fn set_highlight(&mut self, h: usize)
        ensures
            final(self).spec_state() == (RadioState { highlighted_index: h, ..old(self).spec_state() }),
            final(self).spec_props() == old(self).spec_props(),
            final(self).spec_id() == old(self).spec_id(),
    {
        self.state.highlighted_index = h;
    }

    /// Highlights the previous option, wrapping to the last.
    pub fn move_up(&mut self)
        ensures
            final(self).spec_state() == (RadioState {
                highlighted_index: up_index(old(self).spec_state().highlighted_index, old(self).spec_props().options@.len()) as usize,
                ..old(self).spec_state()
            }),
            final(self).spec_props() == old(self).spec_props(),
            final(self).spec_id() == old(self).spec_id(),
    {
        if self.state.highlighted_index > 0 {
            let h = self.state.highlighted_index - 1;
            self.set_highlight(h);
        } else {
            let n = self.props.options.len();
            let h = if n > 0 { n - 1 } else { 0 };
            self.set_highlight(h);
        }
    }

    /// Highlights the next option, wrapping to the first.
    pub fn move_down(&mut self)
        requires
            old(self).spec_props().options@.len() > 0,
            old(self).spec_state().highlighted_index < usize::MAX,
        ensures
            final(self).spec_state() == (RadioState {
                highlighted_index: down_index(old(self).spec_state().highlighted_index, old(self).spec_props().options@.len()) as usize,
                ..old(self).spec_state()
            }),
            final(self).spec_props() == old(self).spec_props(),
            final(self).spec_id() == old(self).spec_id(),
    {
        let h = (self.state.highlighted_index + 1) % self.props.options.len();
        self.set_highlight(h);
    }

    /// Moves the highlight left: back in a row, one column left in a grid.
    pub fn move_left(&mut self)
        requires
            layout_moves_ok(old(self).spec_props().layout, old(self).spec_state().highlighted_index, old(self).spec_props().options@.len()),
        ensures
            final(self).spec_state() == (RadioState {
                highlighted_index: left_index(old(self).spec_props().layout, old(self).spec_state().highlighted_index, old(self).spec_props().options@.len()) as usize,
                ..old(self).spec_state()
            }),
            final(self).spec_props() == old(self).spec_props(),
            final(self).spec_id() == old(self).spec_id(),
    {
        match self.props.layout {
            RadioLayout::Horizontal => self.move_up(),
            RadioLayout::Grid(columns) => {
                if self.state.highlighted_index % (columns as usize) > 0 {
                    proof {
                        let h0 = self.state.highlighted_index;
                        let c0 = columns as usize;
                        assert(h0 % c0 > 0 ==> h0 > 0) by (nonlinear_arith)
                            requires
                                c0 > 0,
                        ;
                    }
                    let h = self.state.highlighted_index - 1;
                    self.set_highlight(h);
                }
            },
            RadioLayout::Vertical => {},
        }
    }

    /// Moves the highlight right: forward in a row, one column right in a grid.
    pub fn move_right(&mut self)
        requires
            layout_moves_ok(old(self).spec_props().layout, old(self).spec_state().highlighted_index, old(self).spec_props().options@.len()),
        ensures
            final(self).spec_state() == (RadioState {
                highlighted_index: right_index(old(self).spec_props().layout, old(self).spec_state().highlighted_index, old(self).spec_props().options@.len()) as usize,
                ..old(self).spec_state()
            }),
            final(self).spec_props() == old(self).spec_props(),
            final(self).spec_id() == old(self).spec_id(),
    {
        match self.props.layout {
            RadioLayout::Horizontal => self.move_down(),
            RadioLayout::Grid(columns) => {
                if self.state.highlighted_index % (columns as usize) < (columns as usize - 1)
                    && self.state.highlighted_index + 1 < self.props.options.len() {
                    let h = self.state.highlighted_index + 1;
                    self.set_highlight(h);
                }
            },
            RadioLayout::Vertical => {},
        }
    }

    /// Selects the value of the highlighted option; returns whether it did.
    pub fn select_highlighted(&mut self) -> (r: bool)
        ensures
            old(self).spec_state().highlighted_index >= old(self).spec_props().options@.len() ==> !r && *final(self) == *old(self),
            old(self).spec_state().highlighted_index < old(self).spec_props().options@.len() ==> ({
                let v = old(self).spec_props().options@[old(self).spec_state().highlighted_index as int].value@;
                &&& r == can_select(old(self).spec_props(), v)
                &&& r ==> final(self).selection() == Some(v)
                &&& r && old(self).selection() != Some(v) ==> {
                    &&& final(self).spec_state().common.dirty
                    &&& required_outcome(
                        final(self).spec_state().common.validation_state,
                        final(self).spec_state().last_validation_message,
                        true,
                    )
                }
                &&& r && old(self).selection() == Some(v) ==> final(self).spec_state() == old(self).spec_state()
                &&& !r ==> final(self).spec_state() == old(self).spec_state()
            }),
            final(self).spec_props() == old(self).spec_props(),
            final(self).spec_id() == old(self).spec_id(),
            final(self).spec_state().highlighted_index == old(self).spec_state().highlighted_index,
            final(self).spec_state().common.focus_state == old(self).spec_state().common.focus_state,
    {
        if self.state.highlighted_index < self.props.options.len() {
            let value = self.props.options[self.state.highlighted_index].value.clone();
            self.select_value(value.as_str())
        } else {
            false
        }
    }

    pub fn is_selected(&self, value: &str) -> (r: bool)
        ensures
            r == (self.selection() == Some(value@)),
    {
        match &self.state.selected_value {
            Some(v) => str_eq(v.as_str(), value),
            None => false,
        }
    }

    /// The first option whose value is the selected one, if any.
    pub fn selected_option(&self) -> (r: Option<&RadioOption>)
        ensures
            match self.selection() {
                Some(v) => match first_option_index(self.spec_props().options@, v) {
                    Some(i) => r == Some(&self.spec_props().options@[i]),
                    None => r is None,
                },
                None => r is None,
            },
    {
        match &self.state.selected_value {
            Some(v) => match self.find_option(v.as_str()) {
                Some(i) => Some(&self.props.options[i]),
                None => None,
            },
            None => None,
        }
    }

    fn validate(&mut self)
        ensures
            required_outcome(
                final(self).spec_state().common.validation_state,
                final(self).spec_state().last_validation_message,
                radio_ok(old(self).spec_props().required, old(self).spec_state().selected_value),
            ),
            final(self).spec_state().selected_value == old(self).spec_state().selected_value,
            final(self).spec_state().highlighted_index == old(self).spec_state().highlighted_index,
            final(self).spec_state().common.dirty == old(self).spec_state().common.dirty,
            final(self).spec_state().common.focus_state == old(self).spec_state().common.focus_state,
            final(self).spec_props() == old(self).spec_props(),
            final(self).spec_id() == old(self).spec_id(),
    {
        if self.props.required && self.state.selected_value.is_none() {
            self.state.common.validation_state = ValidationState::Invalid(required_message());
            self.state.last_validation_message = Some(required_message());
            return;
        }
        self.state.common.validation_state = ValidationState::Valid;
        self.state.last_validation_message = None;
    }

    /// The title decorated with the markers of the group's state.
    pub fn title_with_indicators(&self) -> (r: String)
        ensures
            r@ == self.spec_props().title@ + state_markers_spec(self.spec_props().required, self.spec_state().common)
                + (if self.spec_props().group_name@.len() > 0 {
                    " ["@ + self.spec_props().group_name@ + "]"@
                } else {
                    Seq::empty()
                }),
    {
        let mut title = self.props.title.clone();
        if self.props.required {
            title.append(" *");
        }
        if self.state.common.dirty {
            title.append(" (modified)");
        }
        match &self.state.common.validation_state {
            ValidationState::Invalid(_) => title.append(" ❌"),
            ValidationState::Pending => title.append(" ⚠️"),
            ValidationState::Valid => {
                if self.state.common.dirty {
                    title.append(" ✅");
                }
            },
        }
        if self.props.group_name.as_str().unicode_len() > 0 {
            title.append(" [");
            title.append(self.props.group_name.as_str());
            title.append("]");
        }
        title
    }

    /// Where the options are drawn inside the group's border: one per line
    /// going down, side by side on one line, or in a grid of one-line cells.
    pub open spec fn options_fit(&self, inner: Area) -> bool {
        let n = self.spec_props().options@.len();
        match self.spec_props().layout {
            RadioLayout::Vertical => lines_fit(inner, n),
            RadioLayout::Horizontal => row_fits(inner, n),
            RadioLayout::Grid(c) => grid_lines_fit(inner, n, c),
        }
    }

    /// The cells of the options inside the group's border, in the order of
    /// the options: going down, as many as there are lines; side by side,
    /// all of them, the width shared equally; in a grid, up to the first
    /// whose row is below the area.
    pub fn option_areas(&self, inner: Area) -> (r: Vec<Area>)
        requires
            self.options_fit(inner),
        ensures
            ({
                let n = self.spec_props().options@.len();
                match self.spec_props().layout {
                    RadioLayout::Vertical => r@.len() == line_count(inner, n) && forall|i: int|
                        0 <= i < r@.len() ==> #[trigger] r@[i] == line_cell(inner, i),
                    RadioLayout::Horizontal => r@.len() == n && forall|i: int|
                        0 <= i < n ==> #[trigger] r@[i] == row_cell(inner, n, 1, i),
                    RadioLayout::Grid(c) => {
                        &&& r@.len() <= n
                        &&& forall|i: int| 0 <= i < r@.len() ==> #[trigger] ((i as u16) / c) < inner.height
                        &&& forall|i: int| 0 <= i < r@.len() ==> #[trigger] r@[i] == grid_line(inner, c, i)
                        &&& r@.len() < n ==> ((r@.len() as u16) / c) >= inner.height
                    },
                }
            }),
    {
        let n = self.props.options.len();
        match self.props.layout {
            RadioLayout::Vertical => line_cells(inner, n),
            RadioLayout::Horizontal => row_cells(inner, n, 1),
            RadioLayout::Grid(c) => grid_lines(inner, n, c),
        }
    }

    /// The text drawn for an option: a filled dot when it is selected, then its label.
    pub fn option_text(&self, option: &RadioOption) -> (r: String)
        ensures
            r@ == (if self.selection() == Some(option.value@) { "●"@ } else { "○"@ }) + " "@ + option.label@,
    {
        let mut t = if self.is_selected(option.value.as_str()) {
            "●".to_owned()
        } else {
            "○".to_owned()
        };
        t.append(" ");
        t.append(option.label.as_str());
        t
    }

    pub fn is_valid(&self) -> (r: bool)
        ensures
            r == (self.spec_state().common.validation_state == ValidationState::Valid),
    {
        match self.state.common.validation_state {
            ValidationState::Valid => true,
            _ => false,
        }
    }

    pub fn validation_message(&self) -> (r: Option<&str>)
        ensures
            match self.spec_state().last_validation_message {
                Some(m) => r matches Some(x) && x@ == m@,
                None => r is None,
            },
    {
        match &self.state.last_validation_message {
            Some(m) => Some(m.as_str()),
            None => None,
        }
    }

    pub fn group_name(&self) -> (r: &str)
        ensures
            r@ == self.spec_props().group_name@,
    {
        self.props.group_name.as_str()
    }

    pub fn focus_state(&self) -> (r: FocusState)
        ensures
            r == self.spec_state().common.focus_state,
    {
        self.state.common.focus_state
    }

    pub fn set_focus_state(&mut self, state: FocusState)
        ensures
            final(self).spec_state() == (RadioState {
                common: CommonComponentState { focus_state: state, ..old(self).spec_state().common },
                ..old(self).spec_state()
            }),
            final(self).spec_props() == old(self).spec_props(),
            final(self).spec_id() == old(self).spec_id(),
    {
        self.state.common.focus_state = state;
    }

    /// Whether the group can take the key: a key whose move is undefined
    /// (see `radio_key_safe`) is not taken.
    pub fn can_take_key(&self, key: KeyEvent) -> (r: bool)
        ensures
            r == radio_key_safe(self.spec_props(), self.spec_state(), key),
    {
        let active = self.state.common.focus_state == FocusState::Focused && !self.props.readonly;
        if !active {
            return true;
        }
        let h = self.state.highlighted_index;
        let n = self.props.options.len();
        match key.code {
            KeyCode::Down => n > 0 && h < usize::MAX,
            KeyCode::Left | KeyCode::Right => {
                h < usize::MAX && match self.props.layout {
                    RadioLayout::Horizontal => n > 0,
                    RadioLayout::Grid(c) => c > 0,
                    RadioLayout::Vertical => true,
                }
            },
            _ => true,
        }
    }


    /// Handles a key press on a focused, writable group: arrows move the
    /// highlight, space and enter select the highlighted option, a digit
    /// `k` from 1 to the number of options selects and highlights option
    /// `k`, and Delete or Ctrl+C clear an optional group's selection.
    /// A change of selection is reported by one value-changed event.
    pub fn handle_key(&mut self, key: KeyEvent) -> (events: Vec<ComponentEvent>)
        requires
            radio_key_safe(old(self).spec_props(), old(self).spec_state(), key),
        ensures
            old(self).key_events(key, events@),
            !(old(self).spec_state().common.focus_state == FocusState::Focused && !old(self).spec_props().readonly)
                ==> *final(self) == *old(self) && events@.len() == 0,
            old(self).spec_state().common.focus_state == FocusState::Focused && !old(self).spec_props().readonly ==>
                final(self).spec_state().highlighted_index == radio_key_highlight(old(self).spec_props(), old(self).spec_state(), key)
                && final(self).selection() == radio_key_selection(old(self).spec_props(), old(self).selection(), old(self).spec_state().highlighted_index, key),
            final(self).selection() == old(self).selection() ==> events@.len() == 0,
            final(self).selection() != old(self).selection() ==> {
                &&& events@.len() == 1
                &&& events@[0] matches ComponentEvent::ValueChanged { component_id, old_value, new_value }
                    && component_id@ == old(self).spec_id()@
                    && old_value@ == text_or_empty(old(self).selection())
                    && new_value@ == text_or_empty(final(self).selection())
                &&& final(self).spec_state().common.dirty
                &&& required_outcome(
                    final(self).spec_state().common.validation_state,
                    final(self).spec_state().last_validation_message,
                    radio_ok(old(self).spec_props().required, final(self).spec_state().selected_value),
                )
            },
            final(self).spec_props() == old(self).spec_props(),
            final(self).spec_id() == old(self).spec_id(),
            final(self).spec_state().common.focus_state == old(self).spec_state().common.focus_state,
    {
        let mut events: Vec<ComponentEvent> = Vec::new();
        if self.state.common.focus_state != FocusState::Focused || self.props.readonly {
            return events;
        }
        let old_value = self.state.selected_value.clone();
        let ghost old_sel = self.selection();
        assert(opt_text(old_value) == old_sel);
        match key.code {
            KeyCode::Up => self.move_up(),
            KeyCode::Down => self.move_down(),
            KeyCode::Left => self.move_left(),
            KeyCode::Right => self.move_right(),
            KeyCode::Char(' ') | KeyCode::Enter => {
                self.select_highlighted();
            },
            KeyCode::Char(c) => {
                if is_ascii_digit(c) {
                    let index = (c as u32 - '0' as u32) as usize;
                    if index > 0 && index <= self.props.options.len() {
                        let value = self.props.options[index - 1].value.clone();
                        self.select_value(value.as_str());
                        self.set_highlight(index - 1);
                    }
                } else if c == 'c' && key.modifiers.bits == 2 {
                    if !self.props.required {
                        self.clear_selection();
                    }
                }
            },
            KeyCode::Delete => {
                if !self.props.required {
                    self.clear_selection();
                }
            },
            _ => {},
        }
        if !Self::same_selection(&old_value, &self.state.selected_value) {
            let old_text = match old_value {
                Some(v) => v,
                None => String::new(),
            };
            let new_text = match &self.state.selected_value {
                Some(v) => v.clone(),
                None => String::new(),
            };
            events.push(ComponentEvent::ValueChanged { component_id: self.id.duplicate(), old_value: old_text, new_value: new_text });
        }
        events
    }

    /// Handles focus events addressed to this group: gaining focus focuses
    /// it; losing focus unfocuses and revalidates it.
    pub fn handle_event(&mut self, event: &ComponentEvent) -> (events: Vec<ComponentEvent>)
        ensures
            events@.len() == 0,
            final(self).spec_state().selected_value == old(self).spec_state().selected_value,
            final(self).spec_state().highlighted_index == old(self).spec_state().highlighted_index,
            final(self).spec_props() == old(self).spec_props(),
            final(self).spec_id() == old(self).spec_id(),
            match event {
                ComponentEvent::FocusGained { component_id } if component_id@ == old(self).spec_id()@ =>
                    final(self).spec_state().common.focus_state == FocusState::Focused,
                ComponentEvent::FocusLost { component_id } if component_id@ == old(self).spec_id()@ => {
                    &&& final(self).spec_state().common.focus_state == FocusState::Unfocused
                    &&& required_outcome(
                        final(self).spec_state().common.validation_state,
                        final(self).spec_state().last_validation_message,
                        radio_ok(old(self).spec_props().required, old(self).spec_state().selected_value),
                    )
                },
                _ => *final(self) == *old(self),
            },
    {
        match event {
            ComponentEvent::FocusGained { component_id } => {
                if component_id.same_as(&self.id) {
                    self.set_focus_state(FocusState::Focused);
                }
            },
            ComponentEvent::FocusLost { component_id } => {
                if component_id.same_as(&self.id) {
                    self.set_focus_state(FocusState::Unfocused);
                    self.validate();
                }
            },
            _ => {},
        }
        Vec::new()
    }
}

/// A text, or the empty text when there is none.
pub open spec fn text_or_empty(s: Option<Seq<char>>) -> Seq<char> {
    match s {
        Some(t) => t,
        None => Seq::empty(),
    }
}

/// The digit value of an ASCII digit.
pub open spec fn digit_value(c: char) -> int {
    (c as int) - ('0' as int)
}

/// Two radio groups that agree take a key alike and report the same
/// events for it.
pub(crate) proof fn lemma_key_events_same_radio(a: Radio, b: Radio, key: KeyEvent, events: Seq<ComponentEvent>)
    requires
        same_radio(a, b),
    ensures
        a.key_events(key, events) <==> b.key_events(key, events),
        radio_key_safe(a.spec_props(), a.spec_state(), key) == radio_key_safe(b.spec_props(), b.spec_state(), key),
{
    assert(a.key_selection(key) == b.key_selection(key));
}

/// Whether a key's move is defined for the group: it is not when moving
/// down without options, moving sideways without options in a row or in a
/// grid without columns, or with an index at the top of its range.
pub open spec fn radio_key_safe(p: RadioProps, s: RadioState, key: KeyEvent) -> bool {
    let active = s.common.focus_state == FocusState::Focused && !p.readonly;
    active ==> match key.code {
        KeyCode::Down => p.options@.len() > 0 && s.highlighted_index < usize::MAX,
        KeyCode::Left | KeyCode::Right => layout_moves_ok(p.layout, s.highlighted_index, p.options@.len()),
        _ => true,
    }
}

/// The highlight after a key press on a focused, writable group.
pub open spec fn radio_key_highlight(p: RadioProps, s: RadioState, key: KeyEvent) -> usize {
    let h = s.highlighted_index;
    let n = p.options@.len();
    match key.code {
        KeyCode::Up => up_index(h, n) as usize,
        KeyCode::Down => down_index(h, n) as usize,
        KeyCode::Left => left_index(p.layout, h, n) as usize,
        KeyCode::Right => right_index(p.layout, h, n) as usize,
        KeyCode::Char(c) => if '0' <= c <= '9' && 0 < digit_value(c) <= n { (digit_value(c) - 1) as usize } else { h },
        _ => h,
    }
}

/// The selection after a key press on a focused, writable group.
pub open spec fn radio_key_selection(p: RadioProps, sel: Option<Seq<char>>, h: usize, key: KeyEvent) -> Option<Seq<char>> {
    let n = p.options@.len();
    let pick = |v: Seq<char>| if can_select(p, v) { Some(v) } else { sel };
    match key.code {
        KeyCode::Char(' ') | KeyCode::Enter => if h < n { pick(p.options@[h as int].value@) } else { sel },
        KeyCode::Char(c) => if '0' <= c <= '9' {
            if 0 < digit_value(c) <= n { pick(p.options@[digit_value(c) - 1].value@) } else { sel }
        } else if c == 'c' && key.modifiers.bits == 2 && !p.required {
            None
        } else {
            sel
        },
        KeyCode::Delete => if !p.required { None } else { sel },
        _ => sel,
    }
}

/// A registry of the selected value of each radio group, by group name.
pub struct RadioGroupManager {
    groups: StringTable,
}

impl View for RadioGroupManager {
    type V = Map<Seq<char>, Seq<char>>;

    closed spec fn view(&self) -> Map<Seq<char>, Seq<char>> {
        self.groups@
    }
}

impl RadioGroupManager {
    pub fn new() -> (r: Self)
        ensures
            r@ == Map::<Seq<char>, Seq<char>>::empty(),
    {
        RadioGroupManager { groups: StringTable::new() }
    }

    /// Records `value` as the selection of `group_name`.
    pub fn set_selection(&mut self, group_name: &str, value: &str)
        ensures
            final(self)@ == old(self)@.insert(group_name@, value@),
    {
        self.groups.insert(group_name, value);
    }

    /// The selection of `group_name`, if it has one.
    pub fn get_selection(&self, group_name: &str) -> (r: Option<&str>)
        ensures
            match r {
                Some(v) => self@.contains_key(group_name@) && v@ == self@[group_name@],
                None => !self@.contains_key(group_name@),
            },
    {
        self.groups.get(group_name)
    }

    /// Forgets the selection of `group_name`.
    pub fn clear_selection(&mut self, group_name: &str)
        ensures
            final(self)@ == old(self)@.remove(group_name@),
    {
        self.groups.remove(group_name);
    }

    /// Every recorded selection.
    pub fn get_all_selections(&self) -> (r: &StringTable)
        ensures
            r@ == self@,
    {
        &self.groups
    }

    /// Forgets every selection.
    pub fn clear_all(&mut self)
        ensures
            final(self)@ == Map::<Seq<char>, Seq<char>>::empty(),
    {
        self.groups.clear();
    }
}

impl Default for RadioGroupManager {
    fn default() -> (r: Self)
        ensures
            r@ == Map::<Seq<char>, Seq<char>>::empty(),
    {
        RadioGroupManager::new()
    }
}

/// What a group manager reads back for a group is what was last recorded
/// for it; recording one group leaves the others as they were.
pub proof fn lemma_selection_read_back(m: Map<Seq<char>, Seq<char>>, g: Seq<char>, v: Seq<char>, other: Seq<char>)
    requires
        other != g,
    ensures
        m.insert(g, v).contains_key(g),
        m.insert(g, v)[g] == v,
        m.insert(g, v).contains_key(other) == m.contains_key(other),
        m.contains_key(other) ==> m.insert(g, v)[other] == m[other],
        !m.remove(g).contains_key(g),
{
}

} // verus!
