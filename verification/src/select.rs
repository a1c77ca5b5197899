//! Select fields: options, single or multiple selection with a limit, a
//! searchable dropdown, validation, and what the field shows.

use vstd::prelude::*;
use vstd::string::*;
use crate::component::{
    CommonComponentState, ComponentEvent, ComponentId, ComponentResult, FocusState, ValidationState,
    required_message,
};
use crate::keys::{KeyCode, KeyEvent};
use crate::placement::{min_int, Area};
use crate::style::{CellStyle, Color};
use crate::text::{
    copy_text, decimal, decimal_text, join_strings, join_with, lowercase, occurs_at, push_char, pop_char, strings_view,
    str_eq, text_contains, text_contains_spec, to_lowercase,
};

verus! {

/// An option of a select field.
#[derive(Debug, Clone)]
pub struct SelectOption {
    pub value: String,
    pub label: String,
    pub disabled: bool,
    pub group: Option<String>,
}

impl SelectOption {
    /// An enabled option outside any group.
    pub fn new(value: &str, label: &str) -> (r: Self)
        ensures
            r.value@ == value@,
            r.label@ == label@,
            !r.disabled,
            r.group is None,
    {
        SelectOption { value: value.to_owned(), label: label.to_owned(), disabled: false, group: None }
    }

    /// The option disabled.
    pub fn disabled(self) -> (r: Self)
        ensures
            r == (SelectOption { disabled: true, ..self }),
    {
        let mut s = self;
        s.disabled = true;
        s
    }

    /// The option in a group.
    pub fn with_group(self, group: &str) -> (r: Self)
        ensures
            r.group matches Some(g) && g@ == group@,
            r.value == self.value && r.label == self.label && r.disabled == self.disabled,
    {
        let mut s = self;
        s.group = Some(group.to_owned());
        s
    }
}

/// Configuration of a select field.
#[derive(Debug, Clone)]
pub struct SelectProps {
    pub id: ComponentId,
    pub title: String,
    pub placeholder: String,
    pub options: Vec<SelectOption>,
    pub multi_select: bool,
    pub searchable: bool,
    pub required: bool,
    pub readonly: bool,
    pub max_selections: Option<usize>,
    pub show_clear_button: bool,
    pub help_text: Option<String>,
}

impl Default for SelectProps {
    fn default() -> (r: Self)
        ensures
            r.id@ == "select"@,
            r.title@.len() == 0,
            r.placeholder@ == "Select an option..."@,
            r.options@.len() == 0,
            !r.multi_select && !r.searchable && !r.required && !r.readonly,
            r.max_selections is None,
            r.show_clear_button,
            r.help_text is None,
    {
        SelectProps {
            id: ComponentId::new("select"),
            title: String::new(),
            placeholder: "Select an option...".to_owned(),
            options: Vec::new(),
            multi_select: false,
            searchable: false,
            required: false,
            readonly: false,
            max_selections: None,
            show_clear_button: true,
            help_text: None,
        }
    }
}

/// State of a select field. The selected values are distinct, in the order
/// they were selected; the filtered options are indices into the options.
#[derive(Debug, Clone)]
pub struct SelectState {
    pub common: CommonComponentState,
    pub selected_values: Vec<String>,
    pub highlighted_index: usize,
    pub is_open: bool,
    pub search_query: String,
    pub filtered_options: Vec<usize>,
    pub last_validation_message: Option<String>,
}

impl Default for SelectState {
    fn default() -> (r: Self)
        ensures
            r.selected_values@.len() == 0,
            r.highlighted_index == 0,
            !r.is_open,
            r.search_query@.len() == 0,
            r.filtered_options@.len() == 0,
            r.last_validation_message is None,
            r.common.validation_state == ValidationState::Valid,
    {
        SelectState {
            common: CommonComponentState::default(),
            selected_values: Vec::new(),
            highlighted_index: 0,
            is_open: false,
            search_query: String::new(),
            filtered_options: Vec::new(),
            last_validation_message: None,
        }
    }
}

/// Whether an option matches a search, in lower case, by label or value.
pub open spec fn option_matches(o: SelectOption, query: Seq<char>) -> bool {
    text_contains_spec(lowercase(o.label@), lowercase(query))
        || text_contains_spec(lowercase(o.value@), lowercase(query))
}

/// The indices of the first `k` options that match a non-empty search.
pub open spec fn matching_upto(opts: Seq<SelectOption>, query: Seq<char>, k: int) -> Seq<usize>
    decreases k,
{
    if k <= 0 {
        Seq::empty()
    } else if option_matches(opts[k - 1], query) {
        matching_upto(opts, query, k - 1).push((k - 1) as usize)
    } else {
        matching_upto(opts, query, k - 1)
    }
}

/// The options shown for a search: all of them for an empty search, else
/// those that match, in order.
pub open spec fn filtered_spec(opts: Seq<SelectOption>, query: Seq<char>) -> Seq<usize> {
    if query.len() == 0 {
        Seq::new(opts.len(), |i: int| i as usize)
    } else {
        matching_upto(opts, query, opts.len() as int)
    }
}

/// The options among the first `k` that a non-empty search keeps are
/// exactly those it matches.
proof fn lemma_matching_upto_members(opts: Seq<SelectOption>, query: Seq<char>, k: int, i: int)
    requires
        0 <= k <= opts.len(),
        0 <= i < opts.len(),
        opts.len() <= usize::MAX,
    ensures
        matching_upto(opts, query, k).contains(i as usize) <==> (i < k && option_matches(opts[i], query)),
        forall|j: int| 0 <= j < matching_upto(opts, query, k).len() ==> #[trigger] matching_upto(opts, query, k)[j] < k,
    decreases k,
{
    if k > 0 {
        lemma_matching_upto_members(opts, query, k - 1, i);
        let prev = matching_upto(opts, query, k - 1);
        if option_matches(opts[k - 1], query) {
            let cur = prev.push((k - 1) as usize);
            assert(cur.last() == (k - 1) as usize);
            if cur.contains(i as usize) && i != k - 1 {
                let j = choose|j: int| 0 <= j < cur.len() && cur[j] == i as usize;
                assert(j < prev.len());
                assert(prev[j] == i as usize);
            }
            if prev.contains(i as usize) {
                let j = choose|j: int| 0 <= j < prev.len() && prev[j] == i as usize;
                assert(cur[j] == i as usize);
            }
            if i == k - 1 {
                assert(cur[prev.len() as int] == i as usize);
            }
        }
    }
}

/// The options a search shows come in their order, each once: with an
/// empty search all of them, and with any search only real options.
pub proof fn lemma_filtered_in_order(opts: Seq<SelectOption>, query: Seq<char>)
    requires
        opts.len() <= usize::MAX,
    ensures
        forall|a: int, b: int| 0 <= a < b < filtered_spec(opts, query).len()
            ==> #[trigger] filtered_spec(opts, query)[a] < #[trigger] filtered_spec(opts, query)[b],
        forall|a: int| 0 <= a < filtered_spec(opts, query).len() ==> #[trigger] filtered_spec(opts, query)[a] < opts.len(),
        query.len() == 0 ==> filtered_spec(opts, query).len() == opts.len(),
{
    if query.len() > 0 {
        lemma_matching_upto_sorted(opts, query, opts.len() as int);
    }
}

/// The indices kept among the first `k` options increase and stay below `k`.
proof fn lemma_matching_upto_sorted(opts: Seq<SelectOption>, query: Seq<char>, k: int)
    requires
        0 <= k <= opts.len() <= usize::MAX,
    ensures
        forall|a: int, b: int| 0 <= a < b < matching_upto(opts, query, k).len()
            ==> #[trigger] matching_upto(opts, query, k)[a] < #[trigger] matching_upto(opts, query, k)[b],
        forall|a: int| 0 <= a < matching_upto(opts, query, k).len() ==> #[trigger] matching_upto(opts, query, k)[a] < k,
    decreases k,
{
    if k > 0 {
        lemma_matching_upto_sorted(opts, query, k - 1);
        let prev = matching_upto(opts, query, k - 1);
        let cur = matching_upto(opts, query, k);
        if option_matches(opts[k - 1], query) {
            assert(cur == prev.push((k - 1) as usize));
            assert forall|a: int| 0 <= a < cur.len() implies #[trigger] cur[a] < k by {
                if a < prev.len() {
                    assert(cur[a] == prev[a]);
                }
            }
            assert forall|a: int, b: int| 0 <= a < b < cur.len() implies #[trigger] cur[a] < #[trigger] cur[b] by {
                assert(cur[a] == prev[a]);
                if b < prev.len() {
                    assert(cur[b] == prev[b]);
                }
            }
        } else {
            assert(cur == prev);
        }
    }
}

/// For a non-empty search, an option is shown exactly when the search, in
/// lower case, occurs in the option's label or in its value, each in
/// lower case: an option found by its value alone is shown too.
pub proof fn lemma_filtered_by_label_or_value(opts: Seq<SelectOption>, query: Seq<char>, i: int)
    requires
        query.len() > 0,
        0 <= i < opts.len() <= usize::MAX,
    ensures
        filtered_spec(opts, query).contains(i as usize) <==> ({
            let q = lowercase(query);
            let label = lowercase(opts[i].label@);
            let value = lowercase(opts[i].value@);
            ||| exists|j: int| 0 <= j && j + q.len() <= label.len() && #[trigger] label.subrange(j, j + q.len()) == q
            ||| exists|j: int| 0 <= j && j + q.len() <= value.len() && #[trigger] value.subrange(j, j + q.len()) == q
        }),
{
    lemma_matching_upto_members(opts, query, opts.len() as int, i);
    let q = lowercase(query);
    let label = lowercase(opts[i].label@);
    let value = lowercase(opts[i].value@);
    if text_contains_spec(label, q) {
        let j = choose|j: int| occurs_at(label, q, j);
        assert(label.subrange(j, j + q.len()) == q);
    }
    if text_contains_spec(value, q) {
        let j = choose|j: int| occurs_at(value, q, j);
        assert(value.subrange(j, j + q.len()) == q);
    }
    if exists|j: int| 0 <= j && j + q.len() <= label.len() && #[trigger] label.subrange(j, j + q.len()) == q {
        let j = choose|j: int| 0 <= j && j + q.len() <= label.len() && #[trigger] label.subrange(j, j + q.len()) == q;
        assert(occurs_at(label, q, j));
    }
    if exists|j: int| 0 <= j && j + q.len() <= value.len() && #[trigger] value.subrange(j, j + q.len()) == q {
        let j = choose|j: int| 0 <= j && j + q.len() <= value.len() && #[trigger] value.subrange(j, j + q.len()) == q;
        assert(occurs_at(value, q, j));
    }
}

/// Whether some enabled option has the value.
pub open spec fn allowed_value(opts: Seq<SelectOption>, v: Seq<char>) -> bool {
    exists|i: int| 0 <= i < opts.len() && opts[i].value@ == v && !opts[i].disabled
}

/// The selection made of the first `k` values: each allowed value once, in
/// order.
pub open spec fn allowed_upto(opts: Seq<SelectOption>, vals: Seq<Seq<char>>, k: int) -> Seq<Seq<char>>
    decreases k,
{
    if k <= 0 {
        Seq::empty()
    } else {
        let acc = allowed_upto(opts, vals, k - 1);
        if allowed_value(opts, vals[k - 1]) && !acc.contains(vals[k - 1]) {
            acc.push(vals[k - 1])
        } else {
            acc
        }
    }
}

/// The label of the first option with the value, if any.
pub open spec fn first_label(opts: Seq<SelectOption>, v: Seq<char>) -> Option<Seq<char>>
    decreases opts.len(),
{
    if opts.len() == 0 {
        None
    } else if opts[0].value@ == v {
        Some(opts[0].label@)
    } else {
        first_label(opts.drop_first(), v)
    }
}

/// The labels of the selected values that have an option.
pub open spec fn labels_of(opts: Seq<SelectOption>, sel: Seq<Seq<char>>) -> Seq<Seq<char>>
    decreases sel.len(),
{
    if sel.len() == 0 {
        Seq::empty()
    } else {
        match first_label(opts, sel.last()) {
            Some(l) => labels_of(opts, sel.drop_last()).push(l),
            None => labels_of(opts, sel.drop_last()),
        }
    }
}

/// What a select field shows: the placeholder without a labelled selection;
/// in a multiple selection of several labels their count; else the first
/// label.
pub open spec fn display_spec(p: SelectProps, sel: Seq<Seq<char>>) -> Seq<char> {
    let labels = labels_of(p.options@, sel);
    if sel.len() == 0 || labels.len() == 0 {
        p.placeholder@
    } else if p.multi_select && labels.len() != 1 {
        decimal(labels.len()) + " items selected"@
    } else {
        labels[0]
    }
}

/// The validation of a selection of `count` values.
pub open spec fn select_validation(p: SelectProps, count: nat, vs: ValidationState, msg: Option<String>) -> bool {
    if p.required && count == 0 {
        &&& vs matches ValidationState::Invalid(m) && m@ == "This field is required"@
        &&& msg matches Some(m) && m@ == "This field is required"@
    } else if p.max_selections is Some && count > p.max_selections->0 {
        let text = "Maximum "@ + decimal(p.max_selections->0 as nat) + " selections allowed"@;
        &&& vs matches ValidationState::Invalid(m) && m@ == text
        &&& msg matches Some(m) && m@ == text
    } else {
        vs == ValidationState::Valid && msg is None
    }
}

/// The color of the border of a field by its focus and validation.
pub open spec fn field_border_spec(common: CommonComponentState) -> CellStyle {
    let c = match (common.focus_state, common.validation_state) {
        (FocusState::Focused, ValidationState::Valid) => Color::Green,
        (FocusState::Focused, ValidationState::Invalid(_)) => Color::Red,
        (FocusState::Focused, ValidationState::Pending) => Color::Yellow,
        (FocusState::Unfocused, ValidationState::Invalid(_)) => Color::LightRed,
        (FocusState::Unfocused, ValidationState::Pending) => Color::LightYellow,
        (FocusState::Unfocused, ValidationState::Valid) => Color::Gray,
        (FocusState::Disabled, _) => Color::DarkGray,
    };
    CellStyle { fg: Some(c), bg: None, bold: false }
}

/// The border style of a field.
pub fn field_border_style(common: &CommonComponentState) -> (r: CellStyle)
    ensures
        r == field_border_spec(*common),
{
    let c = match (&common.focus_state, &common.validation_state) {
        (FocusState::Focused, ValidationState::Valid) => Color::Green,
        (FocusState::Focused, ValidationState::Invalid(_)) => Color::Red,
        (FocusState::Focused, ValidationState::Pending) => Color::Yellow,
        (FocusState::Unfocused, ValidationState::Invalid(_)) => Color::LightRed,
        (FocusState::Unfocused, ValidationState::Pending) => Color::LightYellow,
        (FocusState::Unfocused, ValidationState::Valid) => Color::Gray,
        (FocusState::Disabled, _) => Color::DarkGray,
    };
    CellStyle { fg: Some(c), bg: None, bold: false }
}

/// What a key does to a focused, editable select field.
#[derive(Debug, Clone, Copy, PartialEq, Eq, Structural)]
pub enum SelectKeyAction {
    Open,
    Close,
    Up,
    Down,
    Choose,
    Type(char),
    Erase,
    Clear,
    Nothing,
}

/// What a key does to a focused, editable select field: Enter or Space
/// opens a closed dropdown and chooses in an open one; Esc closes it; Up and
/// Down move in it; in an open searchable dropdown a character extends the
/// search and Backspace shortens it; Delete or Ctrl+c clear the selection
/// when a clear button is shown.
pub open spec fn select_key_action(open: bool, searchable: bool, show_clear: bool, key: KeyEvent) -> SelectKeyAction {
    let enter_or_space = key.code == KeyCode::Enter || key.code == KeyCode::Char(' ');
    if enter_or_space && !open {
        SelectKeyAction::Open
    } else if key.code == KeyCode::Esc && open {
        SelectKeyAction::Close
    } else if key.code == KeyCode::Up && open {
        SelectKeyAction::Up
    } else if key.code == KeyCode::Down && open {
        SelectKeyAction::Down
    } else if enter_or_space && open {
        SelectKeyAction::Choose
    } else if key.code is Char && open && searchable {
        SelectKeyAction::Type(key.code->Char_0)
    } else if key.code == KeyCode::Backspace && open && searchable {
        SelectKeyAction::Erase
    } else if key.code == KeyCode::Delete || (key.code == KeyCode::Char('c') && key.modifiers.bits == 2) {
        if show_clear { SelectKeyAction::Clear } else { SelectKeyAction::Nothing }
    } else {
        SelectKeyAction::Nothing
    }
}

/// A select field.
#[derive(Debug)]
pub struct Select {
    id: ComponentId,
    props: SelectProps,
    state: SelectState,
}

/// Whether two select fields agree in everything they show and do: the
/// identifier, the configuration and the state, lists compared by their
/// contents.
pub open spec fn same_select(a: Select, b: Select) -> bool {
    let (p, q) = (a.props_view(), b.props_view());
    let (s, t) = (a.state_view(), b.state_view());
    &&& a.id_view() == b.id_view()
    &&& p.id == q.id && p.title == q.title && p.placeholder == q.placeholder
    &&& p.options@ == q.options@
    &&& p.multi_select == q.multi_select && p.searchable == q.searchable
    &&& p.required == q.required && p.readonly == q.readonly
    &&& p.max_selections == q.max_selections && p.show_clear_button == q.show_clear_button
    &&& p.help_text == q.help_text
    &&& s.common == t.common
    &&& a.selection() == b.selection()
    &&& s.highlighted_index == t.highlighted_index && s.is_open == t.is_open
    &&& s.search_query == t.search_query
    &&& s.filtered_options@ == t.filtered_options@
    &&& s.last_validation_message == t.last_validation_message
}

/// Two select fields that agree report the same events for a key.
pub(crate) proof fn lemma_key_events_same_select(a: Select, b: Select, key: KeyEvent, events: Seq<ComponentEvent>)
    requires
        same_select(a, b),
        a.key_events(key, events),
    ensures
        b.key_events(key, events),
{
    assert(a.highlighted_option() == b.highlighted_option());
    assert(a.key_selection(key) == b.key_selection(key));
}

/// An exact copy of a list of options.
fn copy_options(v: &Vec<SelectOption>) -> (r: Vec<SelectOption>)
    ensures
        r@ == v@,
{
    let mut r: Vec<SelectOption> = Vec::new();
    let mut i: usize = 0;
    while i < v.len()
        invariant
            i <= v@.len(),
            r@ == v@.take(i as int),
        decreases v@.len() - i,
    {
        let o = &v[i];
        r.push(SelectOption {
            value: o.value.clone(),
            label: o.label.clone(),
            disabled: o.disabled,
            group: copy_text(&o.group),
        });
        assert(r@ =~= v@.take(i + 1));
        i += 1;
    }
    assert(v@.take(v@.len() as int) =~= v@);
    r
}

impl Clone for Select {
    /// A copy that agrees with the field in everything it shows and does.
    fn clone(&self) -> (r: Self)
        ensures
            same_select(r, *self),
    {
        let selected_values = self.state.selected_values.clone();
        assert(selected_values@ =~= self.state.selected_values@);
        let filtered_options = self.state.filtered_options.clone();
        assert(filtered_options@ =~= self.state.filtered_options@);
        let state = SelectState {
            common: self.state.common.duplicate(),
            selected_values,
            highlighted_index: self.state.highlighted_index,
            is_open: self.state.is_open,
            search_query: self.state.search_query.clone(),
            filtered_options,
            last_validation_message: copy_text(&self.state.last_validation_message),
        };
        let props = SelectProps {
            id: self.props.id.duplicate(),
            title: self.props.title.clone(),
            placeholder: self.props.placeholder.clone(),
            options: copy_options(&self.props.options),
            multi_select: self.props.multi_select,
            searchable: self.props.searchable,
            required: self.props.required,
            readonly: self.props.readonly,
            max_selections: self.props.max_selections,
            show_clear_button: self.props.show_clear_button,
            help_text: copy_text(&self.props.help_text),
        };
        Select { id: self.id.duplicate(), props, state }
    }
}

impl Select {
    pub closed spec fn id_view(&self) -> Seq<char> {
        self.id@
    }

    pub closed spec fn props_view(&self) -> SelectProps {
        self.props
    }

    pub closed spec fn state_view(&self) -> SelectState {
        self.state
    }

    /// The selected values, in the order they were selected.
    pub open spec fn selection(&self) -> Seq<Seq<char>> {
        strings_view(self.state_view().selected_values@)
    }

    /// The state and configuration are as before except for the selection,
    /// the validation and the dirty flag.
    pub open spec fn same_but_selection(&self, other: &Select) -> bool {
        &&& self.props_view() == other.props_view()
        &&& self.id_view() == other.id_view()
        &&& self.state_view().is_open == other.state_view().is_open
        &&& self.state_view().highlighted_index == other.state_view().highlighted_index
        &&& self.state_view().search_query == other.state_view().search_query
        &&& self.state_view().filtered_options == other.state_view().filtered_options
        &&& self.state_view().common.focus_state == other.state_view().common.focus_state
    }

    /// A closed field with no selection, all options shown.
    pub fn new(props: SelectProps) -> (r: Self)
        ensures
            r.id_view() == props.id@,
            r.props_view() == props,
            r.selection().len() == 0,
            !r.state_view().is_open,
            r.state_view().highlighted_index == 0,
            r.state_view().search_query@.len() == 0,
            r.state_view().filtered_options@ == filtered_spec(props.options@, Seq::empty()),
            r.state_view().common.validation_state == ValidationState::Valid,
    {
        let mut select = Select { id: props.id.duplicate(), props, state: SelectState::default() };
        select.update_filtered_options();
        select
    }

    /// Set the title.
    pub fn with_title(self, title: &str) -> (r: Self)
        ensures
            r.props_view().title@ == title@,
            r.props_view() == (SelectProps { title: r.props_view().title, ..self.props_view() }),
            r.state_view() == self.state_view(),
            r.id_view() == self.id_view(),
    {
        let mut s = self;
        s.props.title = title.to_owned();
        s
    }

    /// Set the placeholder.
    pub fn with_placeholder(self, placeholder: &str) -> (r: Self)
        ensures
            r.props_view().placeholder@ == placeholder@,
            r.props_view() == (SelectProps { placeholder: r.props_view().placeholder, ..self.props_view() }),
            r.state_view() == self.state_view(),
            r.id_view() == self.id_view(),
    {
        let mut s = self;
        s.props.placeholder = placeholder.to_owned();
        s
    }

    /// Set the options; the options shown follow the search.
    pub fn with_options(self, options: Vec<SelectOption>) -> (r: Self)
        ensures
            r.props_view() == (SelectProps { options, ..self.props_view() }),
            r.state_view().filtered_options@ == filtered_spec(options@, self.state_view().search_query@),
            r.selection() == self.selection(),
            r.id_view() == self.id_view(),
    {
        let mut s = self;
        s.props.options = options;
        s.update_filtered_options();
        s
    }

    /// Allow several selected values.
    pub fn multi_select(self, multi: bool) -> (r: Self)
        ensures
            r.props_view() == (SelectProps { multi_select: multi, ..self.props_view() }),
            r.state_view() == self.state_view(),
            r.id_view() == self.id_view(),
    {
        let mut s = self;
        s.props.multi_select = multi;
        s
    }

    /// Allow searching.
    pub fn searchable(self, searchable: bool) -> (r: Self)
        ensures
            r.props_view() == (SelectProps { searchable, ..self.props_view() }),
            r.state_view() == self.state_view(),
            r.id_view() == self.id_view(),
    {
        let mut s = self;
        s.props.searchable = searchable;
        s
    }

    /// Require a selection.
    pub fn required(self, required: bool) -> (r: Self)
        ensures
            r.props_view() == (SelectProps { required, ..self.props_view() }),
            r.state_view() == self.state_view(),
            r.id_view() == self.id_view(),
    {
        let mut s = self;
        s.props.required = required;
        s
    }

    /// Forbid changes.
    pub fn readonly(self, readonly: bool) -> (r: Self)
        ensures
            r.props_view() == (SelectProps { readonly, ..self.props_view() }),
            r.state_view() == self.state_view(),
            r.id_view() == self.id_view(),
    {
        let mut s = self;
        s.props.readonly = readonly;
        s
    }

    /// Limit the number of selected values.
    pub fn max_selections(self, max: usize) -> (r: Self)
        ensures
            r.props_view() == (SelectProps { max_selections: Some(max), ..self.props_view() }),
            r.state_view() == self.state_view(),
            r.id_view() == self.id_view(),
    {
        let mut s = self;
        s.props.max_selections = Some(max);
        s
    }

    /// Set the help text.
    pub fn with_help_text(self, help_text: &str) -> (r: Self)
        ensures
            r.props_view().help_text matches Some(h) && h@ == help_text@,
            r.state_view() == self.state_view(),
            r.id_view() == self.id_view(),
            r.props_view().options == self.props_view().options,
    {
        let mut s = self;
        s.props.help_text = Some(help_text.to_owned());
        s
    }

    /// The identifier.
    pub fn id(&self) -> (r: &ComponentId)
        ensures
            r@ == self.id_view(),
    {
        &self.id
    }

    /// The configuration.
    pub fn props(&self) -> (r: &SelectProps)
        ensures
            *r == self.props_view(),
    {
        &self.props
    }

    /// The state.
    pub fn state(&self) -> (r: &SelectState)
        ensures
            *r == self.state_view(),
    {
        &self.state
    }

    /// The selected values, in the order they were selected.
    pub fn selected_values(&self) -> (r: Vec<String>)
        ensures
            strings_view(r@) == self.selection(),
    {
        let mut out: Vec<String> = Vec::new();
        let mut i: usize = 0;
        while i < self.state.selected_values.len()
            invariant
                i <= self.state.selected_values@.len(),
                strings_view(out@) == self.selection().take(i as int),
            decreases self.state.selected_values@.len() - i,
        {
            let ghost before = out@;
            out.push(self.state.selected_values[i].clone());
            assert(strings_view(out@) =~= strings_view(before).push(self.state.selected_values@[i as int]@));
            assert(strings_view(out@) =~= self.selection().take(i + 1));
            i += 1;
        }
        assert(self.selection().take(i as int) =~= self.selection());
        out
    }

    /// The first selected value, if any.
    pub fn selected_value(&self) -> (r: Option<String>)
        ensures
            self.selection().len() == 0 ==> r is None,
            self.selection().len() > 0 ==> (r matches Some(v) && v@ == self.selection()[0]),
    {
        if self.state.selected_values.len() == 0 {
            None
        } else {
            Some(self.state.selected_values[0].clone())
        }
    }

    /// The position of a value in the selection.
    fn position(&self, value: &str) -> (r: Option<usize>)
        ensures
            match r {
                Some(i) => first_at(self.selection(), value@, i as int),
                None => !self.selection().contains(value@),
            },
    {
        let mut i: usize = 0;
        while i < self.state.selected_values.len()
            invariant
                i <= self.state.selected_values@.len(),
                forall|j: int| 0 <= j < i ==> self.selection()[j] != value@,
            decreases self.state.selected_values@.len() - i,
        {
            if str_eq(self.state.selected_values[i].as_str(), value) {
                return Some(i);
            }
            i += 1;
        }
        None
    }

    /// Set the validation of the current selection.
    fn validate_selection(&mut self)
        ensures
            select_validation(
                final(self).props_view(),
                final(self).selection().len(),
                final(self).state_view().common.validation_state,
                final(self).state_view().last_validation_message,
            ),
            final(self).same_but_selection(old(self)),
            final(self).selection() == old(self).selection(),
            final(self).state_view().common.dirty == old(self).state_view().common.dirty,
    {
        let count = self.state.selected_values.len();
        if self.props.required && count == 0 {
            self.state.common.validation_state = ValidationState::Invalid(required_message());
            self.state.last_validation_message = Some(required_message());
            return;
        }
        match self.props.max_selections {
            Some(max) => {
                if count > max {
                    let mut msg = "Maximum ".to_owned();
                    let n = decimal_text(max as u64);
                    msg.append(n.as_str());
                    msg.append(" selections allowed");
                    self.state.common.validation_state = ValidationState::Invalid(msg.clone());
                    self.state.last_validation_message = Some(msg);
                    return;
                }
            },
            None => {},
        }
        self.state.common.validation_state = ValidationState::Valid;
        self.state.last_validation_message = None;
    }

    /// Whether some enabled option has the value.
    fn is_allowed(&self, value: &str) -> (r: bool)
        ensures
            r == allowed_value(self.props_view().options@, value@),
    {
        let mut i: usize = 0;
        while i < self.props.options.len()
            invariant
                i <= self.props.options@.len(),
                forall|j: int| 0 <= j < i ==> !(self.props.options@[j].value@ == value@ && !self.props.options@[j].disabled),
            decreases self.props.options@.len() - i,
        {
            if str_eq(self.props.options[i].value.as_str(), value) && !self.props.options[i].disabled {
                return true;
            }
            i += 1;
        }
        false
    }

    /// Select the given values that some enabled option has, each once.
    pub fn set_selected_values(&mut self, values: Vec<String>)
        ensures
            final(self).selection() == allowed_upto(old(self).props_view().options@, strings_view(values@), values@.len() as int),
            final(self).state_view().common.dirty,
            select_validation(
                final(self).props_view(),
                final(self).selection().len(),
                final(self).state_view().common.validation_state,
                final(self).state_view().last_validation_message,
            ),
            final(self).same_but_selection(old(self)),
    {
        let ghost vals = strings_view(values@);
        self.state.selected_values = Vec::new();
        let mut i: usize = 0;
        while i < values.len()
            invariant
                i <= values@.len(),
                vals == strings_view(values@),
                self.selection() == allowed_upto(self.props_view().options@, vals, i as int),
                self.same_but_selection(old(self)),
                self.state.common.focus_state == old(self).state.common.focus_state,
            decreases values@.len() - i,
        {
            let v = &values[i];
            if self.is_allowed(v.as_str()) {
                if self.position(v.as_str()).is_none() {
                    self.state.selected_values.push(v.clone());
                    assert(self.selection() =~= allowed_upto(self.props_view().options@, vals, i as int).push(vals[i as int]));
                }
            }
            i += 1;
        }
        self.state.common.mark_dirty();
        self.validate_selection();
    }

    /// Add a value to the selection. A single selection is cleared first.
    /// Refused (false) when the limit is reached or the value is already
    /// selected.
    pub fn add_selection(&mut self, value: String) -> (r: bool)
        ensures
            ({
                let base = if old(self).props_view().multi_select { old(self).selection() } else { Seq::empty() };
                let full = old(self).props_view().max_selections matches Some(m) && base.len() >= m;
                if full || base.contains(value@) {
                    &&& !r
                    &&& final(self).selection() == base
                    &&& final(self).state_view().common == old(self).state_view().common
                    &&& final(self).state_view().last_validation_message == old(self).state_view().last_validation_message
                } else {
                    &&& r
                    &&& final(self).selection() == base.push(value@)
                    &&& final(self).state_view().common.dirty
                    &&& select_validation(
                        final(self).props_view(),
                        final(self).selection().len(),
                        final(self).state_view().common.validation_state,
                        final(self).state_view().last_validation_message,
                    )
                }
            }),
            final(self).same_but_selection(old(self)),
    {
        if !self.props.multi_select {
            self.state.selected_values = Vec::new();
            assert(self.selection() =~= Seq::<Seq<char>>::empty());
        }
        match self.props.max_selections {
            Some(max) => {
                if self.state.selected_values.len() >= max {
                    return false;
                }
            },
            None => {},
        }
        if self.position(value.as_str()).is_some() {
            return false;
        }
        let ghost before = self.selection();
        self.state.selected_values.push(value);
        assert(self.selection() =~= before.push(value@));
        self.state.common.mark_dirty();
        self.validate_selection();
        true
    }

    /// Remove a value from the selection; false when it was not selected.
    pub fn remove_selection(&mut self, value: &str) -> (r: bool)
        ensures
            r == old(self).selection().contains(value@),
            !r ==> final(self).state_view() == old(self).state_view(),
            r ==> {
                &&& exists|i: int| first_at(old(self).selection(), value@, i)
                    && final(self).selection() == old(self).selection().remove(i)
                &&& final(self).state_view().common.dirty
                &&& select_validation(
                    final(self).props_view(),
                    final(self).selection().len(),
                    final(self).state_view().common.validation_state,
                    final(self).state_view().last_validation_message,
                )
            },
            final(self).same_but_selection(old(self)),
    {
        match self.position(value) {
            Some(i) => {
                let ghost before = self.selection();
                self.state.selected_values.remove(i);
                assert(self.selection() =~= before.remove(i as int));
                assert(first_at(before, value@, i as int));
                self.state.common.mark_dirty();
                self.validate_selection();
                true
            },
            None => false,
        }
    }

    /// Clear the selection, when there is one.
    pub fn clear_selections(&mut self)
        ensures
            old(self).selection().len() == 0 ==> final(self).state_view() == old(self).state_view(),
            old(self).selection().len() > 0 ==> {
                &&& final(self).selection().len() == 0
                &&& final(self).state_view().common.dirty
                &&& select_validation(
                    final(self).props_view(),
                    0,
                    final(self).state_view().common.validation_state,
                    final(self).state_view().last_validation_message,
                )
            },
            final(self).same_but_selection(old(self)),
    {
        if self.state.selected_values.len() > 0 {
            self.state.selected_values = Vec::new();
            self.state.common.mark_dirty();
            self.validate_selection();
        }
    }

    /// Toggle a value: remove it when selected, else add it.
    pub fn toggle_selection(&mut self, value: String) -> (r: bool)
        ensures
            old(self).selection().contains(value@) ==> r && exists|i: int| first_at(old(self).selection(), value@, i)
                && final(self).selection() == old(self).selection().remove(i),
            !old(self).selection().contains(value@) ==> ({
                let base = if old(self).props_view().multi_select { old(self).selection() } else { Seq::empty() };
                let full = old(self).props_view().max_selections matches Some(m) && base.len() >= m;
                if full || base.contains(value@) {
                    !r && final(self).selection() == base
                } else {
                    r && final(self).selection() == base.push(value@)
                }
            }),
            final(self).same_but_selection(old(self)),
    {
        if self.position(value.as_str()).is_some() {
            self.remove_selection(value.as_str())
        } else {
            self.add_selection(value)
        }
    }

    /// Recompute the options shown for the search.
    fn update_filtered_options(&mut self)
        ensures
            final(self).state_view().filtered_options@ == filtered_spec(final(self).props_view().options@, final(self).state_view().search_query@),
            final(self).props_view() == old(self).props_view(),
            final(self).id_view() == old(self).id_view(),
            final(self).selection() == old(self).selection(),
            final(self).state_view().search_query == old(self).state_view().search_query,
            final(self).state_view().is_open == old(self).state_view().is_open,
            final(self).state_view().highlighted_index == old(self).state_view().highlighted_index,
            final(self).state_view().common == old(self).state_view().common,
            final(self).state_view().last_validation_message == old(self).state_view().last_validation_message,
    {
        let n = self.props.options.len();
        let mut filtered: Vec<usize> = Vec::new();
        if self.state.search_query.as_str().is_empty() {
            let mut i: usize = 0;
            while i < n
                invariant
                    i <= n,
                    n == self.props.options@.len(),
                    filtered@ == Seq::new(i as nat, |k: int| k as usize),
                decreases n - i,
            {
                filtered.push(i);
                assert(filtered@ =~= Seq::new((i + 1) as nat, |k: int| k as usize));
                i += 1;
            }
        } else {
            let query = to_lowercase(self.state.search_query.as_str());
            let ghost q = self.state.search_query@;
            let ghost opts = self.props.options@;
            let mut i: usize = 0;
            while i < n
                invariant
                    i <= n,
                    n == opts.len(),
                    opts == self.props.options@,
                    q == self.state.search_query@,
                    query@ == lowercase(q),
                    filtered@ == matching_upto(opts, q, i as int),
                decreases n - i,
            {
                let label = to_lowercase(self.props.options[i].label.as_str());
                let value = to_lowercase(self.props.options[i].value.as_str());
                if text_contains(label.as_str(), query.as_str()) || text_contains(value.as_str(), query.as_str()) {
                    filtered.push(i);
                }
                i += 1;
            }
        }
        self.state.filtered_options = filtered;
    }

    /// Open the dropdown, unless readonly; the first option is highlighted.
    pub fn open(&mut self)
        ensures
            old(self).props_view().readonly ==> final(self).state_view() == old(self).state_view(),
            !old(self).props_view().readonly ==> final(self).state_view()
                == (SelectState { is_open: true, highlighted_index: 0, ..old(self).state_view() }),
            final(self).props_view() == old(self).props_view(),
            final(self).id_view() == old(self).id_view(),
    {
        if !self.props.readonly {
            self.state.is_open = true;
            self.state.highlighted_index = 0;
        }
    }

    /// Close the dropdown; the search is cleared and every option shown.
    pub fn close(&mut self)
        ensures
            !final(self).state_view().is_open,
            final(self).state_view().search_query@.len() == 0,
            final(self).state_view().filtered_options@ == filtered_spec(old(self).props_view().options@, Seq::empty()),
            final(self).selection() == old(self).selection(),
            final(self).state_view().highlighted_index == old(self).state_view().highlighted_index,
            final(self).state_view().common == old(self).state_view().common,
            final(self).state_view().last_validation_message == old(self).state_view().last_validation_message,
            final(self).props_view() == old(self).props_view(),
            final(self).id_view() == old(self).id_view(),
    {
        self.state.is_open = false;
        self.state.search_query = String::new();
        self.update_filtered_options();
    }

    /// Move the highlight up.
    pub fn move_up(&mut self)
        ensures
            final(self).state_view() == (SelectState {
                highlighted_index: if old(self).state_view().highlighted_index > 0 {
                    (old(self).state_view().highlighted_index - 1) as usize
                } else {
                    0usize
                },
                ..old(self).state_view()
            }),
            final(self).props_view() == old(self).props_view(),
            final(self).id_view() == old(self).id_view(),
    {
        if self.state.highlighted_index > 0 {
            self.state.highlighted_index -= 1;
        }
    }

    /// Move the highlight down, within the options shown.
    pub fn move_down(&mut self)
        ensures
            final(self).state_view() == (SelectState {
                highlighted_index: if old(self).state_view().highlighted_index + 1 < old(self).state_view().filtered_options@.len() {
                    (old(self).state_view().highlighted_index + 1) as usize
                } else {
                    old(self).state_view().highlighted_index
                },
                ..old(self).state_view()
            }),
            final(self).props_view() == old(self).props_view(),
            final(self).id_view() == old(self).id_view(),
    {
        let n = self.state.filtered_options.len();
        let last = if n > 0 { n - 1 } else { 0 };
        if self.state.highlighted_index < last {
            self.state.highlighted_index += 1;
        }
    }

    /// The option highlighted, when it exists and is enabled.
    /// The selection after choosing: the highlighted option's value
    /// toggled, when an enabled option is highlighted.
    pub open spec fn chosen_selection(&self) -> Seq<Seq<char>> {
        match self.highlighted_option() {
            Some(o) => toggled_selection(self.selection(), o.value@, self.props_view().multi_select, self.props_view().max_selections),
            None => self.selection(),
        }
    }

    /// Whether choosing is taken: an enabled option is highlighted and
    /// toggling its value is taken.
    pub open spec fn choose_taken(&self) -> bool {
        match self.highlighted_option() {
            Some(o) => toggle_taken(self.selection(), o.value@, self.props_view().multi_select, self.props_view().max_selections),
            None => false,
        }
    }

    /// The selection after a key: a focused, editable field clears it on
    /// the clear key and chooses on Enter or Space while open; otherwise it
    /// stays.
    pub open spec fn key_selection(&self, key: KeyEvent) -> Seq<Seq<char>> {
        let active = self.state_view().common.focus_state == FocusState::Focused && !self.props_view().readonly;
        let action = select_key_action(self.state_view().is_open, self.props_view().searchable, self.props_view().show_clear_button, key);
        if !active {
            self.selection()
        } else {
            match action {
                SelectKeyAction::Clear => Seq::empty(),
                SelectKeyAction::Choose => self.chosen_selection(),
                _ => self.selection(),
            }
        }
    }

    /// The events that a key reports: one value change, with the old and
    /// new selections joined by commas, when the key changes the selection;
    /// else none.
    pub open spec fn key_events(&self, key: KeyEvent, events: Seq<ComponentEvent>) -> bool {
        let after = self.key_selection(key);
        if after == self.selection() {
            events.len() == 0
        } else {
            &&& events.len() == 1
            &&& events[0] matches ComponentEvent::ValueChanged { component_id, old_value, new_value }
                && component_id@ == self.id_view()
                && old_value@ == join_with(self.selection(), ","@)
                && new_value@ == join_with(after, ","@)
        }
    }

    pub open spec fn highlighted_option(&self) -> Option<SelectOption> {
        let h = self.state_view().highlighted_index as int;
        let f = self.state_view().filtered_options@;
        let opts = self.props_view().options@;
        if h < f.len() && (f[h] as int) < opts.len() && !opts[f[h] as int].disabled {
            Some(opts[f[h] as int])
        } else {
            None
        }
    }

    /// Toggle the highlighted option, when it is enabled.
    pub fn select_highlighted(&mut self) -> (r: bool)
        ensures
            old(self).highlighted_option() is None ==> !r && final(self).state_view() == old(self).state_view(),
            old(self).highlighted_option() matches Some(o) ==> ({
                let v = o.value@;
                if old(self).selection().contains(v) {
                    r && exists|i: int| first_at(old(self).selection(), v, i)
                        && final(self).selection() == old(self).selection().remove(i)
                } else {
                    let base = if old(self).props_view().multi_select { old(self).selection() } else { Seq::empty() };
                    let full = old(self).props_view().max_selections matches Some(m) && base.len() >= m;
                    if full || base.contains(v) {
                        !r && final(self).selection() == base
                    } else {
                        r && final(self).selection() == base.push(v)
                    }
                }
            }),
            final(self).same_but_selection(old(self)),
    {
        let h = self.state.highlighted_index;
        if h < self.state.filtered_options.len() {
            let idx = self.state.filtered_options[h];
            if idx < self.props.options.len() {
                if !self.props.options[idx].disabled {
                    let value = self.props.options[idx].value.clone();
                    return self.toggle_selection(value);
                }
            }
        }
        false
    }

    /// Set the search; the options shown follow it and the first is
    /// highlighted.
    pub fn set_search_query(&mut self, query: String)
        ensures
            final(self).state_view().search_query == query,
            final(self).state_view().filtered_options@ == filtered_spec(old(self).props_view().options@, query@),
            final(self).state_view().highlighted_index == 0,
            final(self).state_view().is_open == old(self).state_view().is_open,
            final(self).state_view().common == old(self).state_view().common,
            final(self).selection() == old(self).selection(),
            final(self).props_view() == old(self).props_view(),
            final(self).id_view() == old(self).id_view(),
    {
        self.state.search_query = query;
        self.update_filtered_options();
        self.state.highlighted_index = 0;
    }

    /// The label of the first option with the value.
    fn label_of(&self, v: &str) -> (r: Option<&String>)
        ensures
            match first_label(self.props_view().options@, v@) {
                Some(l) => r matches Some(x) && x@ == l,
                None => r is None,
            },
    {
        let ghost opts = self.props.options@;
        let mut j: usize = 0;
        assert(opts.subrange(0, opts.len() as int) =~= opts);
        while j < self.props.options.len()
            invariant
                j <= opts.len(),
                opts == self.props.options@,
                first_label(opts, v@) == first_label(opts.subrange(j as int, opts.len() as int), v@),
            decreases opts.len() - j,
        {
            assert(opts.subrange(j as int, opts.len() as int).drop_first() =~= opts.subrange(j + 1, opts.len() as int));
            if str_eq(self.props.options[j].value.as_str(), v) {
                return Some(&self.props.options[j].label);
            }
            j += 1;
        }
        assert(opts.subrange(j as int, opts.len() as int) =~= Seq::<SelectOption>::empty());
        None
    }

    /// The labels of the selected values that have an option.
    fn selected_labels(&self) -> (r: Vec<String>)
        ensures
            strings_view(r@) == labels_of(self.props_view().options@, self.selection()),
    {
        let ghost opts = self.props.options@;
        let ghost sel = self.selection();
        let mut out: Vec<String> = Vec::new();
        let mut i: usize = 0;
        while i < self.state.selected_values.len()
            invariant
                i <= sel.len(),
                sel == self.selection(),
                opts == self.props.options@,
                strings_view(out@) == labels_of(opts, sel.take(i as int)),
            decreases sel.len() - i,
        {
            let v = self.state.selected_values[i].as_str();
            assert(sel.take(i + 1).drop_last() =~= sel.take(i as int));
            match self.label_of(v) {
                Some(l) => {
                    let ghost before = out@;
                    out.push(l.clone());
                    assert(strings_view(out@) =~= strings_view(before).push(l@));
                },
                None => {},
            }
            i += 1;
        }
        assert(sel.take(i as int) =~= sel);
        out
    }

    /// What the field shows.
    pub fn display_text(&self) -> (r: String)
        ensures
            r@ == display_spec(self.props_view(), self.selection()),
    {
        if self.state.selected_values.len() == 0 {
            return self.props.placeholder.clone();
        }
        let labels = self.selected_labels();
        if labels.len() == 0 {
            return self.props.placeholder.clone();
        }
        if self.props.multi_select && labels.len() != 1 {
            let mut t = decimal_text(labels.len() as u64);
            t.append(" items selected");
            t
        } else {
            labels[0].clone()
        }
    }

    /// The style of the border.
    pub fn get_border_style(&self) -> (r: CellStyle)
        ensures
            r == field_border_spec(self.state_view().common),
    {
        field_border_style(&self.state.common)
    }

    /// The title with its markers: required, modified, validation, search
    /// and multiple selection.
    pub fn get_title_with_indicators(&self) -> (r: String)
        ensures
            r@ == self.props_view().title@
                + (if self.props_view().required { " *"@ } else { Seq::empty() })
                + (if self.state_view().common.dirty { " (modified)"@ } else { Seq::empty() })
                + (match self.state_view().common.validation_state {
                    ValidationState::Invalid(_) => " ❌"@,
                    ValidationState::Pending => " ⚠️"@,
                    ValidationState::Valid => if self.state_view().common.dirty { " ✅"@ } else { Seq::empty() },
                })
                + (if self.props_view().searchable { " 🔍"@ } else { Seq::empty() })
                + (if self.props_view().multi_select { " ☰"@ } else { Seq::empty() }),
    {
        let mut title = self.props.title.clone();
        let ghost t0 = title@;
        if self.props.required {
            title.append(" *");
        }
        let ghost t1 = title@;
        assert(t1 =~= t0 + (if self.props.required { " *"@ } else { Seq::empty() }));
        if self.state.common.dirty {
            title.append(" (modified)");
        }
        let ghost t2 = title@;
        assert(t2 =~= t1 + (if self.state.common.dirty { " (modified)"@ } else { Seq::empty() }));
        match &self.state.common.validation_state {
            ValidationState::Invalid(_) => title.append(" ❌"),
            ValidationState::Pending => title.append(" ⚠️"),
            ValidationState::Valid => {
                if self.state.common.dirty {
                    title.append(" ✅");
                }
            },
        }
        let ghost t3 = title@;
        assert(t3 =~= t2 + (match self.state.common.validation_state {
            ValidationState::Invalid(_) => " ❌"@,
            ValidationState::Pending => " ⚠️"@,
            ValidationState::Valid => if self.state.common.dirty { " ✅"@ } else { Seq::empty() },
        }));
        if self.props.searchable {
            title.append(" 🔍");
        }
        let ghost t4 = title@;
        assert(t4 =~= t3 + (if self.props.searchable { " 🔍"@ } else { Seq::empty() }));
        if self.props.multi_select {
            title.append(" ☰");
        }
        assert(title@ =~= t4 + (if self.props.multi_select { " ☰"@ } else { Seq::empty() }));
        title
    }

    /// Whether the selection is valid.
    pub fn is_valid(&self) -> (r: bool)
        ensures
            r == (self.state_view().common.validation_state is Valid),
    {
        match self.state.common.validation_state {
            ValidationState::Valid => true,
            _ => false,
        }
    }

    /// The last validation message.
    pub fn validation_message(&self) -> (r: Option<&str>)
        ensures
            match self.state_view().last_validation_message {
                Some(m) => r matches Some(x) && x@ == m@,
                None => r is None,
            },
    {
        match &self.state.last_validation_message {
            Some(m) => Some(m.as_str()),
            None => None,
        }
    }

    /// The validation state.
    pub fn validate(&self) -> (r: ValidationState)
        ensures
            r == self.state_view().common.validation_state,
    {
        match &self.state.common.validation_state {
            ValidationState::Valid => ValidationState::Valid,
            ValidationState::Invalid(m) => ValidationState::Invalid(m.clone()),
            ValidationState::Pending => ValidationState::Pending,
        }
    }

    /// Set the focus state.
    pub fn set_focus_state(&mut self, focus_state: FocusState)
        ensures
            final(self).state_view().common.focus_state == focus_state,
            final(self).selection() == old(self).selection(),
            final(self).state_view().is_open == old(self).state_view().is_open,
            final(self).props_view() == old(self).props_view(),
            final(self).id_view() == old(self).id_view(),
    {
        self.state.common.focus_state = focus_state;
    }

    /// What a key does, by the dropdown state and the configuration.
    fn key_action(&self, key: KeyEvent) -> (r: SelectKeyAction)
        ensures
            r == select_key_action(self.state_view().is_open, self.props_view().searchable, self.props_view().show_clear_button, key),
    {
        let open = self.state.is_open;
        let searchable = self.props.searchable;
        let enter_or_space = match key.code {
            KeyCode::Enter => true,
            KeyCode::Char(' ') => true,
            _ => false,
        };
        if enter_or_space && !open {
            return SelectKeyAction::Open;
        }
        match key.code {
            KeyCode::Esc => {
                if open {
                    return SelectKeyAction::Close;
                }
            },
            KeyCode::Up => {
                if open {
                    return SelectKeyAction::Up;
                }
            },
            KeyCode::Down => {
                if open {
                    return SelectKeyAction::Down;
                }
            },
            _ => {},
        }
        if enter_or_space && open {
            return SelectKeyAction::Choose;
        }
        match key.code {
            KeyCode::Char(c) => {
                if open && searchable {
                    return SelectKeyAction::Type(c);
                }
            },
            KeyCode::Backspace => {
                if open && searchable {
                    return SelectKeyAction::Erase;
                }
            },
            _ => {},
        }
        let clear_key = match key.code {
            KeyCode::Delete => true,
            KeyCode::Char('c') => key.modifiers.bits == 2,
            _ => false,
        };
        if clear_key && self.props.show_clear_button {
            SelectKeyAction::Clear
        } else {
            SelectKeyAction::Nothing
        }
    }

    /// Handle a key. Only a focused, editable field takes keys; what a key
    /// does is `select_key_action`. When the selection changes, a value
    /// change is reported with the old and new selections joined by commas.
    pub fn handle_key(&mut self, key: KeyEvent) -> (r: ComponentResult<Vec<ComponentEvent>>)
        ensures
            final(self).selection() == old(self).key_selection(key),
            r matches Ok(events) && old(self).key_events(key, events@),
            final(self).props_view() == old(self).props_view(),
            final(self).id_view() == old(self).id_view(),
            ({
                let o = old(self);
                let active = o.state_view().common.focus_state == FocusState::Focused && !o.props_view().readonly;
                let action = select_key_action(o.state_view().is_open, o.props_view().searchable, o.props_view().show_clear_button, key);
                if !active {
                    &&& final(self).state_view() == o.state_view()
                    &&& r matches Ok(events) && events@.len() == 0
                } else {
                    &&& match action {
                        SelectKeyAction::Open => final(self).state_view().is_open && final(self).state_view().highlighted_index == 0
                            && final(self).selection() == o.selection(),
                        SelectKeyAction::Close => !final(self).state_view().is_open
                            && final(self).state_view().search_query@.len() == 0
                            && final(self).selection() == o.selection(),
                        SelectKeyAction::Up | SelectKeyAction::Down => final(self).state_view().is_open
                            && final(self).selection() == o.selection(),
                        SelectKeyAction::Type(c) => final(self).state_view().search_query@ == o.state_view().search_query@.push(c)
                            && final(self).state_view().highlighted_index == 0
                            && final(self).selection() == o.selection(),
                        SelectKeyAction::Erase => final(self).state_view().search_query@ == (if o.state_view().search_query@.len() == 0 {
                                o.state_view().search_query@
                            } else {
                                o.state_view().search_query@.drop_last()
                            })
                            && final(self).state_view().highlighted_index == 0
                            && final(self).selection() == o.selection(),
                        SelectKeyAction::Clear => final(self).selection().len() == 0,
                        SelectKeyAction::Nothing => final(self).state_view() == o.state_view(),
                        SelectKeyAction::Choose => final(self).selection() == o.chosen_selection()
                            && final(self).state_view().is_open == !(o.choose_taken() && !o.props_view().multi_select),
                    }
                    &&& final(self).selection() == o.selection() ==> (r matches Ok(events) && events@.len() == 0)
                    &&& final(self).selection() != o.selection() ==> (r matches Ok(events) && events@.len() == 1
                        && (events@[0] matches ComponentEvent::ValueChanged { component_id, old_value, new_value }
                            && component_id@ == o.id_view()
                            && old_value@ == join_with(o.selection(), ","@)
                            && new_value@ == join_with(final(self).selection(), ","@)))
                }
            }),
    {
        let mut events: Vec<ComponentEvent> = Vec::new();
        if self.state.common.focus_state != FocusState::Focused || self.props.readonly {
            return Ok(events);
        }
        let old_selected = self.selected_values();
        match self.key_action(key) {
            SelectKeyAction::Open => self.open(),
            SelectKeyAction::Close => self.close(),
            SelectKeyAction::Up => self.move_up(),
            SelectKeyAction::Down => self.move_down(),
            SelectKeyAction::Choose => {
                let ghost before = *self;
                let taken = self.select_highlighted();
                proof {
                    if let Some(o) = before.highlighted_option() {
                        lemma_toggled(
                            before.selection(),
                            o.value@,
                            before.props_view().multi_select,
                            before.props_view().max_selections,
                            self.selection(),
                        );
                    }
                }
                if taken {
                    if !self.props.multi_select {
                        self.close();
                    }
                }
            },
            SelectKeyAction::Type(c) => {
                let mut query = self.state.search_query.clone();
                push_char(&mut query, c);
                self.set_search_query(query);
            },
            SelectKeyAction::Erase => {
                let mut query = self.state.search_query.clone();
                let _ = pop_char(&mut query);
                self.set_search_query(query);
            },
            SelectKeyAction::Clear => self.clear_selections(),
            SelectKeyAction::Nothing => {},
        }
        let new_selected = self.selected_values();
        if !same_strings(&old_selected, &new_selected) {
            events.push(ComponentEvent::ValueChanged {
                component_id: self.id.duplicate(),
                old_value: join_strings(&old_selected, ","),
                new_value: join_strings(&new_selected, ","),
            });
        }
        assert(self.selection() =~= old(self).key_selection(key));
        assert(old(self).key_events(key, events@));
        Ok(events)
    }

    /// Focus events for this field set its focus; losing the focus also
    /// closes the dropdown and validates the selection.
    pub fn handle_event(&mut self, event: &ComponentEvent) -> (r: ComponentResult<Vec<ComponentEvent>>)
        ensures
            r matches Ok(events) && events@.len() == 0,
            final(self).props_view() == old(self).props_view(),
            final(self).id_view() == old(self).id_view(),
            final(self).selection() == old(self).selection(),
            match event {
                ComponentEvent::FocusGained { component_id } if component_id@ == old(self).id_view() =>
                    final(self).state_view().common.focus_state == FocusState::Focused,
                ComponentEvent::FocusLost { component_id } if component_id@ == old(self).id_view() => {
                    &&& final(self).state_view().common.focus_state == FocusState::Unfocused
                    &&& !final(self).state_view().is_open
                    &&& select_validation(
                        final(self).props_view(),
                        final(self).selection().len(),
                        final(self).state_view().common.validation_state,
                        final(self).state_view().last_validation_message,
                    )
                },
                _ => final(self).state_view() == old(self).state_view(),
            },
    {
        match event {
            ComponentEvent::FocusGained { component_id } => {
                if component_id.same_as(&self.id) {
                    self.set_focus_state(FocusState::Focused);
                }
            },
            ComponentEvent::FocusLost { component_id } => {
                if component_id.same_as(&self.id) {
                    self.set_focus_state(FocusState::Unfocused);
                    self.close();
                    self.validate_selection();
                }
            },
            _ => {},
        }
        Ok(Vec::new())
    }
}

/// Whether `i` is the first position of `v` in `s`.
pub open spec fn first_at(s: Seq<Seq<char>>, v: Seq<char>, i: int) -> bool {
    0 <= i < s.len() && s[i] == v && forall|j: int| 0 <= j < i ==> s[j] != v
}

/// A value occurs first at one position only.
pub proof fn lemma_first_at_unique(s: Seq<Seq<char>>, v: Seq<char>, i: int, j: int)
    requires
        first_at(s, v, i),
        first_at(s, v, j),
    ensures
        i == j,
{
    if i < j {
        assert(s[i] == v);
    } else if j < i {
        assert(s[j] == v);
    }
}

/// The selection after toggling the value `v`: a selected value leaves
/// from its first position; another is added at the end, to the selection
/// when several may be selected and in place of it otherwise, unless that
/// would pass the largest number of selections.
pub open spec fn toggled_selection(sel: Seq<Seq<char>>, v: Seq<char>, multi: bool, max: Option<usize>) -> Seq<Seq<char>> {
    if sel.contains(v) {
        sel.remove(choose|i: int| first_at(sel, v, i))
    } else {
        let base = if multi { sel } else { Seq::empty() };
        let full = max matches Some(m) && base.len() >= m;
        if full || base.contains(v) {
            base
        } else {
            base.push(v)
        }
    }
}

/// Whether toggling the value `v` is taken: it removes a selected value,
/// or adds one.
pub open spec fn toggle_taken(sel: Seq<Seq<char>>, v: Seq<char>, multi: bool, max: Option<usize>) -> bool {
    if sel.contains(v) {
        true
    } else {
        let base = if multi { sel } else { Seq::empty() };
        let full = max matches Some(m) && base.len() >= m;
        !(full || base.contains(v))
    }
}

/// What toggling gives, in the terms of `toggled_selection`.
proof fn lemma_toggled(sel: Seq<Seq<char>>, v: Seq<char>, multi: bool, max: Option<usize>, after: Seq<Seq<char>>)
    requires
        sel.contains(v) ==> exists|i: int| first_at(sel, v, i) && after == sel.remove(i),
        !sel.contains(v) ==> ({
            let base = if multi { sel } else { Seq::empty() };
            let full = max matches Some(m) && base.len() >= m;
            if full || base.contains(v) { after == base } else { after == base.push(v) }
        }),
    ensures
        after == toggled_selection(sel, v, multi, max),
{
    if sel.contains(v) {
        let i = choose|i: int| first_at(sel, v, i) && after == sel.remove(i);
        let k = choose|i: int| first_at(sel, v, i);
        lemma_first_at_unique(sel, v, i, k);
    }
}

/// Whether two lists of strings hold the same texts in the same order.
pub fn same_strings(a: &Vec<String>, b: &Vec<String>) -> (r: bool)
    ensures
        r == (strings_view(a@) == strings_view(b@)),
{
    if a.len() != b.len() {
        assert(strings_view(a@).len() != strings_view(b@).len());
        return false;
    }
    let mut i: usize = 0;
    while i < a.len()
        invariant
            a@.len() == b@.len(),
            i <= a@.len(),
            forall|j: int| 0 <= j < i ==> a@[j]@ == b@[j]@,
        decreases a@.len() - i,
    {
        if !str_eq(a[i].as_str(), b[i].as_str()) {
            assert(strings_view(a@)[i as int] != strings_view(b@)[i as int]);
            return false;
        }
        i += 1;
    }
    assert(strings_view(a@) =~= strings_view(b@));
    true
}

/// An entry of an open dropdown: its text, and whether its option is
/// disabled or selected.
#[derive(Debug, Clone)]
pub struct DropdownItem {
    pub text: String,
    pub disabled: bool,
    pub selected: bool,
}

/// An open dropdown below a select field: where it goes, its entries, and
/// the search line below it with its text.
#[derive(Debug, Clone)]
pub struct DropdownView {
    pub area: Area,
    pub items: Vec<DropdownItem>,
    pub search_line: Option<(Area, String)>,
}

/// What a select field shows: the display text with the open or closed
/// marker, whether nothing is selected (the text is then dimmed), and the
/// dropdown when it is open, has entries and fits above the bottom of the
/// screen.
#[derive(Debug, Clone)]
pub struct SelectView {
    pub content: String,
    pub nothing_selected: bool,
    pub dropdown: Option<DropdownView>,
}

/// The mark in front of a dropdown entry: a checked or empty box with
/// multiple selection, a dot or nothing otherwise.
pub open spec fn item_prefix(multi: bool, selected: bool) -> Seq<char> {
    if selected {
        if multi {
            "☑ "@
        } else {
            "● "@
        }
    } else {
        if multi {
            "☐ "@
        } else {
            "  "@
        }
    }
}

/// The entries for the first `k` filtered positions: each position that
/// names an option gives its marked label, whether it is disabled and
/// whether it is selected.
pub open spec fn dropdown_entries(
    opts: Seq<SelectOption>,
    sel: Seq<Seq<char>>,
    multi: bool,
    filtered: Seq<usize>,
    k: int,
) -> Seq<(Seq<char>, bool, bool)>
    decreases k,
{
    if k <= 0 {
        Seq::empty()
    } else {
        let prev = dropdown_entries(opts, sel, multi, filtered, k - 1);
        let idx = filtered[k - 1] as int;
        if idx < opts.len() {
            let o = opts[idx];
            let chosen = sel.contains(o.value@);
            prev.push((item_prefix(multi, chosen) + o.label@, o.disabled, chosen))
        } else {
            prev
        }
    }
}

pub open spec fn items_view(items: Seq<DropdownItem>) -> Seq<(Seq<char>, bool, bool)> {
    items.map_values(|d: DropdownItem| (d.text@, d.disabled, d.selected))
}

/// The dropdown's place: right below the field, as wide, two lines more
/// than it has entries and at most ten high.
pub open spec fn dropdown_area(area: Area, n: nat) -> Area {
    Area {
        x: area.x,
        y: (area.y + area.height) as u16,
        width: area.width,
        height: min_int(n + 2 as int, 10) as u16,
    }
}

impl Select {
    /// Whether the dropdown is open with entries to show.
    pub open spec fn dropdown_open(&self) -> bool {
        self.state_view().is_open && self.state_view().filtered_options@.len() > 0
    }

    /// The dropdown's place and its search line can be computed in 16 bits.
    pub open spec fn view_fits(&self, area: Area) -> bool {
        self.dropdown_open() ==> {
            let d = dropdown_area(area, self.state_view().filtered_options@.len());
            &&& area.y + area.height <= u16::MAX
            &&& area.y + area.height + d.height <= u16::MAX
            &&& (self.props_view().searchable && self.state_view().search_query@.len() > 0) ==> area.x + 1
                <= u16::MAX
        }
    }

    /// The entries of the open dropdown.
    fn dropdown_items(&self) -> (r: Vec<DropdownItem>)
        ensures
            items_view(r@) == dropdown_entries(
                self.props_view().options@,
                self.selection(),
                self.props_view().multi_select,
                self.state_view().filtered_options@,
                self.state_view().filtered_options@.len() as int,
            ),
    {
        let mut out: Vec<DropdownItem> = Vec::new();
        let mut i: usize = 0;
        while i < self.state.filtered_options.len()
            invariant
                i <= self.state_view().filtered_options@.len(),
                items_view(out@) == dropdown_entries(
                    self.props_view().options@,
                    self.selection(),
                    self.props_view().multi_select,
                    self.state_view().filtered_options@,
                    i as int,
                ),
            decreases self.state_view().filtered_options@.len() - i,
        {
            let idx = self.state.filtered_options[i];
            if idx < self.props.options.len() {
                let o = &self.props.options[idx];
                let chosen = self.position(o.value.as_str()).is_some();
                let mut text = if chosen {
                    if self.props.multi_select {
                        "☑ ".to_owned()
                    } else {
                        "● ".to_owned()
                    }
                } else {
                    if self.props.multi_select {
                        "☐ ".to_owned()
                    } else {
                        "  ".to_owned()
                    }
                };
                text.append(o.label.as_str());
                let ghost before = out@;
                out.push(DropdownItem { text, disabled: o.disabled, selected: chosen });
                assert(items_view(out@) =~= items_view(before).push(
                    (item_prefix(self.props_view().multi_select, chosen) + o.label@, o.disabled, chosen),
                ));
            }
            i += 1;
        }
        out
    }

    /// What the field shows in `area`, on a screen `screen_height` lines
    /// high: the display text and the marker (▲ open, ▼ closed); the
    /// dropdown when open with entries and not reaching below the screen,
    /// with its entries and, when searchable and a query is typed, the
    /// search line below it.
    pub fn view(&self, area: Area, screen_height: u16) -> (r: SelectView)
        requires
            self.view_fits(area),
        ensures
            r.content@ == display_spec(self.props_view(), self.selection()) + " "@ + (if self.state_view().is_open {
                "▲"@
            } else {
                "▼"@
            }),
            r.nothing_selected == (self.selection().len() == 0),
            ({
                let n = self.state_view().filtered_options@.len();
                let d = dropdown_area(area, n);
                if self.dropdown_open() && d.y + d.height <= screen_height {
                    r.dropdown matches Some(v) && {
                        &&& v.area == d
                        &&& items_view(v.items@) == dropdown_entries(
                            self.props_view().options@,
                            self.selection(),
                            self.props_view().multi_select,
                            self.state_view().filtered_options@,
                            n as int,
                        )
                        &&& (self.props_view().searchable && self.state_view().search_query@.len() > 0) ==> (
                        v.search_line matches Some((a, t)) && a == (Area {
                            x: (area.x + 1) as u16,
                            y: (d.y + d.height) as u16,
                            width: (if area.width >= 2 { area.width - 2 } else { 0 }) as u16,
                            height: 1,
                        }) && t@ == "Search: "@ + self.state_view().search_query@)
                        &&& !(self.props_view().searchable && self.state_view().search_query@.len() > 0)
                            ==> v.search_line is None
                    }
                } else {
                    r.dropdown is None
                }
            }),
    {
        let mut content = self.display_text();
        content.append(" ");
        content.append(if self.state.is_open {
            "▲"
        } else {
            "▼"
        });
        let nothing_selected = self.state.selected_values.len() == 0;
        let n = self.state.filtered_options.len();
        if !self.state.is_open || n == 0 {
            return SelectView { content, nothing_selected, dropdown: None };
        }
        let height: u16 = if n >= 8 {
            10
        } else {
            (n + 2) as u16
        };
        let d = Area { x: area.x, y: area.y + area.height, width: area.width, height };
        if d.y + d.height > screen_height {
            return SelectView { content, nothing_selected, dropdown: None };
        }
        let items = self.dropdown_items();
        let search_line = if self.props.searchable && self.state.search_query.as_str().unicode_len() > 0 {
            let mut t = "Search: ".to_owned();
            t.append(self.state.search_query.as_str());
            Some((Area { x: area.x + 1, y: d.y + d.height, width: area.width.saturating_sub(2), height: 1 }, t))
        } else {
            None
        };
        SelectView { content, nothing_selected, dropdown: Some(DropdownView { area: d, items, search_line }) }
    }
}

} // verus!
