//! Forms: fields of every kind, nested groups, navigation between the
//! focusable fields, validation of every field, submission and reset, where
//! the fields are drawn in each layout, and a builder.
//!
//! A form keeps its fields as they are when it moves between them, resets,
//! or hands a key to the focused field: those operations work on a copy of
//! the fields. What changes is the form's own state (the current field, the
//! validation errors, the submission) and the events it reports.

use vstd::prelude::*;
use vstd::string::*;
use crate::assoc::StringTable;
use crate::button::{Button, ButtonProps, ButtonVariant};
use crate::checkbox::{Checkbox, CheckboxProps, CheckboxValue};
use crate::clock::instant_now;
use crate::component::{
    CommonComponentState, ComponentEvent, ComponentId, ComponentResult, FocusState, NavigationDirection,
    ValidationState,
};
use crate::keyboard::ids_view;
use crate::keys::{KeyCode, KeyEvent};
use crate::placement::{
    grid_cell, grid_cells, grid_fits, prefix_sum, row_cell, row_cells, row_fits, stack_step_fits, stacked_row,
    two_column_cell, two_column_cells, two_columns_fit, Area,
};
use crate::radio::{lemma_key_events_same_radio, radio_key_safe, Radio, RadioLayout, RadioProps};
use crate::select::{lemma_key_events_same_select, Select, SelectProps};
use crate::text::{decimal, decimal_text, join_strings, join_with, strings_view};
use crate::text_input::{TextInput, TextInputProps};

verus! {

/// How the fields of a form or a group are laid out.
#[derive(Debug, Clone, Copy, PartialEq, Eq, Structural)]
pub enum FormLayout {
    Vertical,
    Horizontal,
    Grid { columns: u16 },
    TwoColumn,
}

/// An input of a form.
#[derive(Debug, Clone)]
pub enum FormFieldInput {
    TextInput(TextInput),
    Select(Select),
    Checkbox(Checkbox),
    Radio(Radio),
    Button(Button),
}

/// A field of a form: an input, a spacer, a separator or a group of fields.
#[derive(Debug)]
pub enum FormField {
    TextInput(TextInput),
    Select(Select),
    Checkbox(Checkbox),
    Radio(Radio),
    Button(Button),
    Spacer { height: u16 },
    Separator { title: Option<String> },
    Group { title: String, fields: Vec<FormField>, layout: FormLayout },
}

/// Configuration of a form.
#[derive(Debug, Clone)]
pub struct FormProps {
    pub id: ComponentId,
    pub title: String,
    pub description: Option<String>,
    pub layout: FormLayout,
    pub submit_on_enter: bool,
    pub reset_on_submit: bool,
    pub show_validation_summary: bool,
    pub auto_focus_first: bool,
    pub show_help_text: bool,
}

impl Default for FormProps {
    fn default() -> (r: Self)
        ensures
            r.id@ == "form"@,
            r.title@.len() == 0,
            r.description is None,
            r.layout == FormLayout::Vertical,
            r.submit_on_enter && !r.reset_on_submit && r.show_validation_summary && r.auto_focus_first,
            !r.show_help_text,
    {
        FormProps {
            id: ComponentId::new("form"),
            title: String::new(),
            description: None,
            layout: FormLayout::Vertical,
            submit_on_enter: true,
            reset_on_submit: false,
            show_validation_summary: true,
            auto_focus_first: true,
            show_help_text: false,
        }
    }
}

/// State of a form. Values and errors are kept by field identifier.
#[derive(Debug)]
pub struct FormState {
    pub common: CommonComponentState,
    pub current_field_index: usize,
    pub field_order: Vec<ComponentId>,
    pub form_values: StringTable,
    pub validation_errors: StringTable,
    pub is_submitting: bool,
    pub is_submitted: bool,
    pub submission_count: u32,
    pub last_validation_time: Option<std::time::Instant>,
}

impl Default for FormState {
    fn default() -> (r: Self)
        ensures
            r.current_field_index == 0,
            r.field_order@.len() == 0,
            r.form_values@ == Map::<Seq<char>, Seq<char>>::empty(),
            r.validation_errors@ == Map::<Seq<char>, Seq<char>>::empty(),
            !r.is_submitting && !r.is_submitted,
            r.submission_count == 0,
            r.last_validation_time is None,
            r.common.validation_state == ValidationState::Valid,
    {
        FormState {
            common: CommonComponentState::default(),
            current_field_index: 0,
            field_order: Vec::new(),
            form_values: StringTable::new(),
            validation_errors: StringTable::new(),
            is_submitting: false,
            is_submitted: false,
            submission_count: 0,
            last_validation_time: None,
        }
    }
}

/// The identifiers of the focusable fields of a field, in order: an input
/// is one, a group gives those of its fields.
pub open spec fn field_ids(f: FormField) -> Seq<Seq<char>>
    decreases f, 0int,
{
    match f {
        FormField::TextInput(t) => seq![t.id_view()],
        FormField::Select(s) => seq![s.id_view()],
        FormField::Checkbox(c) => seq![c.spec_id()@],
        FormField::Radio(r) => seq![r.spec_id()@],
        FormField::Button(b) => seq![b.id_view()],
        FormField::Group { fields, .. } => fields_ids(fields@, fields@.len() as int),
        _ => Seq::empty(),
    }
}

/// The identifiers of the focusable fields among the first `k` fields.
pub open spec fn fields_ids(s: Seq<FormField>, k: int) -> Seq<Seq<char>>
    decreases s, k,
{
    if k <= 0 || k > s.len() {
        Seq::empty()
    } else {
        fields_ids(s, k - 1) + field_ids(s[k - 1])
    }
}

/// The validation state of an input that validates: text inputs, selects,
/// checkboxes and radio groups.
pub open spec fn input_validation(f: FormField) -> Option<ValidationState> {
    match f {
        FormField::TextInput(t) => Some(t.state_view().common.validation_state),
        FormField::Select(s) => Some(s.state_view().common.validation_state),
        FormField::Checkbox(c) => Some(c.spec_state().common.validation_state),
        FormField::Radio(r) => Some(r.spec_state().common.validation_state),
        _ => None,
    }
}

/// The identifier of an input.
pub open spec fn input_id(f: FormField) -> Seq<char> {
    match f {
        FormField::TextInput(t) => t.id_view(),
        FormField::Select(s) => s.id_view(),
        FormField::Checkbox(c) => c.spec_id()@,
        FormField::Radio(r) => r.spec_id()@,
        FormField::Button(b) => b.id_view(),
        _ => Seq::empty(),
    }
}

/// The errors recorded after checking a field: an invalid input records
/// its message under its identifier; a group checks its fields.
pub open spec fn field_errors(f: FormField, m: Map<Seq<char>, Seq<char>>) -> Map<Seq<char>, Seq<char>>
    decreases f, 0int,
{
    match f {
        FormField::Group { fields, .. } => fields_errors(fields@, fields@.len() as int, m),
        _ => match input_validation(f) {
            Some(ValidationState::Invalid(msg)) => m.insert(input_id(f), msg@),
            _ => m,
        },
    }
}

/// The errors recorded after checking the first `k` fields, in order.
pub open spec fn fields_errors(s: Seq<FormField>, k: int, m: Map<Seq<char>, Seq<char>>) -> Map<Seq<char>, Seq<char>>
    decreases s, k,
{
    if k <= 0 || k > s.len() {
        m
    } else {
        field_errors(s[k - 1], fields_errors(s, k - 1, m))
    }
}

/// Whether every input of a field is valid.
pub open spec fn field_valid(f: FormField) -> bool
    decreases f, 0int,
{
    match f {
        FormField::Group { fields, .. } => fields_valid(fields@, fields@.len() as int),
        _ => !(input_validation(f) matches Some(ValidationState::Invalid(_))),
    }
}

/// Whether every input among the first `k` fields is valid.
pub open spec fn fields_valid(s: Seq<FormField>, k: int) -> bool
    decreases s, k,
{
    if k <= 0 || k > s.len() {
        true
    } else {
        fields_valid(s, k - 1) && field_valid(s[k - 1])
    }
}

/// Checking a field records no error exactly when every input of it is
/// valid, and never drops an error already recorded.
proof fn lemma_field_errors(f: FormField, m: Map<Seq<char>, Seq<char>>)
    ensures
        field_valid(f) ==> field_errors(f, m) == m,
        !field_valid(f) ==> exists|k: Seq<char>| #[trigger] field_errors(f, m).contains_key(k),
        forall|k: Seq<char>| m.contains_key(k) ==> #[trigger] field_errors(f, m).contains_key(k),
    decreases f, 0int,
{
    match f {
        FormField::Group { fields, .. } => {
            lemma_fields_errors(fields@, fields@.len() as int, m);
            if !field_valid(f) {
                let key = choose|key: Seq<char>| #[trigger] fields_errors(fields@, fields@.len() as int, m).contains_key(key);
                assert(field_errors(f, m).contains_key(key));
            }
        },
        _ => {
            if let Some(ValidationState::Invalid(msg)) = input_validation(f) {
                assert(field_errors(f, m).contains_key(input_id(f)));
            }
        },
    }
}

/// Checking the first `k` fields records no error exactly when every
/// input among them is valid, and never drops an error already recorded.
proof fn lemma_fields_errors(s: Seq<FormField>, k: int, m: Map<Seq<char>, Seq<char>>)
    ensures
        fields_valid(s, k) ==> fields_errors(s, k, m) == m,
        !fields_valid(s, k) ==> exists|key: Seq<char>| #[trigger] fields_errors(s, k, m).contains_key(key),
        forall|key: Seq<char>| m.contains_key(key) ==> #[trigger] fields_errors(s, k, m).contains_key(key),
    decreases s, k,
{
    if k > 0 && k <= s.len() {
        lemma_fields_errors(s, k - 1, m);
        let before = fields_errors(s, k - 1, m);
        lemma_field_errors(s[k - 1], before);
        assert(fields_errors(s, k, m) == field_errors(s[k - 1], before));
        if !fields_valid(s, k - 1) {
            let key = choose|key: Seq<char>| #[trigger] before.contains_key(key);
            assert(fields_errors(s, k, m).contains_key(key));
        } else if !field_valid(s[k - 1]) {
            let key = choose|key: Seq<char>| #[trigger] field_errors(s[k - 1], before).contains_key(key);
            assert(fields_errors(s, k, m).contains_key(key));
        }
    }
}

/// A form's fields are valid exactly when every one of them is: one
/// invalid field makes them invalid, whatever the fields after it.
pub proof fn lemma_valid_iff_every_field(s: Seq<FormField>)
    ensures
        fields_valid(s, s.len() as int) <==> forall|i: int| 0 <= i < s.len() ==> field_valid(#[trigger] s[i]),
{
    lemma_valid_prefix(s, s.len() as int);
}

/// The first `k` fields are valid exactly when each of them is.
proof fn lemma_valid_prefix(s: Seq<FormField>, k: int)
    requires
        0 <= k <= s.len(),
    ensures
        fields_valid(s, k) <==> forall|i: int| 0 <= i < k ==> field_valid(#[trigger] s[i]),
    decreases k,
{
    if k > 0 {
        lemma_valid_prefix(s, k - 1);
    }
}

/// Checking a form's fields gives the verdict valid exactly when it records
/// no error.
pub proof fn lemma_valid_iff_no_errors(s: Seq<FormField>)
    ensures
        fields_valid(s, s.len() as int) <==> fields_errors(s, s.len() as int, Map::empty()) == Map::<Seq<char>, Seq<char>>::empty(),
{
    lemma_fields_errors(s, s.len() as int, Map::empty());
    if !fields_valid(s, s.len() as int) {
        let key = choose|key: Seq<char>| #[trigger] fields_errors(s, s.len() as int, Map::empty()).contains_key(key);
        assert(!Map::<Seq<char>, Seq<char>>::empty().contains_key(key));
    }
}

/// The value an input gives: the text of a text input, the selected values
/// of a select joined by commas, `true` or `false` for a checkbox, the
/// selected value of a radio group or nothing.
pub open spec fn input_value(f: FormField) -> Option<Seq<char>> {
    match f {
        FormField::TextInput(t) => Some(t.text_view()),
        FormField::Select(s) => Some(join_with(s.selection(), ","@)),
        FormField::Checkbox(c) => Some(if c.spec_state().value == CheckboxValue::Checked { "true"@ } else { "false"@ }),
        FormField::Radio(r) => Some(match r.selection() {
            Some(v) => v,
            None => Seq::empty(),
        }),
        _ => None,
    }
}

/// The values collected from a field, by identifier.
pub open spec fn field_values(f: FormField, m: Map<Seq<char>, Seq<char>>) -> Map<Seq<char>, Seq<char>>
    decreases f, 0int,
{
    match f {
        FormField::Group { fields, .. } => fields_values(fields@, fields@.len() as int, m),
        _ => match input_value(f) {
            Some(v) => m.insert(input_id(f), v),
            None => m,
        },
    }
}

/// The values collected from the first `k` fields, in order.
pub open spec fn fields_values(s: Seq<FormField>, k: int, m: Map<Seq<char>, Seq<char>>) -> Map<Seq<char>, Seq<char>>
    decreases s, k,
{
    if k <= 0 || k > s.len() {
        m
    } else {
        field_values(s[k - 1], fields_values(s, k - 1, m))
    }
}

/// The height of a radio group in a form: its options and the border when
/// they go down, one line and the border side by side, its grid rows and
/// the border in a grid (the count of options taken in 16 bits).
pub open spec fn radio_height(p: RadioProps) -> int {
    let n = p.options@.len() as u16;
    match p.layout {
        RadioLayout::Vertical => n + 2,
        RadioLayout::Horizontal => 3,
        RadioLayout::Grid(c) => (n + c - 1) / (c as int) + 2,
    }
}

/// The height of a radio group can be computed in 16 bits.
pub open spec fn radio_height_fits(p: RadioProps) -> bool {
    let n = p.options@.len() as u16;
    match p.layout {
        RadioLayout::Vertical => n + 2 <= u16::MAX,
        RadioLayout::Horizontal => true,
        RadioLayout::Grid(c) => c > 0 && n + c <= u16::MAX && (n + c - 1) / (c as int) + 2 <= u16::MAX,
    }
}

/// The height a field takes: three lines for a text input, a select or a
/// button, one for a checkbox or a separator, a spacer's own height, a
/// radio group's, and for a group the heights of its fields and the border
/// when they go down, five lines otherwise.
pub open spec fn field_height_spec(f: FormField) -> int
    decreases f, 0int,
{
    match f {
        FormField::TextInput(_) => 3,
        FormField::Select(_) => 3,
        FormField::Checkbox(_) => 1,
        FormField::Radio(r) => radio_height(r.spec_props()),
        FormField::Button(_) => 3,
        FormField::Spacer { height } => height as int,
        FormField::Separator { .. } => 1,
        FormField::Group { fields, layout, .. } => if layout == FormLayout::Vertical {
            heights_sum(fields@, fields@.len() as int) + 2
        } else {
            5
        },
    }
}

/// The sum of the heights of the first `k` fields.
pub open spec fn heights_sum(s: Seq<FormField>, k: int) -> int
    decreases s, k,
{
    if k <= 0 || k > s.len() {
        0
    } else {
        heights_sum(s, k - 1) + field_height_spec(s[k - 1])
    }
}

/// The height of a field can be computed in 16 bits.
pub open spec fn field_height_fits(f: FormField) -> bool
    decreases f, 0int,
{
    match f {
        FormField::Radio(r) => radio_height_fits(r.spec_props()),
        FormField::Group { fields, layout, .. } => layout == FormLayout::Vertical ==> heights_fit(
            fields@,
            fields@.len() as int,
        ) && heights_sum(fields@, fields@.len() as int) + 2 <= u16::MAX,
        _ => true,
    }
}

/// The heights of the first `k` fields and their running sums can be
/// computed in 16 bits.
pub open spec fn heights_fit(s: Seq<FormField>, k: int) -> bool
    decreases s, k,
{
    if k <= 0 || k > s.len() {
        true
    } else {
        heights_fit(s, k - 1) && field_height_fits(s[k - 1]) && heights_sum(s, k) <= u16::MAX
    }
}

/// The heights of the fields, in order.
pub open spec fn field_heights(s: Seq<FormField>) -> Seq<u16> {
    Seq::new(s.len(), |i: int| field_height_spec(s[i]) as u16)
}

/// The height of a field.
pub fn field_height(field: &FormField) -> (r: u16)
    requires
        field_height_fits(*field),
    ensures
        r == field_height_spec(*field),
    decreases field,
{
    match field {
        FormField::TextInput(_) => 3,
        FormField::Select(_) => 3,
        FormField::Checkbox(_) => 1,
        FormField::Radio(radio) => {
            let p = radio.props();
            let n: u16 = #[verifier::truncate] (p.options.len() as u16);
            match p.layout {
                RadioLayout::Vertical => n + 2,
                RadioLayout::Horizontal => 3,
                RadioLayout::Grid(c) => (n + c - 1) / c + 2,
            }
        },
        FormField::Button(_) => 3,
        FormField::Spacer { height } => *height,
        FormField::Separator { .. } => 1,
        FormField::Group { fields, layout, .. } => match layout {
            FormLayout::Vertical => {
                assert(decreases_to!(*field => fields@));
                fields_height(fields) + 2
            },
            _ => 5,
        },
    }
}

/// The sum of the heights of the fields.
fn fields_height(fields: &Vec<FormField>) -> (r: u16)
    requires
        heights_fit(fields@, fields@.len() as int),
    ensures
        r == heights_sum(fields@, fields@.len() as int),
    decreases fields@,
{
    let mut total: u16 = 0;
    let mut i: usize = 0;
    while i < fields.len()
        invariant
            i <= fields@.len(),
            heights_fit(fields@, fields@.len() as int),
            total == heights_sum(fields@, i as int),
        decreases fields@.len() - i,
    {
        proof {
            lemma_heights_fit_prefix(fields@, fields@.len() as int, i + 1);
        }
        assert(decreases_to!(fields@ => fields@[i as int]));
        let h = field_height(&fields[i]);
        total = total + h;
        i += 1;
    }
    total
}

proof fn lemma_heights_fit_prefix(s: Seq<FormField>, k: int, j: int)
    requires
        heights_fit(s, k),
        0 < j <= k <= s.len(),
    ensures
        heights_fit(s, j),
        field_height_fits(s[j - 1]),
        heights_sum(s, j) <= u16::MAX,
    decreases k - j,
{
    if j < k {
        lemma_heights_fit_prefix(s, k - 1, j);
    }
}

/// Field `i` of a vertical layout can be placed: when it starts inside the
/// area, its height and its place can be computed in 16 bits.
pub open spec fn stack_field_fits(area: Area, s: Seq<FormField>, i: int) -> bool {
    prefix_sum(field_heights(s), i) < area.height ==> field_height_fits(s[i]) && stack_step_fits(
        area,
        field_heights(s),
        i,
    )
}

/// The fields can be laid out in the area with 16-bit arithmetic.
pub open spec fn fields_fit(area: Area, s: Seq<FormField>, layout: FormLayout) -> bool {
    match layout {
        FormLayout::Vertical => forall|i: int| 0 <= i < s.len() ==> #[trigger] stack_field_fits(area, s, i),
        FormLayout::Horizontal => s.len() == 0 || row_fits(area, s.len()),
        FormLayout::TwoColumn => (forall|i: int| 0 <= i < s.len() ==> #[trigger] field_height_fits(s[i]))
            && two_columns_fit(area, field_heights(s)),
        FormLayout::Grid { columns } => grid_fits(area, s.len(), columns),
    }
}

/// Where the fields are drawn in the area. Going down, each field starts
/// below those before it, is cut at the bottom of the area, and the fields
/// that would start at or below the bottom are left out. Side by side,
/// the fields share the width equally and take the full height. In two
/// columns, the even fields go down the left half and the odd ones down the
/// right half. In a grid, the fields fill the rows, every cell of the same
/// size.
pub fn field_areas(area: Area, fields: &Vec<FormField>, layout: FormLayout) -> (r: Vec<Area>)
    requires
        fields_fit(area, fields@, layout),
    ensures
        ({
            let s = fields@;
            let n = s.len();
            match layout {
                FormLayout::Vertical => {
                    &&& r@.len() <= n
                    &&& forall|i: int| 0 <= i < r@.len() ==> #[trigger] prefix_sum(field_heights(s), i) < area.height
                    &&& forall|i: int| 0 <= i < r@.len() ==> #[trigger] r@[i] == stacked_row(area, field_heights(s), i)
                    &&& r@.len() < n ==> prefix_sum(field_heights(s), r@.len() as int) >= area.height
                },
                FormLayout::Horizontal => r@.len() == n && forall|i: int|
                    0 <= i < n ==> #[trigger] r@[i] == row_cell(area, n, area.height, i),
                FormLayout::TwoColumn => r@.len() == n && forall|i: int|
                    0 <= i < n ==> #[trigger] r@[i] == two_column_cell(area, field_heights(s), i),
                FormLayout::Grid { columns } => r@.len() == n && forall|i: int|
                    0 <= i < n ==> #[trigger] r@[i] == grid_cell(area, n, columns, i),
            }
        }),
{
    match layout {
        FormLayout::Vertical => stack_fields(area, fields),
        FormLayout::Horizontal => {
            if fields.len() == 0 {
                Vec::new()
            } else {
                row_cells(area, fields.len(), area.height)
            }
        },
        FormLayout::TwoColumn => {
            let mut heights: Vec<u16> = Vec::new();
            let mut i: usize = 0;
            while i < fields.len()
                invariant
                    i <= fields@.len(),
                    heights@.len() == i,
                    forall|j: int| 0 <= j < fields@.len() ==> #[trigger] field_height_fits(fields@[j]),
                    forall|j: int| 0 <= j < i ==> #[trigger] heights@[j] == field_heights(fields@)[j],
                decreases fields@.len() - i,
            {
                let h = field_height(&fields[i]);
                heights.push(h);
                i += 1;
            }
            assert(heights@ =~= field_heights(fields@));
            two_column_cells(area, &heights)
        },
        FormLayout::Grid { columns } => grid_cells(area, fields.len(), columns),
    }
}

/// The fields stacked from the top of the area, up to the first that
/// would start at or below its bottom; the heights are computed only for
/// the fields placed.
fn stack_fields(area: Area, fields: &Vec<FormField>) -> (r: Vec<Area>)
    requires
        forall|i: int| 0 <= i < fields@.len() ==> #[trigger] stack_field_fits(area, fields@, i),
    ensures
        r@.len() <= fields@.len(),
        forall|i: int| 0 <= i < r@.len() ==> #[trigger] prefix_sum(field_heights(fields@), i) < area.height,
        forall|i: int| 0 <= i < r@.len() ==> #[trigger] r@[i] == stacked_row(area, field_heights(fields@), i),
        r@.len() < fields@.len() ==> prefix_sum(field_heights(fields@), r@.len() as int) >= area.height,
{
    let ghost hs = field_heights(fields@);
    let mut out: Vec<Area> = Vec::new();
    let mut offset: u16 = 0;
    let mut i: usize = 0;
    while i < fields.len() && offset < area.height
        invariant
            i <= fields@.len(),
            out@.len() == i,
            hs == field_heights(fields@),
            offset == prefix_sum(hs, i as int),
            forall|j: int| 0 <= j < fields@.len() ==> #[trigger] stack_field_fits(area, fields@, j),
            forall|j: int| 0 <= j < i ==> #[trigger] prefix_sum(hs, j) < area.height,
            forall|j: int| 0 <= j < i ==> #[trigger] out@[j] == stacked_row(area, hs, j),
        decreases fields@.len() - i,
    {
        assert(stack_field_fits(area, fields@, i as int));
        let h = field_height(&fields[i]);
        assert(hs[i as int] == h);
        let room = area.height - offset;
        let height = if h < room {
            h
        } else {
            room
        };
        let ghost before = out@;
        out.push(Area { x: area.x, y: area.y + offset, width: area.width, height });
        assert(out@[i as int] == stacked_row(area, hs, i as int));
        assert(forall|j: int| 0 <= j < i ==> out@[j] == before[j]);
        offset = offset + h;
        i += 1;
    }
    out
}

/// The identifier of an input.
fn input_identifier(f: &FormField) -> (r: Option<&ComponentId>)
    ensures
        match f {
            FormField::TextInput(_) | FormField::Select(_) | FormField::Checkbox(_) | FormField::Radio(_)
            | FormField::Button(_) => r matches Some(id) && id@ == input_id(*f),
            _ => r is None,
        },
{
    match f {
        FormField::TextInput(t) => Some(t.id()),
        FormField::Select(s) => Some(s.id()),
        FormField::Checkbox(c) => Some(c.id()),
        FormField::Radio(r) => Some(r.id()),
        FormField::Button(b) => Some(b.id()),
        _ => None,
    }
}

/// The identifiers of the focusable fields, in order.
fn collect_field_ids(fields: &Vec<FormField>, out: &mut Vec<ComponentId>)
    ensures
        ids_view(final(out)@) == ids_view(old(out)@) + fields_ids(fields@, fields@.len() as int),
    decreases fields@,
{
    let ghost start = ids_view(out@);
    let mut i: usize = 0;
    while i < fields.len()
        invariant
            i <= fields@.len(),
            ids_view(out@) == start + fields_ids(fields@, i as int),
        decreases fields@.len() - i,
    {
        let ghost before = ids_view(out@);
        match &fields[i] {
            FormField::Group { fields: inner, .. } => {
                assert(decreases_to!(fields@ => fields@[i as int]));
                collect_field_ids(inner, out);
            },
            other => {
                match input_identifier(other) {
                    Some(id) => {
                        out.push(id.duplicate());
                        assert(ids_view(out@) =~= before.push(id@));
                    },
                    None => {},
                }
            },
        }
        assert(fields_ids(fields@, i + 1) == fields_ids(fields@, i as int) + field_ids(fields@[i as int]));
        assert(ids_view(out@) =~= start + fields_ids(fields@, i + 1));
        i += 1;
    }
}

/// The validation state of an input that validates.
fn input_validation_of(f: &FormField) -> (r: Option<ValidationState>)
    ensures
        r == input_validation(*f),
{
    let vs: &ValidationState = match f {
        FormField::TextInput(t) => &t.state().common.validation_state,
        FormField::Select(s) => &s.state().common.validation_state,
        FormField::Checkbox(c) => &c.state().common.validation_state,
        FormField::Radio(r) => &r.state().common.validation_state,
        _ => {
            return None;
        },
    };
    Some(match vs {
        ValidationState::Valid => ValidationState::Valid,
        ValidationState::Invalid(m) => ValidationState::Invalid(m.clone()),
        ValidationState::Pending => ValidationState::Pending,
    })
}

/// Check the fields, recording the message of each invalid input under its
/// identifier; whether every input is valid.
fn validate_fields(fields: &Vec<FormField>, errors: &mut StringTable) -> (r: bool)
    ensures
        final(errors)@ == fields_errors(fields@, fields@.len() as int, old(errors)@),
        r == fields_valid(fields@, fields@.len() as int),
    decreases fields@,
{
    let ghost start = errors@;
    let mut all_valid = true;
    let mut i: usize = 0;
    while i < fields.len()
        invariant
            i <= fields@.len(),
            errors@ == fields_errors(fields@, i as int, start),
            all_valid == fields_valid(fields@, i as int),
        decreases fields@.len() - i,
    {
        let ghost before = errors@;
        assert(fields_errors(fields@, i + 1, start) == field_errors(fields@[i as int], before));
        assert(fields_valid(fields@, i + 1) == (fields_valid(fields@, i as int) && field_valid(fields@[i as int])));
        match &fields[i] {
            FormField::Group { fields: inner, .. } => {
                assert(decreases_to!(fields@ => fields@[i as int]));
                if !validate_fields(inner, errors) {
                    all_valid = false;
                }
            },
            other => {
                match input_validation_of(other) {
                    Some(ValidationState::Invalid(msg)) => {
                        let id = input_identifier(other).unwrap();
                        errors.insert(id.0.as_str(), msg.as_str());
                        all_valid = false;
                    },
                    _ => {},
                }
            },
        }
        i += 1;
    }
    all_valid
}

/// The value an input gives.
fn input_value_of(f: &FormField) -> (r: Option<String>)
    ensures
        match input_value(*f) {
            Some(v) => r matches Some(x) && x@ == v,
            None => r is None,
        },
{
    match f {
        FormField::TextInput(t) => Some(t.text()),
        FormField::Select(s) => {
            let values = s.selected_values();
            Some(join_strings(&values, ","))
        },
        FormField::Checkbox(c) => Some(if c.to_bool() { "true".to_owned() } else { "false".to_owned() }),
        FormField::Radio(r) => Some(match r.selected_value() {
            Some(v) => v.to_owned(),
            None => String::new(),
        }),
        _ => None,
    }
}

/// Collect the values of the fields, by identifier; a later field with the
/// same identifier wins.
fn collect_values(fields: &Vec<FormField>, values: &mut StringTable)
    ensures
        final(values)@ == fields_values(fields@, fields@.len() as int, old(values)@),
    decreases fields@,
{
    let ghost start = values@;
    let mut i: usize = 0;
    while i < fields.len()
        invariant
            i <= fields@.len(),
            values@ == fields_values(fields@, i as int, start),
        decreases fields@.len() - i,
    {
        let ghost before = values@;
        assert(fields_values(fields@, i + 1, start) == field_values(fields@[i as int], before));
        match &fields[i] {
            FormField::Group { fields: inner, .. } => {
                assert(decreases_to!(fields@ => fields@[i as int]));
                collect_values(inner, values);
            },
            other => {
                match input_value_of(other) {
                    Some(v) => {
                        let id = input_identifier(other).unwrap();
                        values.insert(id.0.as_str(), v.as_str());
                    },
                    None => {},
                }
            },
        }
        i += 1;
    }
}

/// Whether a field is an input with the identifier.
pub open spec fn is_input_with_id(f: FormField, id: Seq<char>) -> bool {
    !(f is Group) && !(f is Spacer) && !(f is Separator) && input_id(f) == id
}

/// The first input with the identifier among the fields.
pub open spec fn first_input_with_id(s: Seq<FormField>, id: Seq<char>) -> Option<FormField>
    decreases s.len(),
{
    if s.len() == 0 {
        None
    } else if is_input_with_id(s[0], id) {
        Some(s[0])
    } else {
        first_input_with_id(s.drop_first(), id)
    }
}

/// The field that a key for the identifier goes to: the first input with
/// it, the top-level fields taken in turn and a group by the inputs
/// directly inside it.
pub open spec fn key_target(fields: Seq<FormField>, id: Seq<char>) -> Option<FormField>
    decreases fields.len(),
{
    if fields.len() == 0 {
        None
    } else {
        let here = match fields[0] {
            FormField::Group { fields: inner, .. } => first_input_with_id(inner@, id),
            f => if is_input_with_id(f, id) { Some(f) } else { None },
        };
        if here is Some {
            here
        } else {
            key_target(fields.drop_first(), id)
        }
    }
}

/// What the events reported by a copy of the input `f` for a key are:
/// those that its own key handling reports. A button at the largest click
/// count reports none, and so does a radio group for a key whose move is
/// undefined for it (see `radio_key_safe`).
pub open spec fn target_key_events(f: FormField, key: KeyEvent, events: Seq<ComponentEvent>) -> bool {
    match f {
        FormField::Checkbox(c) => c.key_events(key, events),
        FormField::Button(b) => if b.state_view().click_count < u32::MAX {
            b.key_events(key, events)
        } else {
            events.len() == 0
        },
        FormField::TextInput(t) => t.key_events(key, events),
        FormField::Select(s) => s.key_events(key, events),
        FormField::Radio(r) => if radio_key_safe(r.spec_props(), r.spec_state(), key) {
            r.key_events(key, events)
        } else {
            events.len() == 0
        },
        _ => true,
    }
}

/// Whether a key is a command to the form itself: Tab moves to the next
/// field, Back-Tab or Shift+Tab to the previous one, Ctrl+Enter submits
/// when the form is so configured, and Ctrl+r resets. Any other key goes to
/// the current field.
pub open spec fn form_command(key: KeyEvent, submit_on_enter: bool) -> bool {
    ||| key.code == KeyCode::Tab && key.modifiers.bits == 0
    ||| key.code == KeyCode::BackTab || (key.code == KeyCode::Tab && key.modifiers.bits == 1)
    ||| key.code == KeyCode::Enter && key.modifiers.bits == 2 && submit_on_enter
    ||| key.code == KeyCode::Char('r') && key.modifiers.bits == 2
}

/// Hand a key to a copy of a leaf field when it has the identifier; the
/// events of the copy, or `None` when the field has another identifier or
/// is not an input.
fn key_to_copy(f: &FormField, target_id: &ComponentId, key: KeyEvent) -> (r: Option<ComponentResult<Vec<ComponentEvent>>>)
    ensures
        r is Some <==> is_input_with_id(*f, target_id@),
        r matches Some(res) ==> (res matches Ok(events) && target_key_events(*f, key, events@)),
{
    match f {
        FormField::TextInput(input) => {
            if input.id().same_as(target_id) {
                let mut copy = input.clone();
                let ghost before = copy;
                let res = copy.handle_key(key);
                proof {
                    TextInput::lemma_key_events_same_views(before, *input, key, res->Ok_0@);
                }
                return Some(res);
            }
        },
        FormField::Select(select) => {
            if select.id().same_as(target_id) {
                let mut copy = select.clone();
                let ghost before = copy;
                let res = copy.handle_key(key);
                proof {
                    lemma_key_events_same_select(before, *select, key, res->Ok_0@);
                }
                return Some(res);
            }
        },
        FormField::Checkbox(checkbox) => {
            if checkbox.id().same_as(target_id) {
                let mut copy = checkbox.clone();
                return Some(Ok(copy.handle_key(key)));
            }
        },
        FormField::Radio(radio) => {
            if radio.id().same_as(target_id) {
                let mut copy = radio.clone();
                let ghost before = copy;
                if copy.can_take_key(key) {
                    let events = copy.handle_key(key);
                    proof {
                        lemma_key_events_same_radio(before, *radio, key, events@);
                    }
                    return Some(Ok(events));
                }
                proof {
                    lemma_key_events_same_radio(before, *radio, key, Seq::empty());
                }
                return Some(Ok(Vec::new()));
            }
        },
        FormField::Button(button) => {
            if button.id().same_as(target_id) {
                let mut copy = button.clone();
                if copy.click_count() < u32::MAX {
                    let res = copy.handle_key(key);
                    return Some(match res {
                        Ok(events) => Ok(events),
                        Err(e) => Ok(Vec::new()),
                    });
                }
                return Some(Ok(Vec::new()));
            }
        },
        _ => {},
    }
    None
}

/// A form.
pub struct Form {
    id: ComponentId,
    props: FormProps,
    state: FormState,
    fields: Vec<FormField>,
}

impl Form {
    pub closed spec fn id_view(&self) -> Seq<char> {
        self.id@
    }

    pub closed spec fn props_view(&self) -> FormProps {
        self.props
    }

    pub closed spec fn fields_view(&self) -> Seq<FormField> {
        self.fields@
    }

    /// The identifiers of the focusable fields, in navigation order.
    pub closed spec fn order_view(&self) -> Seq<Seq<char>> {
        ids_view(self.state.field_order@)
    }

    /// The index of the current field in the navigation order.
    pub closed spec fn index_view(&self) -> usize {
        self.state.current_field_index
    }

    /// The validation errors, by field identifier.
    pub closed spec fn errors_view(&self) -> Map<Seq<char>, Seq<char>> {
        self.state.validation_errors@
    }

    /// The submitted values, by field identifier.
    pub closed spec fn values_view(&self) -> Map<Seq<char>, Seq<char>> {
        self.state.form_values@
    }

    /// The form's own common state.
    pub closed spec fn common_view(&self) -> CommonComponentState {
        self.state.common
    }

    pub closed spec fn submitting_view(&self) -> bool {
        self.state.is_submitting
    }

    pub closed spec fn submitted_view(&self) -> bool {
        self.state.is_submitted
    }

    pub closed spec fn count_view(&self) -> u32 {
        self.state.submission_count
    }

    /// The navigation order is that of the fields.
    pub open spec fn order_current(&self) -> bool {
        self.order_view() == fields_ids(self.fields_view(), self.fields_view().len() as int)
    }

    /// An empty form.
    pub fn new(props: FormProps) -> (r: Self)
        ensures
            r.id_view() == props.id@,
            r.props_view() == props,
            r.fields_view().len() == 0,
            r.order_view().len() == 0,
            r.index_view() == 0,
            r.errors_view() == Map::<Seq<char>, Seq<char>>::empty(),
            r.values_view() == Map::<Seq<char>, Seq<char>>::empty(),
            !r.submitting_view() && !r.submitted_view() && r.count_view() == 0,
    {
        Form { id: props.id.duplicate(), props, state: FormState::default(), fields: Vec::new() }
    }

    /// Set the title.
    pub fn with_title(self, title: &str) -> (r: Self)
        ensures
            r.props_view().title@ == title@,
            r.props_view().layout == self.props_view().layout,
            r.fields_view() == self.fields_view(),
            r.order_view() == self.order_view(),
            r.id_view() == self.id_view(),
    {
        let mut s = self;
        s.props.title = title.to_owned();
        s
    }

    /// Set the description.
    pub fn with_description(self, description: &str) -> (r: Self)
        ensures
            r.props_view().description matches Some(d) && d@ == description@,
            r.props_view().title == self.props_view().title,
            r.fields_view() == self.fields_view(),
            r.order_view() == self.order_view(),
            r.id_view() == self.id_view(),
    {
        let mut s = self;
        s.props.description = Some(description.to_owned());
        s
    }

    /// Set the layout.
    fn with_layout(self, layout: FormLayout) -> (r: Self)
        ensures
            r.props_view() == (FormProps { layout, ..self.props_view() }),
            r.fields_view() == self.fields_view(),
            r.order_view() == self.order_view(),
            r.id_view() == self.id_view(),
    {
        let mut s = self;
        s.props.layout = layout;
        s
    }

    /// Lay the fields out in a column.
    pub fn vertical(self) -> (r: Self)
        ensures
            r.props_view() == (FormProps { layout: FormLayout::Vertical, ..self.props_view() }),
            r.fields_view() == self.fields_view(),
            r.order_view() == self.order_view(),
            r.id_view() == self.id_view(),
    {
        self.with_layout(FormLayout::Vertical)
    }

    /// Lay the fields out in a row.
    pub fn horizontal(self) -> (r: Self)
        ensures
            r.props_view() == (FormProps { layout: FormLayout::Horizontal, ..self.props_view() }),
            r.fields_view() == self.fields_view(),
            r.order_view() == self.order_view(),
            r.id_view() == self.id_view(),
    {
        self.with_layout(FormLayout::Horizontal)
    }

    /// Lay the fields out in two columns.
    pub fn two_column(self) -> (r: Self)
        ensures
            r.props_view() == (FormProps { layout: FormLayout::TwoColumn, ..self.props_view() }),
            r.fields_view() == self.fields_view(),
            r.order_view() == self.order_view(),
            r.id_view() == self.id_view(),
    {
        self.with_layout(FormLayout::TwoColumn)
    }

    /// Lay the fields out in a grid.
    pub fn grid(self, columns: u16) -> (r: Self)
        ensures
            r.props_view() == (FormProps { layout: FormLayout::Grid { columns }, ..self.props_view() }),
            r.fields_view() == self.fields_view(),
            r.order_view() == self.order_view(),
            r.id_view() == self.id_view(),
    {
        self.with_layout(FormLayout::Grid { columns })
    }

    /// Submit on Ctrl+Enter.
    pub fn submit_on_enter(self, submit: bool) -> (r: Self)
        ensures
            r.props_view() == (FormProps { submit_on_enter: submit, ..self.props_view() }),
            r.fields_view() == self.fields_view(),
            r.order_view() == self.order_view(),
            r.id_view() == self.id_view(),
    {
        let mut s = self;
        s.props.submit_on_enter = submit;
        s
    }

    /// Reset after a submission.
    pub fn reset_on_submit(self, reset: bool) -> (r: Self)
        ensures
            r.props_view() == (FormProps { reset_on_submit: reset, ..self.props_view() }),
            r.fields_view() == self.fields_view(),
            r.order_view() == self.order_view(),
            r.id_view() == self.id_view(),
    {
        let mut s = self;
        s.props.reset_on_submit = reset;
        s
    }

    /// Go to the first field on focus and reset.
    pub fn auto_focus_first(self, auto_focus: bool) -> (r: Self)
        ensures
            r.props_view() == (FormProps { auto_focus_first: auto_focus, ..self.props_view() }),
            r.fields_view() == self.fields_view(),
            r.order_view() == self.order_view(),
            r.id_view() == self.id_view(),
    {
        let mut s = self;
        s.props.auto_focus_first = auto_focus;
        s
    }

    /// Recompute the navigation order from the fields.
    fn update_field_order(&mut self)
        ensures
            final(self).order_current(),
            final(self).fields_view() == old(self).fields_view(),
            final(self).props_view() == old(self).props_view(),
            final(self).id_view() == old(self).id_view(),
            final(self).index_view() == old(self).index_view(),
    {
        let mut order: Vec<ComponentId> = Vec::new();
        collect_field_ids(&self.fields, &mut order);
        assert(ids_view(order@) =~= fields_ids(self.fields@, self.fields@.len() as int));
        self.state.field_order = order;
    }

    /// Add a field at the end and recompute the navigation order.
    fn push_field(self, field: FormField) -> (r: Self)
        ensures
            r.fields_view() == self.fields_view().push(field),
            r.order_current(),
            r.props_view() == self.props_view(),
            r.id_view() == self.id_view(),
    {
        let mut s = self;
        s.fields.push(field);
        s.update_field_order();
        s
    }

    /// Add a text input.
    pub fn add_text_input(self, props: TextInputProps) -> (r: Self)
        ensures
            r.fields_view().len() == self.fields_view().len() + 1,
            r.fields_view().last() is TextInput,
            r.order_current(),
            r.props_view() == self.props_view(),
    {
        self.push_field(FormField::TextInput(TextInput::new(props)))
    }

    /// Add a select field.
    pub fn add_select(self, props: SelectProps) -> (r: Self)
        ensures
            r.fields_view().len() == self.fields_view().len() + 1,
            r.fields_view().last() is Select,
            r.order_current(),
            r.props_view() == self.props_view(),
    {
        self.push_field(FormField::Select(Select::new(props)))
    }

    /// Add a checkbox.
    pub fn add_checkbox(self, props: CheckboxProps) -> (r: Self)
        ensures
            r.fields_view().len() == self.fields_view().len() + 1,
            r.fields_view().last() is Checkbox,
            r.order_current(),
            r.props_view() == self.props_view(),
    {
        self.push_field(FormField::Checkbox(Checkbox::new(props)))
    }

    /// Add a radio group.
    pub fn add_radio(self, props: RadioProps) -> (r: Self)
        ensures
            r.fields_view().len() == self.fields_view().len() + 1,
            r.fields_view().last() is Radio,
            r.order_current(),
            r.props_view() == self.props_view(),
    {
        self.push_field(FormField::Radio(Radio::new(props)))
    }

    /// Add a button.
    pub fn add_button(self, props: ButtonProps) -> (r: Self)
        ensures
            r.fields_view().len() == self.fields_view().len() + 1,
            r.fields_view().last() is Button,
            r.order_current(),
            r.props_view() == self.props_view(),
    {
        self.push_field(FormField::Button(Button::new(props)))
    }

    /// Add a spacer; the navigation order is not recomputed.
    pub fn add_spacer(self, height: u16) -> (r: Self)
        ensures
            r.fields_view() == self.fields_view().push(FormField::Spacer { height }),
            r.order_view() == self.order_view(),
            r.props_view() == self.props_view(),
    {
        let mut s = self;
        s.fields.push(FormField::Spacer { height });
        s
    }

    /// Add a separator; the navigation order is not recomputed.
    pub fn add_separator(self, title: Option<String>) -> (r: Self)
        ensures
            r.fields_view() == self.fields_view().push(FormField::Separator { title }),
            r.order_view() == self.order_view(),
            r.props_view() == self.props_view(),
    {
        let mut s = self;
        s.fields.push(FormField::Separator { title });
        s
    }

    /// Add a group of fields.
    pub fn add_group(self, title: &str, fields: Vec<FormField>, layout: FormLayout) -> (r: Self)
        ensures
            r.fields_view().len() == self.fields_view().len() + 1,
            r.fields_view().last() matches FormField::Group { title: t, fields: f, layout: l }
                && t@ == title@ && f == fields && l == layout,
            r.order_current(),
            r.props_view() == self.props_view(),
    {
        self.push_field(FormField::Group { title: title.to_owned(), fields, layout })
    }

    /// Go to the next field, if there is one.
    pub fn next_field(&mut self) -> (r: bool)
        ensures
            final(self).id_view() == old(self).id_view(),
            r == (old(self).index_view() + 1 < old(self).order_view().len()),
            final(self).index_view() == (if r { old(self).index_view() + 1 } else { old(self).index_view() as int }),
            final(self).fields_view() == old(self).fields_view(),
            final(self).order_view() == old(self).order_view(),
            final(self).props_view() == old(self).props_view(),
            final(self).errors_view() == old(self).errors_view(),
    {
        let n = self.state.field_order.len();
        let last = if n > 0 { n - 1 } else { 0 };
        if self.state.current_field_index < last {
            self.state.current_field_index += 1;
            true
        } else {
            false
        }
    }

    /// Go to the previous field, if there is one.
    pub fn previous_field(&mut self) -> (r: bool)
        ensures
            final(self).id_view() == old(self).id_view(),
            r == (old(self).index_view() > 0),
            final(self).index_view() == (if r { old(self).index_view() - 1 } else { old(self).index_view() as int }),
            final(self).fields_view() == old(self).fields_view(),
            final(self).order_view() == old(self).order_view(),
            final(self).props_view() == old(self).props_view(),
            final(self).errors_view() == old(self).errors_view(),
    {
        if self.state.current_field_index > 0 {
            self.state.current_field_index -= 1;
            true
        } else {
            false
        }
    }

    /// The values of the inputs, by identifier.
    pub fn get_values(&self) -> (r: StringTable)
        ensures
            r@ == fields_values(self.fields_view(), self.fields_view().len() as int, Map::empty()),
    {
        let mut values = StringTable::new();
        collect_values(&self.fields, &mut values);
        values
    }

    /// Validate every input; the errors are recorded by identifier and the
    /// form's validation state set.
    pub fn validate(&mut self) -> (r: bool)
        ensures
            final(self).errors_view() == fields_errors(old(self).fields_view(), old(self).fields_view().len() as int, Map::empty()),
            r == fields_valid(old(self).fields_view(), old(self).fields_view().len() as int),
            r ==> final(self).common_view().validation_state == ValidationState::Valid,
            !r ==> (final(self).common_view().validation_state matches ValidationState::Invalid(m)
                && m@ == "Form has validation errors"@),
            final(self).fields_view() == old(self).fields_view(),
            final(self).order_view() == old(self).order_view(),
            final(self).index_view() == old(self).index_view(),
            final(self).props_view() == old(self).props_view(),
            final(self).id_view() == old(self).id_view(),
            final(self).values_view() == old(self).values_view(),
            final(self).submitting_view() == old(self).submitting_view(),
            final(self).submitted_view() == old(self).submitted_view(),
            final(self).count_view() == old(self).count_view(),
            final(self).common_view().focus_state == old(self).common_view().focus_state,
    {
        self.state.validation_errors.clear();
        assert(self.state.validation_errors@ =~= Map::<Seq<char>, Seq<char>>::empty());
        let is_valid = validate_fields(&self.fields, &mut self.state.validation_errors);
        if is_valid {
            self.state.common.validation_state = ValidationState::Valid;
        } else {
            self.state.common.validation_state = ValidationState::Invalid("Form has validation errors".to_owned());
        }
        is_valid
    }

    /// Reset the form: its errors and submission flag are cleared, its
    /// validation is valid again, and the first field becomes current when
    /// the form focuses its first field. The fields keep their values.
    pub fn reset(&mut self)
        ensures
            final(self).id_view() == old(self).id_view(),
            final(self).errors_view() == Map::<Seq<char>, Seq<char>>::empty(),
            !final(self).submitted_view(),
            final(self).common_view().validation_state == ValidationState::Valid,
            final(self).index_view() == (if old(self).props_view().auto_focus_first { 0 } else { old(self).index_view() }),
            final(self).fields_view() == old(self).fields_view(),
            final(self).order_view() == old(self).order_view(),
            final(self).props_view() == old(self).props_view(),
            final(self).values_view() == old(self).values_view(),
            final(self).submitting_view() == old(self).submitting_view(),
            final(self).count_view() == old(self).count_view(),
            final(self).common_view().focus_state == old(self).common_view().focus_state,
    {
        self.state.validation_errors.clear();
        self.state.is_submitted = false;
        self.state.common.validation_state = ValidationState::Valid;
        if self.props.auto_focus_first {
            self.state.current_field_index = 0;
        }
    }

    /// Submit the form: refused while a submission runs; otherwise the form
    /// is validated and, when valid, its values are kept, it counts as
    /// submitted, and it is reset when so configured.
    pub fn submit(&mut self) -> (r: bool)
        requires
            old(self).count_view() < u32::MAX,
        ensures
            old(self).submitting_view() ==> !r && final(self).count_view() == old(self).count_view()
                && final(self).errors_view() == old(self).errors_view(),
            !old(self).submitting_view() ==> {
                let valid = fields_valid(old(self).fields_view(), old(self).fields_view().len() as int);
                &&& r == valid
                &&& !final(self).submitting_view()
                &&& valid ==> {
                    &&& final(self).values_view() == fields_values(old(self).fields_view(), old(self).fields_view().len() as int, Map::empty())
                    &&& final(self).count_view() == old(self).count_view() + 1
                    &&& final(self).submitted_view() == !old(self).props_view().reset_on_submit
                    &&& old(self).props_view().reset_on_submit ==> final(self).errors_view() == Map::<Seq<char>, Seq<char>>::empty()
                }
                &&& !valid ==> {
                    &&& final(self).count_view() == old(self).count_view()
                    &&& final(self).errors_view() == fields_errors(old(self).fields_view(), old(self).fields_view().len() as int, Map::empty())
                    &&& final(self).submitted_view() == old(self).submitted_view()
                }
            },
            final(self).fields_view() == old(self).fields_view(),
            final(self).order_view() == old(self).order_view(),
            final(self).props_view() == old(self).props_view(),
            final(self).id_view() == old(self).id_view(),
            final(self).common_view().focus_state == old(self).common_view().focus_state,
    {
        if self.state.is_submitting {
            return false;
        }
        self.state.is_submitting = true;
        if self.validate() {
            self.state.form_values = self.get_values();
            self.state.is_submitted = true;
            self.state.submission_count = self.state.submission_count + 1;
            if self.props.reset_on_submit {
                self.reset();
            }
            self.state.is_submitting = false;
            true
        } else {
            self.state.is_submitting = false;
            false
        }
    }

    /// Whether the form is valid: its validation state is valid and no
    /// field has an error.
    pub fn is_valid(&self) -> (r: bool)
        ensures
            r == (self.common_view().validation_state is Valid && self.errors_view().len() == 0),
    {
        let valid = match self.state.common.validation_state {
            ValidationState::Valid => true,
            _ => false,
        };
        valid && self.state.validation_errors.len() == 0
    }

    /// Whether the form has been submitted.
    pub fn is_submitted(&self) -> (r: bool)
        ensures
            r == self.submitted_view(),
    {
        self.state.is_submitted
    }

    /// Whether a submission is running.
    pub fn is_submitting(&self) -> (r: bool)
        ensures
            r == self.submitting_view(),
    {
        self.state.is_submitting
    }

    /// The validation errors, by identifier.
    pub fn validation_errors(&self) -> (r: &StringTable)
        ensures
            r@ == self.errors_view(),
    {
        &self.state.validation_errors
    }

    /// The number of submissions.
    pub fn submission_count(&self) -> (r: u32)
        ensures
            r == self.count_view(),
    {
        self.state.submission_count
    }

    /// The identifier.
    pub fn id(&self) -> (r: &ComponentId)
        ensures
            r@ == self.id_view(),
    {
        &self.id
    }

    /// The fields.
    pub fn fields(&self) -> (r: &Vec<FormField>)
        ensures
            r@ == self.fields_view(),
    {
        &self.fields
    }

    /// The configuration.
    pub fn props(&self) -> (r: &FormProps)
        ensures
            *r == self.props_view(),
    {
        &self.props
    }

    /// Hand a key to a copy of the field with the identifier: a top-level
    /// input, or an input directly inside a top-level group. The events of
    /// the copy are returned; the fields stay as they are.
    pub fn handle_field_key(&self, target_id: &ComponentId, key: KeyEvent) -> (r: ComponentResult<Vec<ComponentEvent>>)
        ensures
            r is Ok,
            key_target(self.fields_view(), target_id@) is None ==> (r matches Ok(events) && events@.len() == 0),
            key_target(self.fields_view(), target_id@) matches Some(f)
                ==> (r matches Ok(events) && target_key_events(f, key, events@)),
    {
        let ghost id = target_id@;
        let ghost all = self.fields@;
        assert(all.subrange(0, all.len() as int) =~= all);
        let mut i: usize = 0;
        while i < self.fields.len()
            invariant
                i <= self.fields@.len(),
                all == self.fields@,
                id == target_id@,
                key_target(all, id) == key_target(all.subrange(i as int, all.len() as int), id),
            decreases self.fields@.len() - i,
        {
            let ghost rest = all.subrange(i as int, all.len() as int);
            assert(rest[0] == all[i as int]);
            assert(rest.drop_first() =~= all.subrange(i + 1, all.len() as int));
            match &self.fields[i] {
                FormField::Group { fields: inner, .. } => {
                    let ghost members = inner@;
                    assert(members.subrange(0, members.len() as int) =~= members);
                    let mut j: usize = 0;
                    while j < inner.len()
                        invariant
                            j <= inner@.len(),
                            members == inner@,
                            id == target_id@,
                            i < all.len(),
                            all == self.fields@,
                            rest == all.subrange(i as int, all.len() as int),
                            rest.len() > 0 && rest[0] == all[i as int],
                            all[i as int] is Group && all[i as int]->Group_fields@ == members,
                            key_target(all, id) == key_target(rest, id),
                            first_input_with_id(members, id)
                                == first_input_with_id(members.subrange(j as int, members.len() as int), id),
                        decreases inner@.len() - j,
                    {
                        let ghost tail = members.subrange(j as int, members.len() as int);
                        assert(tail[0] == members[j as int]);
                        assert(tail.drop_first() =~= members.subrange(j + 1, members.len() as int));
                        match key_to_copy(&inner[j], target_id, key) {
                            Some(res) => {
                                assert(first_input_with_id(members, id) == Some(members[j as int]));
                                assert(key_target(rest, id) == Some(members[j as int]));
                                return res;
                            },
                            None => {},
                        }
                        j += 1;
                    }
                    assert(members.subrange(j as int, members.len() as int).len() == 0);
                },
                other => {
                    match key_to_copy(other, target_id, key) {
                        Some(res) => {
                            assert(key_target(rest, id) == Some(all[i as int]));
                            return res;
                        },
                        None => {},
                    }
                },
            }
            i += 1;
        }
        Ok(Vec::new())
    }

    /// Handle a key. Tab goes to the next field and Back-Tab or Shift+Tab
    /// to the previous one, each reporting the move when it is made;
    /// Ctrl+Enter submits when so configured, reporting a successful
    /// submission; Ctrl+r resets and reports it; any other key goes to the
    /// current field.
    pub fn handle_key(&mut self, key: KeyEvent) -> (r: ComponentResult<Vec<ComponentEvent>>)
        requires
            old(self).count_view() < u32::MAX,
        ensures
            r is Ok,
            final(self).fields_view() == old(self).fields_view(),
            final(self).order_view() == old(self).order_view(),
            final(self).props_view() == old(self).props_view(),
            final(self).id_view() == old(self).id_view(),
            key.code == KeyCode::Tab && key.modifiers.bits == 0 ==> {
                let moved = old(self).index_view() + 1 < old(self).order_view().len();
                &&& final(self).index_view() == (if moved { old(self).index_view() + 1 } else { old(self).index_view() as int })
                &&& moved ==> (r matches Ok(events) && events@.len() == 1
                    && (events@[0] matches ComponentEvent::NavigationRequested { component_id, direction }
                        && component_id@ == old(self).id_view() && direction == NavigationDirection::Next))
                &&& !moved ==> (r matches Ok(events) && events@.len() == 0)
            },
            key.code == KeyCode::BackTab || (key.code == KeyCode::Tab && key.modifiers.bits == 1) ==> {
                let moved = old(self).index_view() > 0;
                &&& final(self).index_view() == (if moved { old(self).index_view() - 1 } else { old(self).index_view() as int })
                &&& moved ==> (r matches Ok(events) && events@.len() == 1
                    && (events@[0] matches ComponentEvent::NavigationRequested { component_id, direction }
                        && component_id@ == old(self).id_view() && direction == NavigationDirection::Previous))
                &&& !moved ==> (r matches Ok(events) && events@.len() == 0)
            },
            key.code == KeyCode::Char('r') && key.modifiers.bits == 2 ==> {
                &&& final(self).errors_view() == Map::<Seq<char>, Seq<char>>::empty()
                &&& !final(self).submitted_view()
                &&& r matches Ok(events) && events@.len() == 1
                    && (events@[0] matches ComponentEvent::ValueChanged { component_id, old_value, new_value }
                        && component_id@ == old(self).id_view() && old_value@ == "submitted"@ && new_value@ == "reset"@)
            },
            key.code == KeyCode::Enter && key.modifiers.bits == 2 && old(self).props_view().submit_on_enter ==> {
                let valid = fields_valid(old(self).fields_view(), old(self).fields_view().len() as int);
                let taken = !old(self).submitting_view() && valid;
                &&& taken ==> (r matches Ok(events) && events@.len() == 1
                    && (events@[0] matches ComponentEvent::Activated { component_id } && component_id@ == old(self).id_view()))
                &&& !taken ==> (r matches Ok(events) && events@.len() == 0)
            },
            !form_command(key, old(self).props_view().submit_on_enter) ==> {
                let idx = old(self).index_view();
                let order = old(self).order_view();
                let target = if idx < order.len() { key_target(old(self).fields_view(), order[idx as int]) } else { None };
                &&& target matches Some(f) ==> (r matches Ok(events) && target_key_events(f, key, events@))
                &&& target is None ==> (r matches Ok(events) && events@.len() == 0)
            },
    {
        let mut events: Vec<ComponentEvent> = Vec::new();
        let bits = key.modifiers.bits;
        let is_tab = match key.code {
            KeyCode::Tab => true,
            _ => false,
        };
        let is_back_tab = match key.code {
            KeyCode::BackTab => true,
            _ => false,
        };
        let is_enter = match key.code {
            KeyCode::Enter => true,
            _ => false,
        };
        let is_r = match key.code {
            KeyCode::Char('r') => true,
            _ => false,
        };
        if is_tab && bits == 0 {
            if self.next_field() {
                events.push(ComponentEvent::NavigationRequested {
                    component_id: self.id.duplicate(),
                    direction: NavigationDirection::Next,
                });
            }
        } else if is_back_tab || (is_tab && bits == 1) {
            if self.previous_field() {
                events.push(ComponentEvent::NavigationRequested {
                    component_id: self.id.duplicate(),
                    direction: NavigationDirection::Previous,
                });
            }
        } else if is_enter && bits == 2 && self.props.submit_on_enter {
            if self.submit() {
                events.push(ComponentEvent::Activated { component_id: self.id.duplicate() });
            }
        } else if is_r && bits == 2 {
            self.reset();
            events.push(ComponentEvent::ValueChanged {
                component_id: self.id.duplicate(),
                old_value: "submitted".to_owned(),
                new_value: "reset".to_owned(),
            });
        } else {
            let idx = self.state.current_field_index;
            if idx < self.state.field_order.len() {
                let current_id = self.state.field_order[idx].duplicate();
                match self.handle_field_key(&current_id, key) {
                    Ok(field_events) => {
                        events = field_events;
                    },
                    Err(e) => {},
                }
            }
        }
        Ok(events)
    }

    /// Focus events for this form set its focus; gaining it also makes the
    /// first field current when the form focuses its first field and has
    /// fields.
    pub fn handle_event(&mut self, event: &ComponentEvent) -> (r: ComponentResult<Vec<ComponentEvent>>)
        ensures
            r matches Ok(events) && events@.len() == 0,
            final(self).fields_view() == old(self).fields_view(),
            final(self).order_view() == old(self).order_view(),
            final(self).props_view() == old(self).props_view(),
            match event {
                ComponentEvent::FocusGained { component_id } if component_id@ == old(self).id_view() => {
                    &&& final(self).common_view().focus_state == FocusState::Focused
                    &&& final(self).index_view() == (if old(self).props_view().auto_focus_first && old(self).order_view().len() > 0 {
                        0
                    } else {
                        old(self).index_view()
                    })
                },
                ComponentEvent::FocusLost { component_id } if component_id@ == old(self).id_view() =>
                    final(self).common_view().focus_state == FocusState::Unfocused
                    && final(self).index_view() == old(self).index_view(),
                _ => final(self).common_view() == old(self).common_view() && final(self).index_view() == old(self).index_view(),
            },
    {
        match event {
            ComponentEvent::FocusGained { component_id } => {
                if component_id.same_as(&self.id) {
                    self.state.common.focus_state = FocusState::Focused;
                    if self.props.auto_focus_first && self.state.field_order.len() > 0 {
                        self.state.current_field_index = 0;
                    }
                }
            },
            ComponentEvent::FocusLost { component_id } => {
                if component_id.same_as(&self.id) {
                    self.state.common.focus_state = FocusState::Unfocused;
                }
            },
            _ => {},
        }
        Ok(Vec::new())
    }

    /// The form's validation state.
    pub fn validation_state(&self) -> (r: ValidationState)
        ensures
            r == self.common_view().validation_state,
    {
        match &self.state.common.validation_state {
            ValidationState::Valid => ValidationState::Valid,
            ValidationState::Invalid(m) => ValidationState::Invalid(m.clone()),
            ValidationState::Pending => ValidationState::Pending,
        }
    }

    /// The title shown on the border: empty without a title, else the
    /// title and, while submitting, a note.
    pub fn title_text(&self) -> (r: String)
        ensures
            self.props_view().title@.len() == 0 ==> r@.len() == 0,
            self.props_view().title@.len() > 0 ==> r@ == self.props_view().title@ + " "@
                + (if self.submitting_view() { "(Submitting...)"@ } else { Seq::empty() }),
    {
        if self.props.title.as_str().is_empty() {
            return String::new();
        }
        let mut t = self.props.title.clone();
        t.append(" ");
        if self.state.is_submitting {
            t.append("(Submitting...)");
        }
        t
    }

    /// The summary of the validation errors, when it is shown and there are
    /// errors.
    pub fn validation_summary(&self) -> (r: Option<String>)
        ensures
            (self.props_view().show_validation_summary && self.errors_view().len() > 0) ==> (r matches Some(s)
                && s@ == "⚠️ "@ + decimal(self.errors_view().len()) + " validation error"@
                    + (if self.errors_view().len() > 1 { "s"@ } else { Seq::empty() })),
            !(self.props_view().show_validation_summary && self.errors_view().len() > 0) ==> r is None,
    {
        let n = self.state.validation_errors.len();
        if !self.props.show_validation_summary || n == 0 {
            return None;
        }
        let mut s = "⚠️ ".to_owned();
        let count = decimal_text(n as u64);
        s.append(count.as_str());
        s.append(" validation error");
        if n > 1 {
            s.append("s");
        }
        Some(s)
    }

    /// Whether the validation summary is shown: it is asked for and there
    /// are errors.
    pub open spec fn shows_summary(&self) -> bool {
        self.props_view().show_validation_summary && self.errors_view().len() > 0
    }

    /// The lines above the fields: two for the description, if any, and
    /// two for the validation summary when it is shown.
    pub open spec fn header_lines(&self) -> int {
        (if self.props_view().description is Some { 2int } else { 0int }) + (if self.shows_summary() {
            2int
        } else {
            0int
        })
    }

    /// Where the form draws inside its border: the description, if any, on
    /// two lines at the top; the validation summary, when shown, on the
    /// line after it; the fields below them, in what remains of the height.
    pub fn body_areas(&self, inner: Area) -> (r: (Option<Area>, Option<Area>, Area))
        requires
            inner.y + self.header_lines() <= u16::MAX,
        ensures
            r.0 == (if self.props_view().description is Some {
                Some(Area { x: inner.x, y: inner.y, width: inner.width, height: 2 })
            } else {
                None
            }),
            r.1 == (if self.shows_summary() {
                Some(
                    Area {
                        x: inner.x,
                        y: (inner.y + (if self.props_view().description is Some { 2int } else { 0int })) as u16,
                        width: inner.width,
                        height: 1,
                    },
                )
            } else {
                None
            }),
            r.2 == (Area {
                x: inner.x,
                y: (inner.y + self.header_lines()) as u16,
                width: inner.width,
                height: (if inner.height >= self.header_lines() {
                    inner.height - self.header_lines()
                } else {
                    0int
                }) as u16,
            }),
    {
        let mut offset: u16 = 0;
        let description = if self.props.description.is_some() {
            offset = 2;
            Some(Area { x: inner.x, y: inner.y, width: inner.width, height: 2 })
        } else {
            None
        };
        let summary = if self.props.show_validation_summary && self.state.validation_errors.len() > 0 {
            let a = Area { x: inner.x, y: inner.y + offset, width: inner.width, height: 1 };
            offset = offset + 2;
            Some(a)
        } else {
            None
        };
        let content = Area {
            x: inner.x,
            y: inner.y + offset,
            width: inner.width,
            height: inner.height.saturating_sub(offset),
        };
        (description, summary, content)
    }
}

/// Builder for forms with a fluent interface.
pub struct FormBuilder {
    props: FormProps,
    fields: Vec<FormField>,
}

impl FormBuilder {
    pub closed spec fn props_view(&self) -> FormProps {
        self.props
    }

    pub closed spec fn fields_view(&self) -> Seq<FormField> {
        self.fields@
    }

    /// A builder for a form with the identifier.
    pub fn new(id: &str) -> (r: Self)
        ensures
            r.props_view().id@ == id@,
            r.props_view().title@.len() == 0,
            r.props_view().layout == FormLayout::Vertical,
            r.props_view().submit_on_enter,
            r.fields_view().len() == 0,
    {
        let mut props = FormProps::default();
        props.id = ComponentId::new(id);
        FormBuilder { props, fields: Vec::new() }
    }

    /// Set the title.
    pub fn title(self, title: &str) -> (r: Self)
        ensures
            r.props_view().title@ == title@,
            r.props_view().id == self.props_view().id,
            r.props_view().layout == self.props_view().layout,
            r.fields_view() == self.fields_view(),
    {
        let mut s = self;
        s.props.title = title.to_owned();
        s
    }

    /// Set the description.
    pub fn description(self, description: &str) -> (r: Self)
        ensures
            r.props_view().description matches Some(d) && d@ == description@,
            r.props_view().id == self.props_view().id,
            r.fields_view() == self.fields_view(),
    {
        let mut s = self;
        s.props.description = Some(description.to_owned());
        s
    }

    fn layout(self, layout: FormLayout) -> (r: Self)
        ensures
            r.props_view() == (FormProps { layout, ..self.props_view() }),
            r.fields_view() == self.fields_view(),
    {
        let mut s = self;
        s.props.layout = layout;
        s
    }

    /// Lay the fields out in a column.
    pub fn vertical(self) -> (r: Self)
        ensures
            r.props_view() == (FormProps { layout: FormLayout::Vertical, ..self.props_view() }),
            r.fields_view() == self.fields_view(),
    {
        self.layout(FormLayout::Vertical)
    }

    /// Lay the fields out in a row.
    pub fn horizontal(self) -> (r: Self)
        ensures
            r.props_view() == (FormProps { layout: FormLayout::Horizontal, ..self.props_view() }),
            r.fields_view() == self.fields_view(),
    {
        self.layout(FormLayout::Horizontal)
    }

    /// Lay the fields out in two columns.
    pub fn two_column(self) -> (r: Self)
        ensures
            r.props_view() == (FormProps { layout: FormLayout::TwoColumn, ..self.props_view() }),
            r.fields_view() == self.fields_view(),
    {
        self.layout(FormLayout::TwoColumn)
    }

    /// Lay the fields out in a grid.
    pub fn grid(self, columns: u16) -> (r: Self)
        ensures
            r.props_view() == (FormProps { layout: FormLayout::Grid { columns }, ..self.props_view() }),
            r.fields_view() == self.fields_view(),
    {
        self.layout(FormLayout::Grid { columns })
    }

    /// Add a text input with an identifier and a label.
    pub fn text_input(self, id: &str, label: &str) -> (r: Self)
        ensures
            r.fields_view().len() == self.fields_view().len() + 1,
            r.fields_view().last() matches FormField::TextInput(t) && t.id_view() == id@
                && t.props_view().title@ == label@,
            r.props_view() == self.props_view(),
    {
        let mut props = TextInputProps::default();
        props.id = ComponentId::new(id);
        props.title = label.to_owned();
        let mut s = self;
        s.fields.push(FormField::TextInput(TextInput::new(props)));
        s
    }

    /// Add a select field with an identifier and a label.
    pub fn select(self, id: &str, label: &str) -> (r: Self)
        ensures
            r.fields_view().len() == self.fields_view().len() + 1,
            r.fields_view().last() matches FormField::Select(x) && x.id_view() == id@
                && x.props_view().title@ == label@,
            r.props_view() == self.props_view(),
    {
        let mut props = SelectProps::default();
        props.id = ComponentId::new(id);
        props.title = label.to_owned();
        let mut s = self;
        s.fields.push(FormField::Select(Select::new(props)));
        s
    }

    /// Add a checkbox with an identifier and a label.
    pub fn checkbox(self, id: &str, label: &str) -> (r: Self)
        ensures
            r.fields_view().len() == self.fields_view().len() + 1,
            r.fields_view().last() matches FormField::Checkbox(c) && c.spec_id()@ == id@
                && c.spec_props().label@ == label@,
            r.props_view() == self.props_view(),
    {
        let mut props = CheckboxProps::default();
        props.id = ComponentId::new(id);
        props.label = label.to_owned();
        let mut s = self;
        s.fields.push(FormField::Checkbox(Checkbox::new(props)));
        s
    }

    /// Add a primary submit button, identified `submit`.
    pub fn submit_button(self, text: &str) -> (r: Self)
        ensures
            r.fields_view().len() == self.fields_view().len() + 1,
            r.fields_view().last() matches FormField::Button(b) && b.id_view() == "submit"@
                && b.props_view().text@ == text@ && b.props_view().variant == ButtonVariant::Primary,
            r.props_view() == self.props_view(),
    {
        let mut props = ButtonProps::default();
        props.id = ComponentId::new("submit");
        props.text = text.to_owned();
        props.variant = ButtonVariant::Primary;
        let mut s = self;
        s.fields.push(FormField::Button(Button::new(props)));
        s
    }

    /// Add a spacer.
    pub fn spacer(self, height: u16) -> (r: Self)
        ensures
            r.fields_view() == self.fields_view().push(FormField::Spacer { height }),
            r.props_view() == self.props_view(),
    {
        let mut s = self;
        s.fields.push(FormField::Spacer { height });
        s
    }

    /// Add a separator with an optional title.
    pub fn separator(self, title: Option<&str>) -> (r: Self)
        ensures
            r.fields_view().len() == self.fields_view().len() + 1,
            r.fields_view().last() matches FormField::Separator { title: t } && match title {
                Some(x) => t matches Some(y) && y@ == x@,
                None => t is None,
            },
            r.props_view() == self.props_view(),
    {
        let t = match title {
            Some(x) => Some(x.to_owned()),
            None => None,
        };
        let mut s = self;
        s.fields.push(FormField::Separator { title: t });
        s
    }

    /// The form with the configuration and fields, in navigation order.
    pub fn build(self) -> (r: Form)
        ensures
            r.props_view() == self.props_view(),
            r.id_view() == self.props_view().id@,
            r.fields_view() == self.fields_view(),
            r.order_current(),
            r.index_view() == 0,
    {
        let mut form = Form::new(self.props);
        form.fields = self.fields;
        form.update_field_order();
        form
    }
}

} // verus!
