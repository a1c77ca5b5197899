use semantic_release_tui::checkbox::{Checkbox, CheckboxProps};
use semantic_release_tui::form::{field_areas, field_height, FormBuilder, FormField, FormLayout};
use semantic_release_tui::placement::{grid_cells, grid_lines, line_cells, row_cells, two_column_cells, Area};
use semantic_release_tui::radio::{Radio, RadioOption, RadioProps};
use semantic_release_tui::text_input::{TextInput, TextInputProps};

fn area(x: u16, y: u16, width: u16, height: u16) -> Area {
    Area { x, y, width, height }
}

fn radio_with(n: usize) -> Radio {
    let mut options = Vec::new();
    for i in 0..n {
        options.push(RadioOption::new(&format!("v{}", i), &format!("Option {}", i)));
    }
    Radio::new(RadioProps::default()).with_options(options)
}

#[test]
fn equal_columns_share_the_width() {
    let cells = row_cells(area(2, 3, 10, 4), 3, 4);
    assert_eq!(cells, vec![area(2, 3, 3, 4), area(5, 3, 3, 4), area(8, 3, 3, 4)]);
}

#[test]
fn two_columns_fill_independently() {
    let cells = two_column_cells(area(0, 0, 20, 10), &vec![3, 1, 4, 1, 5]);
    assert_eq!(
        cells,
        vec![area(0, 0, 10, 3), area(10, 0, 10, 1), area(0, 3, 10, 4), area(10, 1, 10, 1), area(0, 7, 10, 3)]
    );
}

#[test]
fn grid_cells_share_width_and_height() {
    let cells = grid_cells(area(0, 0, 9, 10), 5, 3);
    assert_eq!(cells.len(), 5);
    assert_eq!(cells[0], area(0, 0, 3, 5));
    assert_eq!(cells[2], area(6, 0, 3, 5));
    assert_eq!(cells[4], area(3, 5, 3, 5));
}

#[test]
fn line_cells_stop_at_the_bottom() {
    assert_eq!(line_cells(area(1, 1, 5, 2), 4), vec![area(1, 1, 5, 1), area(1, 2, 5, 1)]);
    assert_eq!(line_cells(area(1, 1, 5, 9), 2).len(), 2);
}

#[test]
fn grid_lines_stop_at_the_first_row_below_the_area() {
    let cells = grid_lines(area(0, 0, 10, 2), 7, 2);
    assert_eq!(cells, vec![area(0, 0, 5, 1), area(5, 0, 5, 1), area(0, 1, 5, 1), area(5, 1, 5, 1)]);
}

#[test]
fn heights_of_form_fields() {
    assert_eq!(field_height(&FormField::TextInput(TextInput::new(TextInputProps::default()))), 3);
    assert_eq!(field_height(&FormField::Checkbox(Checkbox::new(CheckboxProps::default()))), 1);
    assert_eq!(field_height(&FormField::Spacer { height: 7 }), 7);
    assert_eq!(field_height(&FormField::Separator { title: None }), 1);
    assert_eq!(field_height(&FormField::Radio(radio_with(4))), 6);
    assert_eq!(field_height(&FormField::Radio(radio_with(4).horizontal())), 3);
    assert_eq!(field_height(&FormField::Radio(radio_with(5).grid(2))), 5);
    let group = FormField::Group {
        title: "g".to_string(),
        fields: vec![FormField::Spacer { height: 2 }, FormField::Separator { title: None }],
        layout: FormLayout::Vertical,
    };
    assert_eq!(field_height(&group), 5);
    let flat = FormField::Group { title: "g".to_string(), fields: vec![], layout: FormLayout::Horizontal };
    assert_eq!(field_height(&flat), 5);
}

#[test]
fn vertical_form_fields_are_cut_at_the_bottom() {
    let fields = vec![FormField::Spacer { height: 3 }, FormField::Spacer { height: 4 }, FormField::Spacer { height: 1 }];
    let cells = field_areas(area(1, 2, 30, 5), &fields, FormLayout::Vertical);
    assert_eq!(cells, vec![area(1, 2, 30, 3), area(1, 5, 30, 2)]);
}

#[test]
fn horizontal_form_fields_take_the_full_height() {
    let fields = vec![FormField::Spacer { height: 3 }, FormField::Spacer { height: 4 }];
    let cells = field_areas(area(0, 0, 30, 6), &fields, FormLayout::Horizontal);
    assert_eq!(cells, vec![area(0, 0, 15, 6), area(15, 0, 15, 6)]);
    assert!(field_areas(area(0, 0, 30, 6), &Vec::new(), FormLayout::Horizontal).is_empty());
}

#[test]
fn two_column_and_grid_form_fields() {
    let fields = vec![FormField::Spacer { height: 2 }, FormField::Spacer { height: 3 }, FormField::Spacer { height: 1 }];
    let cells = field_areas(area(0, 0, 10, 8), &fields, FormLayout::TwoColumn);
    assert_eq!(cells, vec![area(0, 0, 5, 2), area(5, 0, 5, 3), area(0, 2, 5, 1)]);
    let cells = field_areas(area(0, 0, 10, 8), &fields, FormLayout::Grid { columns: 2 });
    assert_eq!(cells, vec![area(0, 0, 5, 4), area(5, 0, 5, 4), area(0, 4, 5, 4)]);
}

#[test]
fn radio_options_follow_the_layout() {
    let inner = area(1, 1, 12, 3);
    assert_eq!(radio_with(5).option_areas(inner).len(), 3);
    assert_eq!(radio_with(3).horizontal().option_areas(inner), vec![area(1, 1, 4, 1), area(5, 1, 4, 1), area(9, 1, 4, 1)]);
    assert_eq!(radio_with(3).grid(2).option_areas(inner), vec![area(1, 1, 6, 1), area(7, 1, 6, 1), area(1, 2, 6, 1)]);
}

#[test]
fn form_body_below_description() {
    let form = FormBuilder::new("f").description("Fill in the release").build();
    let (description, summary, content) = form.body_areas(area(1, 1, 20, 10));
    assert_eq!(description, Some(area(1, 1, 20, 2)));
    assert_eq!(summary, None);
    assert_eq!(content, area(1, 3, 20, 8));
    let plain = FormBuilder::new("g").build();
    let (d, s, c) = plain.body_areas(area(0, 0, 5, 1));
    assert_eq!((d, s), (None, None));
    assert_eq!(c, area(0, 0, 5, 1));
}
