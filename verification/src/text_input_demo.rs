//! Sample text inputs of each kind: plain, required, multi-line, checked by
//! a pattern, read-only, and limited with help text.

use vstd::prelude::*;
use crate::component::ComponentId;
use crate::text_input::{TextInput, TextInputProps};

verus! {

/// Six sample text inputs: a plain one with an identifier, a required one,
/// a multi-line one of at most 500 bytes, an email address checked by a
/// pattern, a read-only one with a value, and a required one of at most 50
/// bytes with help text.
pub fn create_demo_text_inputs() -> (r: Vec<TextInput>)
    ensures
        r@.len() == 6,
        r@[0].id_view() == "simple_input"@,
        r@[0].props_view().title@ == "Simple Input"@,
        r@[0].props_view().placeholder@ == "Enter some text..."@,
        r@[1].props_view().title@ == "Required Field"@,
        r@[1].props_view().placeholder@ == "This field is required"@,
        r@[1].props_view().required,
        r@[2].props_view().title@ == "Description"@,
        r@[2].props_view().multiline,
        r@[2].props_view().max_length == Some(500usize),
        r@[3].props_view().title@ == "Email Address"@,
        r@[3].props_view().placeholder@ == "user@example.com"@,
        r@[3].props_view().validation_pattern matches Some(p) && p@
            == "^[a-zA-Z0-9._%+-]+@[a-zA-Z0-9.-]+\\.[a-zA-Z]{2,}$"@,
        r@[3].props_view().required,
        r@[4].props_view().title@ == "Read-Only Field"@,
        r@[4].props_view().initial_value@ == "This value cannot be changed"@,
        r@[4].props_view().readonly,
        r@[5].props_view().title@ == "Secure Input"@,
        r@[5].props_view().max_length == Some(50usize),
        r@[5].props_view().required,
        r@[5].props_view().help_text matches Some(h) && h@ == "This field has special security requirements"@,
{
    let mut simple = TextInputProps::default();
    simple.id = ComponentId::new("simple_input");
    simple.title = "Simple Input".to_owned();
    simple.placeholder = "Enter some text...".to_owned();
    let mut v: Vec<TextInput> = Vec::new();
    v.push(TextInput::new(simple));
    v.push(
        TextInput::new(TextInputProps::default()).with_title("Required Field").with_placeholder(
            "This field is required",
        ).required(true),
    );
    v.push(
        TextInput::new(TextInputProps::default()).with_title("Description").with_placeholder(
            "Enter a detailed description...",
        ).multiline(true).max_length(500),
    );
    v.push(
        TextInput::new(TextInputProps::default()).with_title("Email Address").with_placeholder(
            "user@example.com",
        ).with_validation_pattern("^[a-zA-Z0-9._%+-]+@[a-zA-Z0-9.-]+\\.[a-zA-Z]{2,}$").required(true),
    );
    v.push(
        TextInput::new(TextInputProps::default()).with_title("Read-Only Field").with_initial_value(
            "This value cannot be changed",
        ).readonly(true),
    );
    v.push(
        TextInput::new(TextInputProps::default()).with_title("Secure Input").with_placeholder(
            "Enter sensitive data...",
        ).max_length(50).required(true).with_help_text("This field has special security requirements"),
    );
    v
}

} // verus!
