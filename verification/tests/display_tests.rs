use loadramp::display::{DisplayString, CURSOR};

#[test]
fn new_field_shows_its_value_and_is_not_edited() {
    let field = DisplayString::new(String::from("hello"));
    assert_eq!(field.value, "hello");
    assert!(!field.edit_mode);
}

#[test]
fn characters_are_added_at_the_end() {
    let mut field = DisplayString::new(String::from("ab"));
    field.add_char('c');
    field.add_char('\u{e9}');
    assert_eq!(field.value, "abc\u{e9}");
    assert!(!field.edit_mode);
}

#[test]
fn last_character_is_removed() {
    let mut field = DisplayString::new(String::from("ab\u{e9}"));
    field.remove_last_char();
    assert_eq!(field.value, "ab");
    field.remove_last_char();
    field.remove_last_char();
    assert_eq!(field.value, "");
    field.remove_last_char();
    assert_eq!(field.value, "");
}

#[test]
fn value_is_replaced() {
    let mut field = DisplayString::new(String::from("old"));
    field.toggle_mode();
    field.update_value(String::from("new"));
    assert_eq!(field.value, "new");
    assert!(field.edit_mode);
}

#[test]
fn mode_is_toggled() {
    let mut field = DisplayString::new(String::from("x"));
    field.toggle_mode();
    assert!(field.edit_mode);
    field.toggle_mode();
    assert!(!field.edit_mode);
    assert_eq!(field.value, "x");
}

#[test]
fn string_is_appended_on_a_line_of_its_own() {
    let mut field = DisplayString::new(String::new());
    field.append_string(String::from("Running load test..."));
    assert_eq!(field.value, "\nRunning load test...");
    field.append_string(String::from("next"));
    assert_eq!(field.value, "\nRunning load test...\nnext");
}

#[test]
fn clone_is_equal_and_independent() {
    let mut field = DisplayString::new(String::from("a"));
    field.toggle_mode();
    let copy = field.clone();
    field.add_char('b');
    assert_eq!(copy.value, "a");
    assert!(copy.edit_mode);
    assert_eq!(field.value, "ab");
}

#[test]
fn cursor_is_drawn_while_editing() {
    assert_eq!(CURSOR, '\u{2588}');
    let mut field = DisplayString::new(String::from("abc"));
    assert_eq!(field.shown_value(), "abc");
    field.toggle_mode();
    assert_eq!(field.shown_value(), "abc\u{2588}");
    assert_eq!(field.value, "abc");
}

#[test]
fn title_is_marked_while_editing() {
    let mut field = DisplayString::new(String::from("abc"));
    assert_eq!(field.shown_title(String::from("URL")), "URL");
    field.toggle_mode();
    assert_eq!(field.shown_title(String::from("URL")), "URL - Editing");
}
