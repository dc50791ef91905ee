use loadramp::dropdown::Dropdown;

fn methods() -> Dropdown {
    Dropdown::new(vec![String::from("GET"), String::from("POST"), String::from("PUT")])
}

#[test]
fn new_dropdown_is_closed_on_its_first_item() {
    let dropdown = methods();
    assert_eq!(dropdown.selected_index(), 0);
    assert!(!dropdown.open());
    assert_eq!(dropdown.len(), 3);
    assert_eq!(dropdown.get_selected_value(), "GET");
    assert_eq!(dropdown.item(0), "GET");
    assert_eq!(dropdown.item(2), "PUT");
}

#[test]
fn next_walks_forward_and_wraps() {
    let mut dropdown = methods();
    dropdown.next();
    assert_eq!(dropdown.selected_index(), 1);
    assert_eq!(dropdown.get_selected_value(), "POST");
    dropdown.next();
    assert_eq!(dropdown.get_selected_value(), "PUT");
    dropdown.next();
    assert_eq!(dropdown.selected_index(), 0);
    assert_eq!(dropdown.get_selected_value(), "GET");
}

#[test]
fn previous_walks_back_and_wraps() {
    let mut dropdown = methods();
    dropdown.previous();
    assert_eq!(dropdown.selected_index(), 2);
    assert_eq!(dropdown.get_selected_value(), "PUT");
    dropdown.previous();
    assert_eq!(dropdown.get_selected_value(), "POST");
    dropdown.previous();
    assert_eq!(dropdown.get_selected_value(), "GET");
}

#[test]
fn single_item_stays_selected() {
    let mut dropdown = Dropdown::new(vec![String::from("only")]);
    dropdown.next();
    assert_eq!(dropdown.selected_index(), 0);
    dropdown.previous();
    assert_eq!(dropdown.selected_index(), 0);
    assert_eq!(dropdown.get_selected_value(), "only");
}

#[test]
fn toggle_opens_and_closes() {
    let mut dropdown = methods();
    dropdown.toggle();
    assert!(dropdown.open());
    dropdown.next();
    dropdown.toggle();
    assert!(!dropdown.open());
    assert_eq!(dropdown.selected_index(), 1);
}

#[test]
fn empty_dropdown_can_be_made_and_toggled() {
    let mut dropdown = Dropdown::new(Vec::new());
    assert_eq!(dropdown.len(), 0);
    assert_eq!(dropdown.selected_index(), 0);
    dropdown.toggle();
    assert!(dropdown.open());
}
