use loadramp::tabs::SelectedTab;

#[test]
fn default_tab_is_request_reply() {
    assert_eq!(SelectedTab::default(), SelectedTab::RequestReply);
}

#[test]
fn all_tabs_from_left_to_right() {
    assert_eq!(SelectedTab::all(), [SelectedTab::RequestReply, SelectedTab::LoadTest]);
}

#[test]
fn tab_positions() {
    assert_eq!(SelectedTab::RequestReply.index(), 0);
    assert_eq!(SelectedTab::LoadTest.index(), 1);
    assert_eq!(SelectedTab::from_repr(0), Some(SelectedTab::RequestReply));
    assert_eq!(SelectedTab::from_repr(1), Some(SelectedTab::LoadTest));
    assert_eq!(SelectedTab::from_repr(2), None);
    assert_eq!(SelectedTab::from_repr(usize::MAX), None);
}

#[test]
fn previous_stops_at_the_leftmost_tab() {
    assert_eq!(SelectedTab::LoadTest.previous(), SelectedTab::RequestReply);
    assert_eq!(SelectedTab::RequestReply.previous(), SelectedTab::RequestReply);
}

#[test]
fn next_stops_at_the_rightmost_tab() {
    assert_eq!(SelectedTab::RequestReply.next(), SelectedTab::LoadTest);
    assert_eq!(SelectedTab::LoadTest.next(), SelectedTab::LoadTest);
}

#[test]
fn tab_descriptions() {
    assert_eq!(
        SelectedTab::RequestReply.description(),
        "Send individual requests to your endpoint"
    );
    assert_eq!(SelectedTab::LoadTest.description(), "Load test your API");
}

#[test]
fn tab_titles() {
    assert_eq!(SelectedTab::RequestReply.title(), "Request/Reply");
    assert_eq!(SelectedTab::LoadTest.title(), "Load Test");
}
