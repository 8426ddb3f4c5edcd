use macros::{header_title, AppState, Message, Page};

#[test]
fn page_title() {
    assert_eq!(Page::Page1.as_str(), "Macros");
}

#[test]
fn header_titles() {
    assert_eq!(header_title(Some("Macros")), "Macros \u{2014} Macros");
    assert_eq!(header_title(None), "Unknown Page \u{2014} Macros");
}

#[test]
fn run_request_without_index_is_no_op() {
    let mut s = AppState::new(vec!["a".to_string()]);
    assert_eq!(s.update(Message::RunMacro(None)), None);
    assert_eq!(s, AppState::new(vec!["a".to_string()]));
    assert_eq!(s.update(Message::RunMacro(Some(2))), Some(2));
}

#[test]
fn state_events() {
    let mut s = AppState::new(Vec::new());
    assert!(s.hidden);
    assert_eq!(s.macro_selected, Some(0));
    assert_eq!(s.update(Message::ToggleHide), None);
    assert!(!s.hidden);
    s.update(Message::SelectMacro(2));
    assert_eq!(s.macro_selected, Some(2));
    s.update(Message::Input1("x".to_string()));
    s.update(Message::Input2("y".to_string()));
    s.update(Message::Ignore);
    assert_eq!(s.input_1, "x");
    assert_eq!(s.input_2, "y");
    assert_eq!(s.macros, Some(Vec::new()));
}
