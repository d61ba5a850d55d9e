use file_uploader::command::cli::{
    all_filled, set_fields_for_providers, AppMode, AppState, InputEvent, Outcome,
};
use file_uploader::command::data::{default_providers, field_labels, Provider};

fn start() -> AppState {
    AppState::new(default_providers())
}

fn type_text(app: &mut AppState, text: &str) {
    for c in text.chars() {
        assert!(matches!(app.handle_event(InputEvent::TextInput(c)), Outcome::Continue));
    }
}

fn labels(app: &AppState) -> Vec<String> {
    app.input_fields.iter().map(|f| f.0.clone()).collect()
}

fn pair(label: &str, value: &str) -> (String, String) {
    (label.to_string(), value.to_string())
}

#[test]
fn scenario_second_provider_submits() {
    let mut app = start();
    assert_eq!(app.selected_provider_index, 0);
    app.handle_event(InputEvent::MoveDown);
    assert_eq!(app.selected_provider_index, 1);
    assert_eq!(app.available_providers[1], Provider::GoogleDrive);
    app.handle_event(InputEvent::Confirm);
    assert_eq!(app.mode, AppMode::FillingFields);
    assert_eq!(app.input_fields, vec![pair("Access Token", ""), pair("Path to File", "")]);
    type_text(&mut app, "abc");
    assert_eq!(app.input_fields[0].1, "abc");
    app.handle_event(InputEvent::MoveDown);
    assert_eq!(app.selected_input_index, 1);
    type_text(&mut app, "/tmp/x");
    assert_eq!(app.input_fields[1].1, "/tmp/x");
    match app.handle_event(InputEvent::Confirm) {
        Outcome::Submitted(p, fields) => {
            assert_eq!(p, Provider::GoogleDrive);
            assert_eq!(fields, vec![pair("Access Token", "abc"), pair("Path to File", "/tmp/x")]);
        }
        other => panic!("expected a submission, got {:?}", other),
    }
}

#[test]
fn scenario_missing_field_is_incomplete() {
    let mut app = start();
    app.handle_event(InputEvent::MoveDown);
    app.handle_event(InputEvent::Confirm);
    type_text(&mut app, "abc");
    let before = app.input_fields.clone();
    assert!(matches!(app.handle_event(InputEvent::Confirm), Outcome::Incomplete));
    assert_eq!(app.mode, AppMode::FillingFields);
    assert_eq!(app.input_fields, before);
    assert_eq!(app.selected_provider, Some(Provider::GoogleDrive));
}

#[test]
fn provider_cursor_saturates() {
    let mut app = start();
    app.handle_event(InputEvent::MoveUp);
    assert_eq!(app.selected_provider_index, 0);
    for _ in 0..5 {
        app.handle_event(InputEvent::MoveDown);
    }
    assert_eq!(app.selected_provider_index, 2);
    app.handle_event(InputEvent::MoveUp);
    assert_eq!(app.selected_provider_index, 1);
    assert_eq!(app.mode, AppMode::SelectingProvider);
}

#[test]
fn confirm_opens_catalog_fields_for_each_provider() {
    let expected: Vec<Vec<&str>> = vec![
        vec!["Region", "Bucket Name", "Path to File", "Key"],
        vec!["Access Token", "Path to File"],
        vec!["Access Token", "Path to File", "Key"],
    ];
    for (i, want) in expected.iter().enumerate() {
        let mut app = start();
        for _ in 0..i {
            app.handle_event(InputEvent::MoveDown);
        }
        app.handle_event(InputEvent::Confirm);
        assert_eq!(app.mode, AppMode::FillingFields);
        assert_eq!(app.selected_provider, Some(app.available_providers[i]));
        assert_eq!(labels(&app), *want);
        assert!(app.input_fields.iter().all(|f| f.1.is_empty()));
        assert_eq!(app.selected_input_index, 0);
    }
}

#[test]
fn typing_and_backspace_net_effect() {
    let mut app = start();
    app.handle_event(InputEvent::Confirm);
    app.handle_event(InputEvent::Backspace);
    assert_eq!(app.input_fields[0].1, "");
    type_text(&mut app, "eu-w");
    app.handle_event(InputEvent::Backspace);
    type_text(&mut app, "west-1");
    assert_eq!(app.input_fields[0].1, "eu-west-1");
    assert!(app.input_fields[1..].iter().all(|f| f.1.is_empty()));
    type_text(&mut app, "é");
    app.handle_event(InputEvent::Backspace);
    assert_eq!(app.input_fields[0].1, "eu-west-1");
}

#[test]
fn field_focus_saturates() {
    let mut app = start();
    app.handle_event(InputEvent::Confirm);
    app.handle_event(InputEvent::MoveUp);
    assert_eq!(app.selected_input_index, 0);
    for _ in 0..10 {
        app.handle_event(InputEvent::MoveDown);
    }
    assert_eq!(app.selected_input_index, 3);
}

#[test]
fn cancel_discards_fields() {
    let mut app = start();
    app.handle_event(InputEvent::MoveDown);
    app.handle_event(InputEvent::MoveDown);
    app.handle_event(InputEvent::Confirm);
    type_text(&mut app, "token");
    app.handle_event(InputEvent::MoveDown);
    assert!(matches!(app.handle_event(InputEvent::Cancel), Outcome::Continue));
    assert_eq!(app.mode, AppMode::SelectingProvider);
    assert!(app.input_fields.is_empty());
    assert_eq!(app.selected_provider, None);
    assert_eq!(app.selected_input_index, 0);
    assert_eq!(app.selected_provider_index, 2);
}

#[test]
fn cancel_and_text_ignored_while_selecting() {
    let mut app = start();
    app.handle_event(InputEvent::MoveDown);
    app.handle_event(InputEvent::Cancel);
    app.handle_event(InputEvent::TextInput('x'));
    app.handle_event(InputEvent::Backspace);
    assert_eq!(app.mode, AppMode::SelectingProvider);
    assert_eq!(app.selected_provider_index, 1);
    assert!(app.input_fields.is_empty());
}

#[test]
fn quit_in_both_modes() {
    let mut app = start();
    assert!(matches!(app.handle_event(InputEvent::Quit), Outcome::Quit));
    app.handle_event(InputEvent::Confirm);
    type_text(&mut app, "x");
    assert!(matches!(app.handle_event(InputEvent::Quit), Outcome::Quit));
    assert_eq!(app.input_fields[0].1, "x");
}

#[test]
fn whitespace_only_value_is_incomplete() {
    let mut app = start();
    app.handle_event(InputEvent::MoveDown);
    app.handle_event(InputEvent::Confirm);
    type_text(&mut app, "  \t");
    app.handle_event(InputEvent::MoveDown);
    type_text(&mut app, "/tmp/x");
    assert!(matches!(app.handle_event(InputEvent::Confirm), Outcome::Incomplete));
}

#[test]
fn padded_values_submit_unmodified() {
    let mut app = start();
    app.handle_event(InputEvent::MoveDown);
    app.handle_event(InputEvent::Confirm);
    type_text(&mut app, " abc ");
    app.handle_event(InputEvent::MoveDown);
    type_text(&mut app, "/tmp/x");
    match app.handle_event(InputEvent::Confirm) {
        Outcome::Submitted(_, fields) => assert_eq!(fields[0].1, " abc "),
        other => panic!("expected a submission, got {:?}", other),
    }
}

#[test]
fn all_filled_checks_trimmed_values() {
    assert!(all_filled(&vec![]));
    assert!(all_filled(&vec![pair("Key", " k ")]));
    assert!(!all_filled(&vec![pair("Key", "k"), pair("Region", " \n ")]));
    assert!(!all_filled(&vec![pair("Key", "")]));
}

#[test]
fn set_fields_without_provider_keeps_fields() {
    let mut app = start();
    app.selected_input_index = 0;
    set_fields_for_providers(&mut app);
    assert!(app.input_fields.is_empty());
    app.selected_provider = Some(Provider::Dropbox);
    set_fields_for_providers(&mut app);
    assert_eq!(labels(&app), field_labels(Provider::Dropbox));
}

#[test]
fn default_mode_is_selection() {
    assert_eq!(AppMode::default(), AppMode::SelectingProvider);
}
