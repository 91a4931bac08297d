use shfl::common::{RunningState, Screen};
use shfl::item::{Item, Selected};
use shfl::model::{LineItem, Lines, Model, UserMessage};

#[test]
fn a_fresh_model_starts_on_the_list_screen_with_nothing_selected() {
    let lines: Vec<String> = vec!["alpha".to_string(), "beta".to_string()];
    let model = Model::default("notes.txt".to_string(), &lines, true);
    assert_eq!(model.screen, Screen::List);
    assert_eq!(model.running_state, RunningState::Running);
    assert_eq!(model.file_path, "notes.txt");
    assert!(model.save_on_exit);
    assert!(model.message.is_none());
    assert_eq!(model.selected_count, 0);
    assert_eq!(model.lines.cursor, Some(0));
    let contents: Vec<&str> = model
        .lines
        .items
        .iter()
        .map(|i| i.content.as_str())
        .collect();
    assert_eq!(contents, vec!["alpha", "beta"]);
    assert!(model.lines.items.iter().all(|i| !i.status));
}

#[test]
fn lines_from_an_empty_input_have_no_cursor() {
    let input: Vec<String> = Vec::new();
    let lines = Lines::from(&input);
    assert!(lines.items.is_empty());
    assert_eq!(lines.cursor, None);
}

#[test]
fn a_line_item_toggles_back_and_forth() {
    let mut item = LineItem::new("text", false);
    assert_eq!(item.content, "text");
    assert!(!item.status);
    assert!(item.toggle());
    assert!(item.status);
    assert!(!item.toggle());
    assert!(!item.status);
    assert_eq!(item.content, "text");
}

#[test]
fn a_user_message_hands_out_its_text() {
    let success = UserMessage::Success("all good".to_string());
    assert_eq!(success.value(), "all good");
    let error = UserMessage::Error("broken".to_string());
    assert_eq!(error.value(), "broken");
}

#[test]
fn an_item_keeps_its_text_while_its_marker_flips() {
    let mut item = Item::new("entry", Selected::No);
    assert_eq!(item.line, "entry");
    assert_eq!(item.status, Selected::No);
    item.toggle();
    assert_eq!(item.status, Selected::Yes);
    item.toggle();
    assert_eq!(item.status, Selected::No);
    assert_eq!(item.line, "entry");
}
