use shfl::common::{RunningState, Screen};
use shfl::message::{Effect, Key, Message};
use shfl::model::{Model, UserMessage};
use shfl::update::{
    go_back_or_quit, handle_key, move_item_to_top, move_selection_to_top, move_to_index,
    record_save_result, select_first, select_last, select_next, select_previous, show_view,
    switch_with_next, switch_with_previous, toggle_current, update,
};

fn numbered_model(count: usize) -> Model {
    let lines: Vec<String> = (0..count).map(|n| n.to_string()).collect();
    Model::default("file.txt".to_string(), &lines, false)
}

fn contents(model: &Model) -> Vec<&str> {
    model.lines.items.iter().map(|i| i.content.as_str()).collect()
}

fn statuses(model: &Model) -> Vec<bool> {
    model.lines.items.iter().map(|i| i.status).collect()
}

fn error_text(model: &Model) -> String {
    match &model.message {
        Some(UserMessage::Error(t)) => t.clone(),
        other => panic!("expected an error message, got {:?}", other),
    }
}

#[test]
fn move_to_index_is_rejected_while_a_selection_is_pending() {
    let mut model = numbered_model(5);
    model.lines.cursor = Some(2);
    let _ = toggle_current(&mut model);
    let before = contents(&model)
        .iter()
        .map(|s| s.to_string())
        .collect::<Vec<String>>();
    let before_statuses = statuses(&model);
    let before_cursor = model.lines.cursor;

    let fx = move_to_index(&mut model, 0);

    assert!(fx.is_none());
    assert_eq!(contents(&model), before);
    assert_eq!(statuses(&model), before_statuses);
    assert_eq!(model.lines.cursor, before_cursor);
    assert_eq!(error_text(&model), "remove selection first");
}

#[test]
fn move_to_index_out_of_range_reports_the_exact_error() {
    let mut model = numbered_model(5);
    let fx = move_to_index(&mut model, 5);
    assert!(fx.is_none());
    assert_eq!(contents(&model), vec!["0", "1", "2", "3", "4"]);
    assert_eq!(error_text(&model), "index is out of range");
}

#[test]
fn move_to_index_on_the_cursor_position_is_a_no_op() {
    let mut model = numbered_model(5);
    model.lines.cursor = Some(3);
    let fx = move_to_index(&mut model, 3);
    assert!(fx.is_none());
    assert_eq!(contents(&model), vec!["0", "1", "2", "3", "4"]);
    assert_eq!(model.lines.cursor, Some(3));
    assert!(model.message.is_none());
}

#[test]
fn switch_with_next_on_the_last_line_is_a_no_op() {
    let mut model = numbered_model(5);
    model.lines.cursor = Some(4);
    let fx = switch_with_next(&mut model);
    assert!(fx.is_none());
    assert_eq!(contents(&model), vec!["0", "1", "2", "3", "4"]);
    assert_eq!(model.lines.cursor, Some(4));
}

#[test]
fn switch_with_previous_on_the_first_line_is_a_no_op() {
    let mut model = numbered_model(5);
    model.lines.cursor = Some(0);
    let fx = switch_with_previous(&mut model);
    assert!(fx.is_none());
    assert_eq!(contents(&model), vec!["0", "1", "2", "3", "4"]);
    assert_eq!(model.lines.cursor, Some(0));
}

#[test]
fn cursor_motion_clamps_at_both_ends() {
    let mut model = numbered_model(3);
    let _ = select_previous(&mut model);
    assert_eq!(model.lines.cursor, Some(0));
    let _ = select_last(&mut model);
    assert_eq!(model.lines.cursor, Some(2));
    let _ = select_next(&mut model);
    assert_eq!(model.lines.cursor, Some(2));
    let _ = select_first(&mut model);
    assert_eq!(model.lines.cursor, Some(0));
    let _ = select_next(&mut model);
    assert_eq!(model.lines.cursor, Some(1));
}

#[test]
fn move_item_to_top_from_the_top_changes_nothing() {
    let mut model = numbered_model(4);
    model.lines.cursor = Some(0);
    let fx = move_item_to_top(&mut model);
    assert!(fx.is_none());
    assert_eq!(contents(&model), vec!["0", "1", "2", "3"]);
    assert_eq!(model.lines.cursor, Some(0));
}

#[test]
fn move_selection_to_top_with_everything_selected_only_clears_the_flags() {
    let mut model = numbered_model(4);
    for i in 0..4 {
        model.lines.items[i].status = true;
    }
    model.selected_count = 4;
    model.lines.cursor = Some(2);

    let fx = move_selection_to_top(&mut model);

    assert!(fx.is_none());
    assert_eq!(contents(&model), vec!["0", "1", "2", "3"]);
    assert_eq!(statuses(&model), vec![false, false, false, false]);
    assert_eq!(model.selected_count, 0);
    assert_eq!(model.lines.cursor, Some(2));
}

#[test]
fn move_selection_to_top_with_nothing_selected_changes_nothing() {
    let mut model = numbered_model(4);
    model.lines.cursor = Some(2);
    let fx = move_selection_to_top(&mut model);
    assert!(fx.is_none());
    assert_eq!(contents(&model), vec!["0", "1", "2", "3"]);
    assert_eq!(model.lines.cursor, Some(2));
    assert_eq!(model.selected_count, 0);
}

#[test]
fn quitting_with_a_pending_selection_keeps_the_session_running() {
    let mut model = numbered_model(5);
    model.lines.cursor = Some(1);
    let _ = toggle_current(&mut model);
    let _ = toggle_current(&mut model);
    assert_eq!(model.selected_count, 2);

    let fx = go_back_or_quit(&mut model);

    assert!(fx.is_none());
    assert_eq!(model.running_state, RunningState::Running);
    assert_eq!(statuses(&model), vec![false, false, false, false, false]);
    assert_eq!(model.selected_count, 0);
}

#[test]
fn quitting_without_a_selection_ends_the_session() {
    let mut model = numbered_model(3);
    let fx = go_back_or_quit(&mut model);
    assert!(fx.is_none());
    assert_eq!(model.running_state, RunningState::Done);
}

#[test]
fn quitting_with_save_on_exit_requests_a_save() {
    let lines: Vec<String> = (0..3).map(|n| n.to_string()).collect();
    let mut model = Model::default("file.txt".to_string(), &lines, true);
    let fx = go_back_or_quit(&mut model);
    assert_eq!(fx, Some(Effect::Save));
    assert_eq!(model.running_state, RunningState::Done);
}

#[test]
fn quitting_from_the_help_screen_goes_back_to_the_list() {
    let mut model = numbered_model(3);
    let _ = show_view(&mut model, Screen::Help);
    assert_eq!(model.screen, Screen::Help);

    let fx = go_back_or_quit(&mut model);

    assert!(fx.is_none());
    assert_eq!(model.screen, Screen::List);
    assert_eq!(model.running_state, RunningState::Running);
}

#[test]
fn the_help_command_toggles_the_help_screen() {
    let mut model = numbered_model(3);
    let _ = show_view(&mut model, Screen::Help);
    assert_eq!(model.screen, Screen::Help);
    let _ = show_view(&mut model, Screen::Help);
    assert_eq!(model.screen, Screen::List);
}

#[test]
fn update_clears_the_previous_message() {
    let mut model = numbered_model(5);
    let _ = move_to_index(&mut model, 9);
    assert!(model.message.is_some());

    let fx = update(&mut model, Message::GoToNextItem);

    assert!(fx.is_none());
    assert!(model.message.is_none());
    assert_eq!(model.lines.cursor, Some(1));
}

#[test]
fn update_asks_the_caller_to_save() {
    let mut model = numbered_model(5);
    let fx = update(&mut model, Message::SaveSelection);
    assert_eq!(fx, Some(Effect::Save));
    assert_eq!(contents(&model), vec!["0", "1", "2", "3", "4"]);
}

#[test]
fn update_ignores_list_commands_on_the_help_screen() {
    let mut model = numbered_model(5);
    let _ = update(&mut model, Message::ShowView(Screen::Help));
    assert_eq!(model.screen, Screen::Help);

    // on the help screen the key mapping produces no list commands at all
    assert_eq!(handle_key(&model, Key::Char('j')), None);
    assert_eq!(handle_key(&model, Key::Enter), None);
    assert_eq!(handle_key(&model, Key::Char('q')), Some(Message::Quit));
    assert_eq!(
        handle_key(&model, Key::Char('?')),
        Some(Message::ShowView(Screen::Help))
    );
}

#[test]
fn the_list_screen_key_mapping_matches_the_documented_bindings() {
    let model = numbered_model(5);
    assert_eq!(
        handle_key(&model, Key::Char('1')),
        Some(Message::MoveToIndex(0))
    );
    assert_eq!(
        handle_key(&model, Key::Char('9')),
        Some(Message::MoveToIndex(8))
    );
    assert_eq!(handle_key(&model, Key::Char('j')), Some(Message::GoToNextItem));
    assert_eq!(handle_key(&model, Key::Down), Some(Message::GoToNextItem));
    assert_eq!(
        handle_key(&model, Key::Char('k')),
        Some(Message::GoToPreviousPreview)
    );
    assert_eq!(handle_key(&model, Key::Up), Some(Message::GoToPreviousPreview));
    assert_eq!(handle_key(&model, Key::Char('g')), Some(Message::GoToFirstItem));
    assert_eq!(handle_key(&model, Key::Char('G')), Some(Message::GoToLastItem));
    assert_eq!(
        handle_key(&model, Key::Char('J')),
        Some(Message::SwitchWithNextItem)
    );
    assert_eq!(
        handle_key(&model, Key::Char('K')),
        Some(Message::SwitchWithPreviousItem)
    );
    assert_eq!(handle_key(&model, Key::Enter), Some(Message::MoveToTop));
    assert_eq!(
        handle_key(&model, Key::Char('s')),
        Some(Message::ToggleSelection)
    );
    assert_eq!(
        handle_key(&model, Key::Char(' ')),
        Some(Message::ToggleSelection)
    );
    assert_eq!(handle_key(&model, Key::Char('w')), Some(Message::SaveSelection));
    assert_eq!(handle_key(&model, Key::Char('q')), Some(Message::Quit));
    assert_eq!(handle_key(&model, Key::Esc), Some(Message::Quit));
    assert_eq!(
        handle_key(&model, Key::Char('?')),
        Some(Message::ShowView(Screen::Help))
    );
    assert_eq!(handle_key(&model, Key::Char('x')), None);
    assert_eq!(handle_key(&model, Key::Other), None);
}

#[test]
fn record_save_result_reports_success_and_failure() {
    let mut model = numbered_model(2);
    record_save_result(&mut model, true, "");
    match &model.message {
        Some(UserMessage::Success(t)) => assert_eq!(t, "written to file"),
        other => panic!("expected a success message, got {:?}", other),
    }

    record_save_result(&mut model, false, "disk full");
    assert_eq!(
        error_text(&model),
        "couldn't write to file; error: disk full"
    );
}

#[test]
fn the_cursor_and_count_stay_consistent_over_a_command_sequence() {
    let mut model = numbered_model(6);
    let commands = vec![
        Message::ToggleSelection,
        Message::GoToNextItem,
        Message::ToggleSelection,
        Message::MoveToTop,
        Message::GoToLastItem,
        Message::SwitchWithPreviousItem,
        Message::MoveToIndex(2),
        Message::ToggleSelection,
        Message::GoToPreviousPreview,
        Message::ToggleSelection,
        Message::MoveToTop,
        Message::GoToFirstItem,
        Message::SwitchWithNextItem,
        Message::Quit,
    ];
    for command in commands {
        let _ = update(&mut model, command);
        assert_eq!(model.lines.items.len(), 6);
        let cursor = model.lines.cursor.expect("cursor must stay present");
        assert!(cursor < model.lines.items.len());
        let flagged = model.lines.items.iter().filter(|i| i.status).count();
        assert_eq!(model.selected_count, flagged);
    }
}

#[test]
fn an_empty_collection_has_no_cursor_and_rejects_reordering() {
    let lines: Vec<String> = Vec::new();
    let mut model = Model::default("file.txt".to_string(), &lines, false);
    assert_eq!(model.lines.cursor, None);
    assert_eq!(model.selected_count, 0);

    let fx = move_to_index(&mut model, 0);
    assert!(fx.is_none());
    assert_eq!(error_text(&model), "index is out of range");

    let fx = update(&mut model, Message::GoToNextItem);
    assert!(fx.is_none());
    assert_eq!(model.lines.cursor, None);
}
