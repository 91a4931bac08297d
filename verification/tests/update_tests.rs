use shfl::model::Model;
use shfl::update::{
    go_back_or_quit, move_item_to_top, move_selection_to_top, move_to_index, switch_with_next,
    switch_with_previous, toggle_current,
};

fn numbered_model(count: usize) -> Model {
    let lines: Vec<String> = (0..count).map(|n| n.to_string()).collect();
    Model::default("file.txt".to_string(), &lines, false)
}

fn contents(model: &Model) -> Vec<&str> {
    model.lines.items.iter().map(|i| i.content.as_str()).collect()
}

fn statuses(model: &Model) -> Vec<bool> {
    model.lines.items.iter().map(|i| i.status).collect()
}

#[test]
fn move_item_to_top_works() {
    // GIVEN
    let mut model = numbered_model(5);
    model.lines.cursor = Some(2);

    // WHEN
    let message = move_item_to_top(&mut model);

    // THEN
    assert!(message.is_none());
    assert_eq!(contents(&model), vec!["2", "0", "1", "3", "4"]);
}

#[test]
fn move_to_index_works() {
    // GIVEN
    let mut model = numbered_model(5);
    model.lines.cursor = Some(4);

    // WHEN
    let message = move_to_index(&mut model, 1);

    // THEN
    assert!(message.is_none());
    assert_eq!(contents(&model), vec!["0", "4", "1", "2", "3"]);
}

#[test]
fn move_to_index_works_handles_an_index_out_of_bounds() {
    // GIVEN
    let mut model = numbered_model(5);
    model.lines.cursor = Some(4);

    // WHEN
    let message = move_to_index(&mut model, 6);

    // THEN
    assert!(message.is_none());
    assert!(model.message.is_some());
    assert_eq!(contents(&model), vec!["0", "1", "2", "3", "4"]);
}

#[test]
fn move_selection_to_top_works() {
    // GIVEN
    let mut model = numbered_model(10);
    model.lines.items[1].status = true;
    model.lines.items[2].status = true;
    model.lines.items[5].status = true;
    model.lines.items[7].status = true;
    model.lines.items[8].status = true;

    // WHEN
    let message = move_selection_to_top(&mut model);

    // THEN
    assert!(message.is_none());
    assert_eq!(
        contents(&model),
        vec!["1", "2", "5", "7", "8", "0", "3", "4", "6", "9"]
    );
}

#[test]
fn switch_with_next_works() {
    // GIVEN
    let mut model = numbered_model(5);
    model.lines.cursor = Some(2);

    // WHEN
    let message = switch_with_next(&mut model);

    // THEN
    assert!(message.is_none());
    assert_eq!(contents(&model), vec!["0", "1", "3", "2", "4"]);
}

#[test]
fn switch_with_previous_works() {
    // GIVEN
    let mut model = numbered_model(5);
    model.lines.cursor = Some(2);

    // WHEN
    let message = switch_with_previous(&mut model);

    // THEN
    assert!(message.is_none());
    assert_eq!(contents(&model), vec!["0", "2", "1", "3", "4"]);
}

#[test]
fn toggle_current_works() {
    // GIVEN
    let mut model = numbered_model(5);
    model.lines.cursor = Some(1);

    // WHEN
    let message_one = toggle_current(&mut model);
    let message_two = toggle_current(&mut model);
    let message_three = toggle_current(&mut model);

    // THEN
    assert!(message_one.is_none());
    assert!(message_two.is_none());
    assert!(message_three.is_none());
    assert_eq!(contents(&model), vec!["0", "1", "2", "3", "4"]);
    assert_eq!(statuses(&model), vec![false, true, true, true, false]);
    assert_eq!(model.selected_count, 3);
    assert_eq!(model.lines.cursor, Some(4));
}

#[test]
fn selection_can_be_reset() {
    // GIVEN
    let mut model = numbered_model(5);
    model.lines.cursor = Some(1);

    // WHEN
    let _ = toggle_current(&mut model);
    let _ = toggle_current(&mut model);
    let _ = toggle_current(&mut model);
    let message = go_back_or_quit(&mut model);

    // THEN
    assert!(message.is_none());
    assert_eq!(statuses(&model), vec![false, false, false, false, false]);
    assert_eq!(model.selected_count, 0);
    assert_eq!(model.lines.cursor, Some(4));
}
