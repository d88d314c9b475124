use ascii_wanderer::gamearea::{
    key_to_msg, step_for_code, Direction, Effect, Msg, PlayAreaApp, FIELD_CELLS, FIELD_X, FIELD_Y,
};

fn mv(code: &str) -> Option<Msg> {
    Some(Msg::Move(code.to_string()))
}

#[test]
fn keys_move_inside_the_board() {
    assert_eq!(key_to_msg("KeyW".to_string(), 50, 25), mv("KeyW"));
    assert_eq!(key_to_msg("KeyS".to_string(), 50, 25), mv("KeyS"));
    assert_eq!(key_to_msg("KeyA".to_string(), 50, 25), mv("KeyA"));
    assert_eq!(key_to_msg("KeyD".to_string(), 50, 25), mv("KeyD"));
}

#[test]
fn other_keys_inside_the_board_do_nothing() {
    assert_eq!(key_to_msg("KeyQ".to_string(), 50, 25), None);
    assert_eq!(key_to_msg("Enter".to_string(), 1, 1), None);
}

#[test]
fn keys_against_top_and_left_border_report_edge() {
    assert_eq!(key_to_msg("KeyW".to_string(), 50, 0), mv("Edge"));
    assert_eq!(key_to_msg("KeyA".to_string(), 0, 25), mv("Edge"));
    assert_eq!(key_to_msg("KeyQ".to_string(), 0, 25), mv("Edge"));
    // Moving away from the border is still a move.
    assert_eq!(key_to_msg("KeyS".to_string(), 50, 0), mv("KeyS"));
}

#[test]
fn keys_against_bottom_and_right_border_do_nothing() {
    assert_eq!(key_to_msg("KeyS".to_string(), 50, FIELD_Y - 1), None);
    assert_eq!(key_to_msg("KeyD".to_string(), FIELD_X - 1, 25), None);
    assert_eq!(key_to_msg("KeyW".to_string(), FIELD_X - 1, FIELD_Y - 1), mv("KeyW"));
}

#[test]
fn step_directions() {
    assert_eq!(step_for_code(&"KeyW".to_string()), Some(Direction::Up));
    assert_eq!(step_for_code(&"KeyS".to_string()), Some(Direction::Down));
    assert_eq!(step_for_code(&"KeyA".to_string()), Some(Direction::Left));
    assert_eq!(step_for_code(&"KeyD".to_string()), Some(Direction::Right));
    assert_eq!(step_for_code(&"Edge".to_string()), None);
}

#[test]
fn new_play_area() {
    let app = PlayAreaApp::create();
    assert_eq!((app.x(), app.y()), (50, 25));
    assert_eq!((app.lox(), app.loy()), (0, 0));
    assert!(!app.popped());
    assert_eq!(app.last_popup_key(), 0);
    assert_eq!(app.popup_count(), 0);
    assert!(!app.is_hover);
    assert_eq!(app.hover, "Nothing");
    assert_eq!(app.player_cell(), Some(2550));
}

#[test]
fn board_cells_show_player() {
    let app = PlayAreaApp::create();
    let cells = app.board_cells();
    assert_eq!(cells.len(), FIELD_CELLS);
    assert_eq!(cells[2550], "P");
    assert_eq!(cells.iter().filter(|c| c.as_str() == "P").count(), 1);
}

/// Expected effects of a move into a cell holding `cell`.
fn expected_move(step: Option<Direction>, cell: &str, edge: bool) -> Vec<Effect> {
    let mut e = Vec::new();
    if let Some(d) = step {
        e.push(Effect::Stepped(d));
    }
    e.push(Effect::KeepPlayerInView);
    if cell != ".  " && !edge {
        e.push(Effect::SendPopUp(cell.to_string()));
    }
    e
}

#[test]
fn moves_step_and_scroll() {
    let mut app = PlayAreaApp::create();
    let cells = app.board_cells();
    let effects = app.update(Msg::Move("KeyD".to_string()), 12, 14);
    assert_eq!((app.x(), app.y()), (51, 25));
    assert_eq!((app.lox(), app.loy()), (12, 0));
    assert_eq!(effects, expected_move(Some(Direction::Right), &cells[2551], false));

    let cells = app.board_cells();
    let effects = app.update(Msg::Move("KeyW".to_string()), 12, 14);
    assert_eq!((app.x(), app.y()), (51, 24));
    assert_eq!((app.lox(), app.loy()), (12, -14));
    assert_eq!(effects, expected_move(Some(Direction::Up), &cells[2451], false));

    let cells = app.board_cells();
    let effects = app.update(Msg::Move("KeyA".to_string()), 12, 14);
    assert_eq!((app.x(), app.y(), app.lox()), (50, 24, 0));
    assert_eq!(effects, expected_move(Some(Direction::Left), &cells[2450], false));

    let cells = app.board_cells();
    let effects = app.update(Msg::Move("KeyS".to_string()), 12, 14);
    assert_eq!((app.x(), app.y(), app.loy()), (50, 25, 0));
    assert_eq!(effects, expected_move(Some(Direction::Down), &cells[2550], false));
}

#[test]
fn edge_does_not_move_or_announce() {
    let mut app = PlayAreaApp::create();
    let effects = app.update(Msg::Move("Edge".to_string()), 12, 14);
    assert_eq!((app.x(), app.y(), app.lox(), app.loy()), (50, 25, 0, 0));
    assert_eq!(effects, vec![Effect::KeepPlayerInView]);
}

#[test]
fn popups_open_and_close() {
    let mut app = PlayAreaApp::create();
    let effects = app.update(Msg::PopUp("Q".to_string()), 10, 10);
    assert_eq!(effects, vec![Effect::ShowPopUp(0, "Q".to_string())]);
    assert!(app.popped());
    assert_eq!(app.last_popup_key(), 0);
    assert!(app.has_popup(0));
    assert_eq!(app.popup_count(), 1);

    // A second find while a popup is shown asks to close the first one.
    let effects = app.update(Msg::PopUp("$".to_string()), 10, 10);
    assert_eq!(
        effects,
        vec![Effect::SendDestroyPopUp(0), Effect::ShowPopUp(1, "$".to_string())]
    );
    assert_eq!(app.last_popup_key(), 1);
    assert_eq!(app.popup_count(), 2);

    let effects = app.update(Msg::DestroyPopUp(0), 10, 10);
    assert_eq!(effects, vec![Effect::ClosePopUp(0)]);
    assert!(!app.popped());
    assert!(!app.has_popup(0));
    assert!(app.has_popup(1));

    let effects = app.update(Msg::DestroyPopUp(1), 10, 10);
    assert_eq!(effects, vec![Effect::ClosePopUp(1)]);
    assert_eq!(app.popup_count(), 0);

    // Freed keys are reused, the last freed first.
    let effects = app.update(Msg::PopUp("C".to_string()), 10, 10);
    assert_eq!(effects, vec![Effect::ShowPopUp(1, "C".to_string())]);
}

#[test]
fn move_while_popup_shown_closes_it_first() {
    let mut app = PlayAreaApp::create();
    app.update(Msg::PopUp("V".to_string()), 10, 10);
    let cells = app.board_cells();
    let effects = app.update(Msg::Move("KeyS".to_string()), 10, 10);
    let mut expected = vec![Effect::SendDestroyPopUp(0)];
    expected.extend(expected_move(Some(Direction::Down), &cells[2650], false));
    assert_eq!(effects, expected);
}

#[test]
fn set_scroll_offsets() {
    let mut app = PlayAreaApp::create();
    app.set_scroll(-300, 421);
    assert_eq!((app.lox(), app.loy()), (-300, 421));
    assert_eq!((app.x(), app.y()), (50, 25));
}

#[test]
fn wandering_keeps_player_on_board() {
    let mut app = PlayAreaApp::create();
    let keys = ["KeyW", "KeyA", "KeyS", "KeyD", "KeyX"];
    // A deterministic walk that pushes against every border.
    let mut seq: Vec<&str> = Vec::new();
    for _ in 0..30 {
        seq.push("KeyW");
    }
    for _ in 0..60 {
        seq.push("KeyA");
    }
    for _ in 0..70 {
        seq.push("KeyS");
    }
    for _ in 0..120 {
        seq.push("KeyD");
    }
    for i in 0..500usize {
        seq.push(keys[(i * 7 + i / 3) % keys.len()]);
    }
    for code in seq {
        if let Some(msg) = key_to_msg(code.to_string(), app.x(), app.y()) {
            app.update(msg, 1, 1);
            if app.popped() {
                let k = app.last_popup_key();
                app.update(Msg::DestroyPopUp(k), 1, 1);
            }
        }
        assert!((0..FIELD_X).contains(&app.x()), "x = {}", app.x());
        assert!((0..FIELD_Y).contains(&app.y()), "y = {}", app.y());
    }
}

#[test]
fn accepts_moves_on_the_board_only() {
    let mut app = PlayAreaApp::create();
    assert!(app.accepts(&Msg::Move("KeyW".to_string()), 10, 10));
    for _ in 0..25 {
        app.update(Msg::Move("KeyW".to_string()), 10, 10);
    }
    assert_eq!(app.y(), 0);
    // One more step up would leave the board's cells.
    assert!(!app.accepts(&Msg::Move("KeyW".to_string()), 10, 10));
    assert!(app.accepts(&Msg::Move("Edge".to_string()), 10, 10));
    assert!(app.accepts(&Msg::Move("KeyS".to_string()), 10, 10));
}

#[test]
fn accepts_rejects_scroll_overflow() {
    let mut app = PlayAreaApp::create();
    app.set_scroll(i32::MAX, 0);
    assert!(!app.accepts(&Msg::Move("KeyD".to_string()), 1, 1));
    assert!(app.accepts(&Msg::Move("KeyA".to_string()), 1, 1));
}

#[test]
fn accepts_popup_keys() {
    let mut app = PlayAreaApp::create();
    assert!(!app.accepts(&Msg::DestroyPopUp(0), 1, 1));
    assert!(app.accepts(&Msg::PopUp("Q".to_string()), 1, 1));
    app.update(Msg::PopUp("Q".to_string()), 1, 1);
    assert!(app.accepts(&Msg::DestroyPopUp(0), 1, 1));
    assert!(!app.accepts(&Msg::DestroyPopUp(1), 1, 1));
}
