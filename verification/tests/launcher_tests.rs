use ascii_wanderer::launcher::{AppEffect, AppModel, AppMsg};

#[test]
fn page_starts_without_game() {
    let page = AppModel::create();
    assert!(!page.game_underway());
    assert_eq!(page.game_button_text(), "Start Game");
    assert!(!page.has_game(0));
}

#[test]
fn start_button_starts_game_under_key_zero() {
    let mut page = AppModel::create();
    let effects = page.update(AppMsg::SpawnGameInstance);
    assert_eq!(
        effects,
        vec![AppEffect::StartGame(0), AppEffect::SetStartButton("Continue Game".to_string())]
    );
    assert!(page.game_underway());
    assert!(page.has_game(0));
    assert!(!page.has_game(1));
    assert_eq!(page.game_button_text(), "Continue Game");
}

#[test]
fn start_button_during_game_refocuses_it() {
    let mut page = AppModel::create();
    page.update(AppMsg::SpawnGameInstance);
    let effects = page.update(AppMsg::SpawnGameInstance);
    assert_eq!(effects, vec![AppEffect::FocusGame(0)]);
    assert!(page.game_underway());
    assert!(page.has_game(0));
}

#[test]
fn reset_ends_game_and_restores_button() {
    let mut page = AppModel::create();
    page.update(AppMsg::SpawnGameInstance);
    let effects = page.update(AppMsg::ResetGameInstance(0));
    assert_eq!(
        effects,
        vec![AppEffect::EndGame(0), AppEffect::SetStartButton("Start Game".to_string())]
    );
    assert!(!page.game_underway());
    assert!(!page.has_game(0));
    // The recorded text is left as it was.
    assert_eq!(page.game_button_text(), "Continue Game");
}

#[test]
fn games_restart_under_key_zero() {
    let mut page = AppModel::create();
    for _ in 0..5 {
        assert_eq!(page.update(AppMsg::SpawnGameInstance)[0], AppEffect::StartGame(0));
        assert_eq!(page.update(AppMsg::SpawnGameInstance), vec![AppEffect::FocusGame(0)]);
        assert_eq!(page.update(AppMsg::ResetGameInstance(0))[0], AppEffect::EndGame(0));
    }
}
