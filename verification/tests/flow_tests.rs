use shooter_client::flow::{
    handle_settings_menu_action_button_pressed, settings_tab_button_selected,
    SettingsCurrentTab, SettingsMenuAction, SettingsMenuActionButton,
    death_screen_restart_text, handle_common_ui_button_press, handle_escape_in_game,
    handle_escape_press_back, handle_main_menu_button_pressed, handle_start_game_mode_message,
    loading_state_text, server_state_for_in_game_state, toggle_debug, AppDebugState, AppRole,
    AppState, ClientLoadingState, CommonUiButton, GameStateServer, InGameState, MainMenuButton,
    MainMenuState, NetvyMode, handle_game_mode_selection_button_press, handle_pause_menu_button_pressed,
    handle_loading_screen_button_pressed, handle_death_screen_respawn_pressed, handle_player_death_event,
    GameModeClient, PendingGameConfig, PauseMenuButton, LoadingScreenButton, RespawnRequest,
};

#[test]
fn escape_closes_shop_first() {
    let mut overlay = true;
    assert_eq!(handle_escape_in_game(InGameState::Playing, &mut overlay, true), None);
    assert!(!overlay);
    assert_eq!(handle_escape_in_game(InGameState::Playing, &mut overlay, true), Some(InGameState::Paused));
}

#[test]
fn escape_pause_resume_round_trip() {
    let mut overlay = false;
    let paused = handle_escape_in_game(InGameState::Playing, &mut overlay, true).unwrap();
    assert_eq!(paused, InGameState::Paused);
    assert_eq!(handle_escape_in_game(paused, &mut overlay, true), Some(InGameState::Playing));
    assert_eq!(handle_escape_in_game(InGameState::PlayerDead, &mut overlay, true), None);
    assert_eq!(handle_escape_in_game(InGameState::Paused, &mut overlay, false), None);
}

#[test]
fn start_game_mode() {
    assert_eq!(handle_start_game_mode_message(true), (InGameState::Playing, None));
    assert_eq!(handle_start_game_mode_message(false), (InGameState::Playing, Some(AppState::LoadingGame)));
}

#[test]
fn server_state_follows_play() {
    assert_eq!(server_state_for_in_game_state(InGameState::Playing), GameStateServer::Running);
    assert_eq!(server_state_for_in_game_state(InGameState::Paused), GameStateServer::Paused);
    assert_eq!(server_state_for_in_game_state(InGameState::PlayerDead), GameStateServer::Paused);
}

#[test]
fn main_menu_escape_goes_back() {
    assert_eq!(handle_escape_press_back(MainMenuState::GameModeSelection), MainMenuState::MapSelection);
    assert_eq!(handle_escape_press_back(MainMenuState::MapSelection), MainMenuState::Root);
    assert_eq!(handle_escape_press_back(MainMenuState::Settings), MainMenuState::Root);
    assert_eq!(handle_escape_press_back(MainMenuState::Credits), MainMenuState::Root);
    assert_eq!(handle_escape_press_back(MainMenuState::Root), MainMenuState::Root);
    assert_eq!(handle_escape_press_back(MainMenuState::ServerSelection), MainMenuState::Root);
}

#[test]
fn main_menu_buttons() {
    let t = handle_main_menu_button_pressed(MainMenuButton::Singleplayer);
    assert_eq!(t.next_main_menu_state, MainMenuState::MapSelection);
    assert_eq!(t.next_app_role, Some(AppRole::HostClient));
    assert_eq!(t.netvy_mode, Some(NetvyMode::HostClient));
    let t = handle_main_menu_button_pressed(MainMenuButton::Multiplayer);
    assert_eq!(t.next_main_menu_state, MainMenuState::ServerSelection);
    assert_eq!(t.next_app_role, None);
    assert_eq!(handle_main_menu_button_pressed(MainMenuButton::SettingsMainMenu).next_main_menu_state, MainMenuState::Settings);
    assert_eq!(handle_main_menu_button_pressed(MainMenuButton::Credits).next_main_menu_state, MainMenuState::Credits);
}

#[test]
fn common_buttons() {
    let a = handle_common_ui_button_press(CommonUiButton::Quit, true);
    assert!(a.exit);
    let a = handle_common_ui_button_press(CommonUiButton::BackToMainMenu, true);
    assert_eq!(a.next_app_state, Some(AppState::MainMenu));
    assert_eq!(a.next_main_menu_state, Some(MainMenuState::Root));
    assert!(a.stop_game_and_disconnect);
    assert!(!handle_common_ui_button_press(CommonUiButton::BackToMainMenu, false).stop_game_and_disconnect);
    let a = handle_common_ui_button_press(CommonUiButton::ToGameModeSelection, true);
    assert_eq!(a.next_main_menu_state, Some(MainMenuState::GameModeSelection));
    assert!(!a.exit);
}

#[test]
fn loading_texts() {
    assert_eq!(loading_state_text(ClientLoadingState::StartingServer), "Starting local server");
    assert_eq!(loading_state_text(ClientLoadingState::ConnectingToServer), "Connecting to the server");
    assert_eq!(death_screen_restart_text(true), "Retry");
    assert_eq!(death_screen_restart_text(false), "Respawn");
}

#[test]
fn debug_overlay_toggle() {
    assert_eq!(toggle_debug(AppDebugState::DebugHidden), AppDebugState::DebugVisible);
    assert_eq!(toggle_debug(toggle_debug(AppDebugState::DebugVisible)), AppDebugState::DebugVisible);
}

#[test]
fn settings_screen_actions() {
    assert_eq!(
        handle_settings_menu_action_button_pressed(SettingsMenuActionButton::Back),
        SettingsMenuAction::GoTo(MainMenuState::Root)
    );
    assert_eq!(
        handle_settings_menu_action_button_pressed(SettingsMenuActionButton::Save),
        SettingsMenuAction::SaveSettingsFile
    );
    assert!(settings_tab_button_selected(SettingsCurrentTab::Audio, SettingsCurrentTab::Audio));
    assert!(!settings_tab_button_selected(SettingsCurrentTab::Graphics, SettingsCurrentTab::Controls));
}

#[test]
fn small_screen_actions() {
    let mut pending = PendingGameConfig { game_mode: GameModeClient::FreeRoam };
    let (state, start) = handle_game_mode_selection_button_press(&mut pending, GameModeClient::Waves);
    assert_eq!(state, AppState::LoadingGame);
    assert_eq!(start, PendingGameConfig { game_mode: GameModeClient::Waves });
    assert_eq!(pending.game_mode, GameModeClient::Waves);
    assert_eq!(handle_pause_menu_button_pressed(PauseMenuButton::Resume), InGameState::Playing);
    assert_eq!(handle_loading_screen_button_pressed(LoadingScreenButton::Cancel), (AppState::MainMenu, true));
    assert_eq!(handle_death_screen_respawn_pressed(), RespawnRequest { retry_wave_game_mode: true, respawn_on_server: true });
    assert_eq!(handle_player_death_event(2), Some(InGameState::PlayerDead));
    assert_eq!(handle_player_death_event(0), None);
}
