//! Application states and the transitions that menus, buttons and keys trigger.
use vstd::prelude::*;

verus! {

/// The top-level state of the client.
#[derive(Clone, Copy, Debug, PartialEq, Eq, Structural)]
pub enum AppState {
    MainMenu,
    LoadingGame,
    InGame,
    Disconnected,
}

/// The loading progress while `AppState::LoadingGame`.
#[derive(Clone, Copy, Debug, PartialEq, Eq, Structural)]
pub enum ClientLoadingState {
    /// The local server for single-player is starting (skipped for a dedicated server).
    StartingServer,
    ConnectingToServer,
}

/// The screen shown while `AppState::MainMenu`.
#[derive(Clone, Copy, Debug, PartialEq, Eq, Structural)]
pub enum MainMenuState {
    Root,
    Settings,
    MapSelection,
    GameModeSelection,
    ServerSelection,
    Credits,
}

/// The situation of the player while `AppState::InGame`.
#[derive(Clone, Copy, Debug, PartialEq, Eq, Structural)]
pub enum InGameState {
    Playing,
    Paused,
    PlayerDead,
}

/// The game mode the client plays.
#[derive(Clone, Copy, Debug, PartialEq, Eq, Structural)]
pub enum GameModeClient {
    FreeRoam,
    Waves,
    Multiplayer,
}

/// Whether this process only plays, or also hosts the game server.
#[derive(Clone, Copy, Debug, PartialEq, Eq, Structural)]
pub enum AppRole {
    ClientOnly,
    HostClient,
}

/// How the networking layer runs.
#[derive(Clone, Copy, Debug, PartialEq, Eq, Structural)]
pub enum NetvyMode {
    Client,
    HostClient,
}

/// What the client asks the game server to do with the simulation.
#[derive(Clone, Copy, Debug, PartialEq, Eq, Structural)]
pub enum GameStateServer {
    Running,
    Paused,
}

/// The in-game state the escape key leads to, and whether the shop overlay stays open.
pub open spec fn spec_escape_in_game(
    state: InGameState,
    buy_overlay_visible: bool,
    escape_just_pressed: bool,
) -> (Option<InGameState>, bool) {
    if !escape_just_pressed {
        (None, buy_overlay_visible)
    } else {
        match state {
            InGameState::Playing => if buy_overlay_visible {
                (None, false)
            } else {
                (Some(InGameState::Paused), buy_overlay_visible)
            },
            InGameState::Paused => (Some(InGameState::Playing), buy_overlay_visible),
            InGameState::PlayerDead => (None, buy_overlay_visible),
        }
    }
}

/// The escape key while in game: it first closes the shop overlay, otherwise it pauses;
/// while paused it resumes; on the death screen it does nothing.
/// Returns the in-game state to switch to, if any.
pub fn handle_escape_in_game(
    current: InGameState,
    buy_overlay_visible: &mut bool,
    escape_just_pressed: bool,
) -> (next: Option<InGameState>)
    ensures
        (next, *final(buy_overlay_visible)) == spec_escape_in_game(current, *old(buy_overlay_visible), escape_just_pressed),
{
    if !escape_just_pressed {
        return None;
    }
    match current {
        InGameState::Playing => {
            if *buy_overlay_visible {
                *buy_overlay_visible = false;
                None
            } else {
                Some(InGameState::Paused)
            }
        },
        InGameState::Paused => Some(InGameState::Playing),
        InGameState::PlayerDead => None,
    }
}

/// Escaping out of play and escaping again comes back to play, with the shop closed.
pub proof fn lemma_escape_pause_then_resume()
    ensures
        spec_escape_in_game(InGameState::Playing, false, true) == (Some(InGameState::Paused), false),
        spec_escape_in_game(InGameState::Paused, false, true) == (Some(InGameState::Playing), false),
{
}

/// Escape never leaves the death screen, and without escape nothing changes.
pub proof fn lemma_escape_keeps_dead_and_idle(state: InGameState, overlay: bool)
    ensures
        spec_escape_in_game(InGameState::PlayerDead, overlay, true).0 is None,
        spec_escape_in_game(state, overlay, false) == (None::<InGameState>, overlay),
{
}

/// Starting a game mode always goes to play; a restart stays in the current game, a new
/// start goes through loading. Returns the in-game state and the app state to set.
pub fn handle_start_game_mode_message(restart: bool) -> (next: (InGameState, Option<AppState>))
    ensures
        next.0 == InGameState::Playing,
        next.1 == (if restart { None } else { Some(AppState::LoadingGame) }),
{
    if restart {
        (InGameState::Playing, None)
    } else {
        (InGameState::Playing, Some(AppState::LoadingGame))
    }
}

/// The simulation runs on the server exactly while the player is playing.
pub fn server_state_for_in_game_state(state: InGameState) -> (s: GameStateServer)
    ensures
        s == (if state == InGameState::Playing { GameStateServer::Running } else { GameStateServer::Paused }),
{
    match state {
        InGameState::Playing => GameStateServer::Running,
        InGameState::Paused | InGameState::PlayerDead => GameStateServer::Paused,
    }
}

pub open spec fn spec_escape_back(state: MainMenuState) -> MainMenuState {
    match state {
        MainMenuState::GameModeSelection => MainMenuState::MapSelection,
        _ => MainMenuState::Root,
    }
}

/// The escape key in the main menu goes one screen back.
pub fn handle_escape_press_back(state: MainMenuState) -> (next: MainMenuState)
    ensures
        next == spec_escape_back(state),
{
    match state {
        MainMenuState::Root => MainMenuState::Root,
        MainMenuState::Settings => MainMenuState::Root,
        MainMenuState::Credits => MainMenuState::Root,
        MainMenuState::GameModeSelection => MainMenuState::MapSelection,
        MainMenuState::MapSelection => MainMenuState::Root,
        MainMenuState::ServerSelection => MainMenuState::Root,
    }
}

/// From any main-menu screen, at most two presses of escape reach the root.
pub proof fn lemma_escape_back_reaches_root(state: MainMenuState)
    ensures
        spec_escape_back(spec_escape_back(state)) == MainMenuState::Root,
{
}

/// The game the client asks the server to start once it is connected.
#[derive(Clone, Copy, Debug, PartialEq, Eq, Structural)]
pub struct PendingGameConfig {
    pub game_mode: GameModeClient,
}

/// Choosing a game mode records it in the pending configuration, asks for that game to
/// start, and goes to loading. Returns the app state and the configuration to start.
pub fn handle_game_mode_selection_button_press(
    pending_game_config: &mut PendingGameConfig,
    game_mode: GameModeClient,
) -> (start: (AppState, PendingGameConfig))
    ensures
        *final(pending_game_config) == (PendingGameConfig { game_mode, ..*old(pending_game_config) }),
        start == (AppState::LoadingGame, *final(pending_game_config)),
{
    pending_game_config.game_mode = game_mode;
    (AppState::LoadingGame, *pending_game_config)
}

/// The resume button of the pause menu returns to play.
#[derive(Clone, Copy, Debug, PartialEq, Eq, Structural)]
pub enum PauseMenuButton {
    Resume,
}

pub fn handle_pause_menu_button_pressed(button: PauseMenuButton) -> (next: InGameState)
    ensures
        next == InGameState::Playing,
{
    match button {
        PauseMenuButton::Resume => InGameState::Playing,
    }
}

/// The cancel button of the loading screen.
#[derive(Clone, Copy, Debug, PartialEq, Eq, Structural)]
pub enum LoadingScreenButton {
    Cancel,
}

/// Cancelling loading returns to the main menu and asks the server to stop the game.
/// Returns the app state and whether to stop the game.
pub fn handle_loading_screen_button_pressed(button: LoadingScreenButton) -> (next: (AppState, bool))
    ensures
        next == (AppState::MainMenu, true),
{
    match button {
        LoadingScreenButton::Cancel => (AppState::MainMenu, true),
    }
}

/// What the respawn button of the death screen asks for.
#[derive(Clone, Copy, Debug, PartialEq, Eq, Structural)]
pub struct RespawnRequest {
    /// Restart the wave game mode (ignored outside of it).
    pub retry_wave_game_mode: bool,
    /// Ask the server to respawn the player.
    pub respawn_on_server: bool,
}

/// The respawn button always asks both for a wave retry and for a respawn, since the
/// retry is ignored outside the wave game mode.
pub fn handle_death_screen_respawn_pressed() -> (r: RespawnRequest)
    ensures
        r == (RespawnRequest { retry_wave_game_mode: true, respawn_on_server: true }),
{
    RespawnRequest { retry_wave_game_mode: true, respawn_on_server: true }
}

/// Any death of the player this frame leads to the death screen.
pub fn handle_player_death_event(deaths_this_frame: usize) -> (next: Option<InGameState>)
    ensures
        next == (if deaths_this_frame > 0 { Some(InGameState::PlayerDead) } else { None::<InGameState> }),
{
    if deaths_this_frame > 0 {
        Some(InGameState::PlayerDead)
    } else {
        None
    }
}

/// The buttons of the main menu's root screen.
#[derive(Clone, Copy, Debug, PartialEq, Eq, Structural)]
pub enum MainMenuButton {
    Singleplayer,
    Multiplayer,
    SettingsMainMenu,
    Credits,
}

/// What pressing a main-menu button sets: the next screen, and for single-player also
/// the app role and network mode of a hosting client.
#[derive(Clone, Copy, Debug, PartialEq, Eq, Structural)]
pub struct MainMenuTransition {
    pub next_main_menu_state: MainMenuState,
    pub next_app_role: Option<AppRole>,
    pub netvy_mode: Option<NetvyMode>,
}

pub fn handle_main_menu_button_pressed(button: MainMenuButton) -> (t: MainMenuTransition)
    ensures
        t == (match button {
            MainMenuButton::Singleplayer => MainMenuTransition {
                next_main_menu_state: MainMenuState::MapSelection,
                next_app_role: Some(AppRole::HostClient),
                netvy_mode: Some(NetvyMode::HostClient),
            },
            MainMenuButton::Multiplayer => MainMenuTransition {
                next_main_menu_state: MainMenuState::ServerSelection,
                next_app_role: None,
                netvy_mode: None,
            },
            MainMenuButton::SettingsMainMenu => MainMenuTransition {
                next_main_menu_state: MainMenuState::Settings,
                next_app_role: None,
                netvy_mode: None,
            },
            MainMenuButton::Credits => MainMenuTransition {
                next_main_menu_state: MainMenuState::Credits,
                next_app_role: None,
                netvy_mode: None,
            },
        }),
{
    match button {
        MainMenuButton::Singleplayer => MainMenuTransition {
            next_main_menu_state: MainMenuState::MapSelection,
            next_app_role: Some(AppRole::HostClient),
            netvy_mode: Some(NetvyMode::HostClient),
        },
        MainMenuButton::Multiplayer => MainMenuTransition {
            next_main_menu_state: MainMenuState::ServerSelection,
            next_app_role: None,
            netvy_mode: None,
        },
        MainMenuButton::SettingsMainMenu => MainMenuTransition {
            next_main_menu_state: MainMenuState::Settings,
            next_app_role: None,
            netvy_mode: None,
        },
        MainMenuButton::Credits => MainMenuTransition {
            next_main_menu_state: MainMenuState::Credits,
            next_app_role: None,
            netvy_mode: None,
        },
    }
}

/// Buttons that appear on several screens.
#[derive(Clone, Copy, Debug, PartialEq, Eq, Structural)]
pub enum CommonUiButton {
    ToGameModeSelection,
    BackToMainMenu,
    Quit,
}

/// What pressing a common button does.
#[derive(Clone, Copy, Debug, PartialEq, Eq, Structural)]
pub struct CommonUiAction {
    /// Exit the application.
    pub exit: bool,
    pub next_app_state: Option<AppState>,
    pub next_main_menu_state: Option<MainMenuState>,
    /// Tell the server to stop the game and disconnect our client.
    pub stop_game_and_disconnect: bool,
}

/// Back-to-main-menu also stops the game and disconnects, when our client exists.
pub fn handle_common_ui_button_press(button: CommonUiButton, own_client_exists: bool) -> (a: CommonUiAction)
    ensures
        a == (match button {
            CommonUiButton::Quit => CommonUiAction {
                exit: true, next_app_state: None, next_main_menu_state: None, stop_game_and_disconnect: false,
            },
            CommonUiButton::BackToMainMenu => CommonUiAction {
                exit: false,
                next_app_state: Some(AppState::MainMenu),
                next_main_menu_state: Some(MainMenuState::Root),
                stop_game_and_disconnect: own_client_exists,
            },
            CommonUiButton::ToGameModeSelection => CommonUiAction {
                exit: false,
                next_app_state: None,
                next_main_menu_state: Some(MainMenuState::GameModeSelection),
                stop_game_and_disconnect: false,
            },
        }),
{
    match button {
        CommonUiButton::Quit => CommonUiAction {
            exit: true, next_app_state: None, next_main_menu_state: None, stop_game_and_disconnect: false,
        },
        CommonUiButton::BackToMainMenu => CommonUiAction {
            exit: false,
            next_app_state: Some(AppState::MainMenu),
            next_main_menu_state: Some(MainMenuState::Root),
            stop_game_and_disconnect: own_client_exists,
        },
        CommonUiButton::ToGameModeSelection => CommonUiAction {
            exit: false,
            next_app_state: None,
            next_main_menu_state: Some(MainMenuState::GameModeSelection),
            stop_game_and_disconnect: false,
        },
    }
}

/// The action buttons at the bottom of the settings screen.
#[derive(Clone, Copy, Debug, PartialEq, Eq, Structural)]
pub enum SettingsMenuActionButton {
    Back,
    Save,
}

/// What a settings action button asks for.
#[derive(Clone, Copy, Debug, PartialEq, Eq, Structural)]
pub enum SettingsMenuAction {
    /// Go to another main-menu screen.
    GoTo(MainMenuState),
    /// Write the current settings to the settings file.
    SaveSettingsFile,
}

/// Back returns to the main menu's root; Save writes the settings file.
pub fn handle_settings_menu_action_button_pressed(button: SettingsMenuActionButton) -> (a: SettingsMenuAction)
    ensures
        a == (match button {
            SettingsMenuActionButton::Back => SettingsMenuAction::GoTo(MainMenuState::Root),
            SettingsMenuActionButton::Save => SettingsMenuAction::SaveSettingsFile,
        }),
{
    match button {
        SettingsMenuActionButton::Back => SettingsMenuAction::GoTo(MainMenuState::Root),
        SettingsMenuActionButton::Save => SettingsMenuAction::SaveSettingsFile,
    }
}

/// The tabs of the settings screen.
#[derive(Clone, Copy, Debug, PartialEq, Eq, Structural)]
pub enum SettingsCurrentTab {
    Audio,
    Graphics,
    Controls,
}

/// A tab button is highlighted exactly when its tab is the current one.
pub fn settings_tab_button_selected(button_tab: SettingsCurrentTab, current_tab: SettingsCurrentTab) -> (selected: bool)
    ensures
        selected == (button_tab == current_tab),
{
    button_tab == current_tab
}

pub open spec fn spec_loading_state_text(state: ClientLoadingState) -> Seq<char> {
    match state {
        ClientLoadingState::StartingServer => "Starting local server"@,
        ClientLoadingState::ConnectingToServer => "Connecting to the server"@,
    }
}

/// The text the loading screen shows for a loading state.
pub fn loading_state_text(state: ClientLoadingState) -> (text: String)
    ensures
        text@ == spec_loading_state_text(state),
{
    match state {
        ClientLoadingState::StartingServer => String::from_str("Starting local server"),
        ClientLoadingState::ConnectingToServer => String::from_str("Connecting to the server"),
    }
}

/// The restart button of the death screen: the wave game mode is retried, otherwise the
/// player respawns.
pub fn death_screen_restart_text(wave_game_running: bool) -> (text: String)
    ensures
        text@ == (if wave_game_running { "Retry"@ } else { "Respawn"@ }),
{
    if wave_game_running {
        String::from_str("Retry")
    } else {
        String::from_str("Respawn")
    }
}

/// The game-state debug overlay is either shown or hidden.
#[derive(Clone, Copy, Debug, PartialEq, Eq, Structural)]
pub enum AppDebugState {
    DebugHidden,
    DebugVisible,
}

pub open spec fn spec_toggle_debug(state: AppDebugState) -> AppDebugState {
    match state {
        AppDebugState::DebugHidden => AppDebugState::DebugVisible,
        AppDebugState::DebugVisible => AppDebugState::DebugHidden,
    }
}

/// The debug key shows a hidden overlay and hides a shown one.
pub fn toggle_debug(state: AppDebugState) -> (next: AppDebugState)
    ensures
        next == spec_toggle_debug(state),
{
    match state {
        AppDebugState::DebugHidden => AppDebugState::DebugVisible,
        AppDebugState::DebugVisible => AppDebugState::DebugHidden,
    }
}

/// Toggling the debug overlay twice restores it, and a toggle always changes it.
pub proof fn lemma_toggle_debug_involutive(state: AppDebugState)
    ensures
        spec_toggle_debug(spec_toggle_debug(state)) == state,
        spec_toggle_debug(state) != state,
{
}

} // verus!
