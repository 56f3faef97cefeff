//! Graphics and server settings, and the settings screens that change them.
use vstd::prelude::*;
use crate::flow::{AppRole, AppState, ClientLoadingState, NetvyMode, PendingGameConfig};

verus! {

#[derive(Clone, Copy, Debug, PartialEq, Eq, Structural)]
pub struct GraphicsSettings {
    pub borderless_fullscreen: bool,
    pub fps_overlay_shown: bool,
}

impl GraphicsSettings {
    /// Windowed, without the FPS overlay.
    pub fn new() -> (s: GraphicsSettings)
        ensures
            s == (GraphicsSettings { borderless_fullscreen: false, fps_overlay_shown: false }),
    {
        GraphicsSettings { borderless_fullscreen: false, fps_overlay_shown: false }
    }
}

/// The custom server the player connected to last.
pub struct ServerSettings {
    pub last_custom_server_address: String,
    pub last_custom_server_port: u16,
}

impl ServerSettings {
    /// No custom server yet.
    pub fn new() -> (s: ServerSettings)
        ensures
            s.last_custom_server_address@ == Seq::<char>::empty(),
            s.last_custom_server_port == 0,
    {
        ServerSettings { last_custom_server_address: String::new(), last_custom_server_port: 0 }
    }
}

/// How the game window is shown.
#[derive(Clone, Copy, Debug, PartialEq, Eq, Structural)]
pub enum WindowMode {
    Windowed,
    BorderlessFullscreen,
}

/// The window mode the graphics settings ask for.
pub fn window_mode_for(graphics: &GraphicsSettings) -> (mode: WindowMode)
    ensures
        mode == (if graphics.borderless_fullscreen { WindowMode::BorderlessFullscreen } else { WindowMode::Windowed }),
{
    if graphics.borderless_fullscreen {
        WindowMode::BorderlessFullscreen
    } else {
        WindowMode::Windowed
    }
}

/// The graphics settings that the graphics tab offers.
#[derive(Clone, Copy, Debug, PartialEq, Eq, Structural)]
pub enum GraphicsSettingType {
    BorderlessFullscreen,
    FpsOverlayShown,
}

pub open spec fn spec_setting_value(graphics: GraphicsSettings, setting: GraphicsSettingType) -> bool {
    match setting {
        GraphicsSettingType::BorderlessFullscreen => graphics.borderless_fullscreen,
        GraphicsSettingType::FpsOverlayShown => graphics.fps_overlay_shown,
    }
}

pub open spec fn spec_set_setting(graphics: GraphicsSettings, setting: GraphicsSettingType, value: bool) -> GraphicsSettings {
    match setting {
        GraphicsSettingType::BorderlessFullscreen => GraphicsSettings { borderless_fullscreen: value, ..graphics },
        GraphicsSettingType::FpsOverlayShown => GraphicsSettings { fps_overlay_shown: value, ..graphics },
    }
}

/// Pressing a setting's label flips that setting.
pub fn handle_graphics_setting_button_press(graphics: &mut GraphicsSettings, setting: GraphicsSettingType)
    ensures
        *final(graphics) == spec_set_setting(*old(graphics), setting, !spec_setting_value(*old(graphics), setting)),
{
    match setting {
        GraphicsSettingType::BorderlessFullscreen => {
            graphics.borderless_fullscreen = !graphics.borderless_fullscreen;
        },
        GraphicsSettingType::FpsOverlayShown => {
            graphics.fps_overlay_shown = !graphics.fps_overlay_shown;
        },
    }
}

/// Changing a setting's checkbox sets that setting to the checkbox's value; the checkbox
/// is then marked checked exactly when the value is true. Returns that mark.
pub fn observe_graphics_tab_checkboxes(graphics: &mut GraphicsSettings, setting: GraphicsSettingType, checked: bool) -> (mark_checked: bool)
    ensures
        *final(graphics) == spec_set_setting(*old(graphics), setting, checked),
        mark_checked == checked,
{
    match setting {
        GraphicsSettingType::BorderlessFullscreen => {
            graphics.borderless_fullscreen = checked;
        },
        GraphicsSettingType::FpsOverlayShown => {
            graphics.fps_overlay_shown = checked;
        },
    }
    checked
}

/// Pressing a setting twice restores the settings, and each press touches only that
/// setting.
pub proof fn lemma_setting_toggle_involutive(graphics: GraphicsSettings, setting: GraphicsSettingType)
    ensures
        ({
            let once = spec_set_setting(graphics, setting, !spec_setting_value(graphics, setting));
            &&& spec_set_setting(once, setting, !spec_setting_value(once, setting)) == graphics
            &&& spec_setting_value(once, setting) != spec_setting_value(graphics, setting)
        }),
{
}

/// What the window, the FPS overlay and the two checkboxes show after the graphics
/// settings changed.
#[derive(Clone, Copy, Debug, PartialEq, Eq, Structural)]
pub struct GraphicsApplied {
    pub window_mode: WindowMode,
    pub fps_overlay_enabled: bool,
    pub fullscreen_checkbox_checked: bool,
    pub fps_overlay_checkbox_checked: bool,
}

/// Applies changed graphics settings: the window mode and the FPS overlay follow them and
/// the checkboxes show them.
pub fn handle_graphics_game_settings_change(graphics: &GraphicsSettings) -> (applied: GraphicsApplied)
    ensures
        applied.window_mode == (if graphics.borderless_fullscreen { WindowMode::BorderlessFullscreen } else { WindowMode::Windowed }),
        applied.fps_overlay_enabled == graphics.fps_overlay_shown,
        applied.fullscreen_checkbox_checked == graphics.borderless_fullscreen,
        applied.fps_overlay_checkbox_checked == graphics.fps_overlay_shown,
{
    let fps_overlay_enabled = graphics.fps_overlay_shown;
    let fullscreen = graphics.borderless_fullscreen;
    GraphicsApplied {
        window_mode: window_mode_for(graphics),
        fps_overlay_enabled,
        fullscreen_checkbox_checked: fullscreen,
        fps_overlay_checkbox_checked: fps_overlay_enabled,
    }
}

/// The two ways to join a multiplayer game.
#[derive(Clone, Copy, Debug, PartialEq, Eq, Structural)]
pub enum ServerSelectionButton {
    ConnectToDedicatedServer,
    ConnectToCustomServer,
}

/// What joining a server sets up: the address to connect to, and the client-only
/// network configuration that skips starting a local server.
pub struct ServerConnection {
    pub server_address: String,
    pub netvy_mode: NetvyMode,
    pub next_app_state: AppState,
    pub next_app_role: AppRole,
    pub next_client_loading_state: ClientLoadingState,
    /// The game the server is asked to start: the pending configuration.
    pub start_game: PendingGameConfig,
}

/// Joins the official server, or the custom server typed in, which is then remembered
/// in the server settings, and asks for the pending game to start.
pub fn handle_buttons_interaction(
    button: ServerSelectionButton,
    official_server_address: &str,
    typed_address: &str,
    server_settings: &mut ServerSettings,
    pending_game_config: &PendingGameConfig,
) -> (c: ServerConnection)
    ensures
        c.start_game == *pending_game_config,
        button == ServerSelectionButton::ConnectToDedicatedServer ==> {
            &&& c.server_address@ == official_server_address@
            &&& final(server_settings).last_custom_server_address@ == old(server_settings).last_custom_server_address@
        },
        button == ServerSelectionButton::ConnectToCustomServer ==> {
            &&& c.server_address@ == typed_address@
            &&& final(server_settings).last_custom_server_address@ == typed_address@
        },
        final(server_settings).last_custom_server_port == old(server_settings).last_custom_server_port,
        c.netvy_mode == NetvyMode::Client,
        c.next_app_state == AppState::LoadingGame,
        c.next_app_role == AppRole::ClientOnly,
        c.next_client_loading_state == ClientLoadingState::ConnectingToServer,
{
    let server_address = match button {
        ServerSelectionButton::ConnectToDedicatedServer => String::from_str(official_server_address),
        ServerSelectionButton::ConnectToCustomServer => {
            server_settings.last_custom_server_address = String::from_str(typed_address);
            String::from_str(typed_address)
        },
    };
    ServerConnection {
        server_address,
        netvy_mode: NetvyMode::Client,
        next_app_state: AppState::LoadingGame,
        next_app_role: AppRole::ClientOnly,
        next_client_loading_state: ClientLoadingState::ConnectingToServer,
        start_game: *pending_game_config,
    }
}

} // verus!
