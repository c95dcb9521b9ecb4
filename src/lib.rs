//! Decision logic of the editor's application shell: what to do at startup,
//! on quit, when configuration files change, and how to set up windows,
//! logging and the login-shell environment. The surrounding program performs
//! the effects that these functions choose.

mod text;

pub mod app_menus;
pub mod auth;
pub mod installation;
pub mod keymap;
pub mod logging;
pub mod notices;
pub mod quit;
pub mod resources;
pub mod shell_env;
pub mod startup;
pub mod stories;
pub mod window;

pub use app_menus::{app_menus, dock_menu, Menu, MenuAction, MenuItem};
pub use auth::{after_credentials_check, auth_step, AuthStep};
pub use installation::{
    installation_id, installation_id_for, InstallationId, INSTALLATION_ID_KEY,
    LEGACY_INSTALLATION_ID_KEY,
};
pub use keymap::{
    load_default_keymap, observe_keymap_settings, user_keymap_update, BaseKeymapLayer,
    KeymapSettings, VIM_KEYMAP_PATH,
};
pub use logging::{log_time_offset, should_rotate_log, stdout_is_a_pty, MAX_LOG_BYTES};
pub use notices::{config_error_notice, launch_failure_detail, ConfigFile, ParseErrorNotice};
pub use quit::{windows_in_quit_order, PromptOutcome, QuitFlow, QuitPhase, QuitStep};
pub use resources::{embedded_font_paths, has_language_file, themes_dir_step, ThemesDirStep};
pub use shell_env::{env_output_after_marker, login_shell_args, LOGIN_SHELL_MARKER};
pub use startup::{
    last_workspace_locations, restore_source, session_locations, startup_action,
    RestoreOnStartup, RestoreSource, StartupAction,
};
pub use stories::UiTextFieldStory;
pub use window::{display_for_window, window_decorations, WindowDecorations};
