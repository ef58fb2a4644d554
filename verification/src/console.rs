//! The console window's own decisions: the tray menu, closing the window,
//! and the fixed addresses and settings it uses.
use vstd::prelude::*;
use crate::config::{AppSettings, default_settings_spec};
use crate::text::str_eq;

verus! {

/// What a tray menu entry does.
#[derive(Debug, Clone, Copy, PartialEq, Eq, Structural)]
pub enum TrayAction {
    /// Show, restore and focus the main window.
    ShowWindow,
    /// Hide the main window.
    HideWindow,
    /// Open NapCat's WebUI in the browser.
    OpenNapcatWebui,
    /// Quit the console.
    Quit,
    /// An unknown entry does nothing.
    Nothing,
}

/// The action of the tray menu entry with this id.
pub fn tray_menu_action(id: &str) -> (a: TrayAction)
    ensures
        a == (if id@ == "show"@ {
            TrayAction::ShowWindow
        } else if id@ == "hide"@ {
            TrayAction::HideWindow
        } else if id@ == "napcat"@ {
            TrayAction::OpenNapcatWebui
        } else if id@ == "quit"@ {
            TrayAction::Quit
        } else {
            TrayAction::Nothing
        }),
{
    if str_eq(id, "show") {
        TrayAction::ShowWindow
    } else if str_eq(id, "hide") {
        TrayAction::HideWindow
    } else if str_eq(id, "napcat") {
        TrayAction::OpenNapcatWebui
    } else if str_eq(id, "quit") {
        TrayAction::Quit
    } else {
        TrayAction::Nothing
    }
}

/// What a request to close the main window does.
#[derive(Debug, Clone, Copy, PartialEq, Eq, Structural)]
pub enum CloseAction {
    /// Quit the console.
    Exit,
    /// Keep running in the tray.
    HideToTray,
}

/// Closing the window quits only when the settings say `exit`; the close
/// itself is always intercepted.
pub fn close_request_action(settings: &AppSettings) -> (a: CloseAction)
    ensures
        a == (if settings.close_action@ == "exit"@ { CloseAction::Exit } else { CloseAction::HideToTray }),
{
    if settings.close_exits() {
        CloseAction::Exit
    } else {
        CloseAction::HideToTray
    }
}

/// With the default settings, closing the window keeps the console running in the tray.
pub proof fn law_default_close_hides(settings: AppSettings)
    requires
        default_settings_spec(settings),
    ensures
        settings.close_action@ != "exit"@,
{
    reveal_strlit("exit");
    reveal_strlit("minimize_to_tray");
    assert(settings.close_action@.len() != "exit"@.len());
}

/// NapCat's WebUI, where the QR code must be scanned.
pub fn napcat_webui_url() -> (u: &'static str)
    ensures
        u@ == "http://localhost:6099/webui/"@,
{
    proof {
        reveal_strlit("http://localhost:6099/webui/");
    }
    "http://localhost:6099/webui/"
}

/// The WebUI configuration the wizard writes for NapCat.
pub struct NapcatWebuiSettings {
    pub host: String,
    pub port: u16,
    pub token: String,
    pub login_rate: u32,
}

pub fn napcat_webui_settings() -> (s: NapcatWebuiSettings)
    ensures
        s.host@ == "127.0.0.1"@,
        s.port == 6099,
        s.token@ == "yunzai-app-token"@,
        s.login_rate == 10,
{
    NapcatWebuiSettings {
        host: String::from_str("127.0.0.1"),
        port: 6099,
        token: String::from_str("yunzai-app-token"),
        login_rate: 10,
    }
}

} // verus!
