//! Decisions behind the tray menu and the tray icon.

use vstd::prelude::*;
use crate::text::{parse_i32, signed_of, strip_prefix, text_eq};

verus! {

/// Volume chosen for a preset whose number cannot be read.
pub const FALLBACK_VOLUME: i32 = 50;

/// Physical point taken as the tray's place when the panel is opened from
/// the menu, which reports no position.
pub const MENU_TRAY_POSITION: (i32, i32) = (1800, 1040);

/// What a tray menu entry asks for.
#[derive(Clone, Copy, Debug, PartialEq, Eq, Structural)]
pub enum MenuAction {
    Quit,
    TogglePause,
    ToggleRainscaper,
    ResetPosition,
    /// Set the volume to this percentage.
    SetVolume(i32),
    /// The entry is not one this program knows.
    Nothing,
}

/// What to do with the control panel.
#[derive(Clone, Copy, Debug, PartialEq, Eq, Structural)]
pub enum PanelAction {
    Show,
    Hide,
}

/// The volume that a preset names: 0 for `mute`, the number for a number
/// that fits 32 bits, else the fallback.
pub open spec fn volume_of(preset: Seq<char>) -> i32 {
    if preset == "mute"@ {
        0
    } else {
        match signed_of(preset) {
            Some(v) if i32::MIN <= v <= i32::MAX => v as i32,
            _ => FALLBACK_VOLUME,
        }
    }
}

/// What the menu entry with the given id asks for.
pub open spec fn menu_action_of(id: Seq<char>) -> MenuAction {
    if id == "quit"@ {
        MenuAction::Quit
    } else if id == "pause"@ {
        MenuAction::TogglePause
    } else if id == "rainscaper"@ {
        MenuAction::ToggleRainscaper
    } else if id == "reset_position"@ {
        MenuAction::ResetPosition
    } else if "vol_"@.is_prefix_of(id) {
        MenuAction::SetVolume(volume_of(id.skip("vol_"@.len() as int)))
    } else {
        MenuAction::Nothing
    }
}

/// What the menu entry with the given id asks for.
pub fn handle_menu_event(id: &str) -> (action: MenuAction)
    ensures
        action == menu_action_of(id@),
{
    if text_eq(id, "quit") {
        MenuAction::Quit
    } else if text_eq(id, "pause") {
        MenuAction::TogglePause
    } else if text_eq(id, "rainscaper") {
        MenuAction::ToggleRainscaper
    } else if text_eq(id, "reset_position") {
        MenuAction::ResetPosition
    } else {
        match strip_prefix(id, "vol_") {
            Some(preset) => {
                if text_eq(preset, "mute") {
                    MenuAction::SetVolume(0)
                } else {
                    match parse_i32(preset) {
                        Some(v) => MenuAction::SetVolume(v),
                        None => MenuAction::SetVolume(FALLBACK_VOLUME),
                    }
                }
            },
            None => MenuAction::Nothing,
        }
    }
}

/// What a left click on the tray icon does to the panel: hides it when it is
/// visible, shows it otherwise.
pub fn handle_tray_click(panel_visible: bool) -> (action: PanelAction)
    ensures
        action == if panel_visible {
            PanelAction::Hide
        } else {
            PanelAction::Show
        },
{
    if panel_visible {
        PanelAction::Hide
    } else {
        PanelAction::Show
    }
}

/// The text of the menu entry that pauses or resumes the rain.
pub fn pause_menu_text(paused: bool) -> (text: &'static str)
    ensures
        text@ == if paused {
            "Resume"@
        } else {
            "Pause"@
        },
{
    if paused {
        "Resume"
    } else {
        "Pause"
    }
}

/// The text of the menu entry that opens or closes the panel.
pub fn rainscaper_menu_text(panel_visible: bool) -> (text: &'static str)
    ensures
        text@ == if panel_visible {
            "Close Rainscaper"@
        } else {
            "Open Rainscaper"@
        },
{
    if panel_visible {
        "Close Rainscaper"
    } else {
        "Open Rainscaper"
    }
}

} // verus!
