//! The tray controller: the tray icon's fixed configuration, the click
//! filter, the menu dispatch by item identifier, and the checkbox that
//! mirrors the auto-launch state.

use vstd::prelude::*;

verus! {

/// Mouse buttons as the platform reports them on a tray-icon click.
#[derive(Clone, Copy, Debug, PartialEq, Eq, Structural)]
pub enum TrayButton {
    Left,
    Right,
    Middle,
}

/// Whether the button was released or pressed.
#[derive(Clone, Copy, Debug, PartialEq, Eq, Structural)]
pub enum TrayButtonState {
    Up,
    Down,
}

/// What a tray-icon click does.
#[derive(Clone, Copy, Debug, PartialEq, Eq, Structural)]
pub enum TrayClickAction {
    /// Toggle or reveal the main window.
    ToggleMainWindow,
    /// Not a left-button release: do nothing.
    Ignore,
}

/// The filter: only a left-button release over the icon acts; every other
/// button or state combination is ignored.
pub open spec fn tray_click_decision(button: TrayButton, state: TrayButtonState) -> TrayClickAction {
    if button == TrayButton::Left && state == TrayButtonState::Up {
        TrayClickAction::ToggleMainWindow
    } else {
        TrayClickAction::Ignore
    }
}

/// Decides whether a tray-icon click reaches the main window.
pub fn tray_click_action(button: TrayButton, state: TrayButtonState) -> (a: TrayClickAction)
    ensures
        a == tray_click_decision(button, state),
{
    match (button, state) {
        (TrayButton::Left, TrayButtonState::Up) => TrayClickAction::ToggleMainWindow,
        _ => TrayClickAction::Ignore,
    }
}

/// Identifier of the checkable autostart menu item.
pub open spec fn autostart_item_id() -> Seq<char> {
    "toggle_autostart"@
}

/// Identifier of the quit menu item.
pub open spec fn quit_item_id() -> Seq<char> {
    "quit"@
}

/// The identifier of the checkable autostart menu item.
pub fn autostart_item_id_str() -> (r: &'static str)
    ensures
        r@ == autostart_item_id(),
{
    "toggle_autostart"
}

/// The identifier of the quit menu item.
pub fn quit_item_id_str() -> (r: &'static str)
    ensures
        r@ == quit_item_id(),
{
    "quit"
}

/// The closed set of menu commands; an unknown identifier is ignored, so
/// the menu can grow without crashing the dispatcher.
#[derive(Clone, Copy, Debug, PartialEq, Eq, Structural)]
pub enum MenuCommand {
    /// Toggle the auto-launch registration and refresh the checkbox.
    ToggleAutostart,
    /// Terminate the process.
    Quit,
    /// Unknown identifier: do nothing.
    Ignore,
}

/// Dispatch by item identifier.
pub open spec fn menu_decision(id: Seq<char>) -> MenuCommand {
    if id == autostart_item_id() {
        MenuCommand::ToggleAutostart
    } else if id == quit_item_id() {
        MenuCommand::Quit
    } else {
        MenuCommand::Ignore
    }
}

/// Maps a menu item identifier to its command.
pub fn menu_command_for(id: &str) -> (c: MenuCommand)
    ensures
        c == menu_decision(id@),
{
    let id_string = id.to_owned();
    if id_string == autostart_item_id_str().to_owned() {
        MenuCommand::ToggleAutostart
    } else if id_string == quit_item_id_str().to_owned() {
        MenuCommand::Quit
    } else {
        MenuCommand::Ignore
    }
}

/// The tray menu's one piece of mutable state: the autostart checkbox,
/// best-effort mirror of the OS registration.
pub struct TrayMenu {
    /// Checked state of the autostart item.
    pub autostart_checked: bool,
}

/// What the checkbox shows once a toggle's outcome is known: the returned
/// state on success; on failure it is left untouched (visible drift is
/// acceptable, crashing is not).
pub open spec fn checkbox_after_toggle(checked: bool, outcome: Result<bool, String>) -> bool {
    match outcome {
        Ok(b) => b,
        Err(_) => checked,
    }
}

impl TrayMenu {
    /// The menu as built at startup: the checkbox mirrors the registration
    /// state read at that moment.
    pub fn new(autostart_enabled: bool) -> (m: TrayMenu)
        ensures
            m.autostart_checked == autostart_enabled,
    {
        TrayMenu { autostart_checked: autostart_enabled }
    }

    /// Folds a toggle outcome into the checkbox; answers whether the
    /// platform checkbox must be updated (only after a successful toggle).
    pub fn apply_toggle_outcome(&mut self, outcome: &Result<bool, String>) -> (update: bool)
        ensures
            final(self).autostart_checked == checkbox_after_toggle(
                old(self).autostart_checked,
                *outcome,
            ),
            update == (outcome is Ok),
    {
        match outcome {
            Ok(b) => {
                self.autostart_checked = *b;
                true
            },
            Err(_) => false,
        }
    }
}

/// Law: after a successful toggle the checkbox shows exactly the state
/// the toggle reported; after a failed one it is exactly what it was.
pub proof fn lemma_menu_state_consistency(checked: bool, outcome: Result<bool, String>)
    ensures
        (outcome matches Ok(b) ==> checkbox_after_toggle(checked, outcome) == b),
        outcome is Err ==> checkbox_after_toggle(checked, outcome) == checked,
{
}

/// The tray icon's fixed configuration, handed to the platform layer at
/// startup. The icon resource itself is the platform's; its absence is a
/// fatal startup error outside this module.
pub struct TrayConfig {
    /// Identifier of the tray icon.
    pub tray_id: String,
    /// Hover tooltip.
    pub tooltip: String,
    /// A left click acts on the main window instead of opening the menu.
    pub show_menu_on_left_click: bool,
    /// Label of the checkable autostart item.
    pub autostart_label: String,
    /// Initial checked state of the autostart item.
    pub autostart_checked: bool,
    /// Label of the quit item.
    pub quit_label: String,
}

/// Builds the tray configuration; the checkbox starts at the registration
/// state read at startup.
pub fn tray_config(autostart_enabled: bool) -> (c: TrayConfig)
    ensures
        c.tray_id@ == "luwidget-tray"@,
        c.tooltip@ == "luWidget"@,
        !c.show_menu_on_left_click,
        c.autostart_label@ == "Start on boot"@,
        c.autostart_checked == autostart_enabled,
        c.quit_label@ == "Quit"@,
{
    TrayConfig {
        tray_id: "luwidget-tray".to_owned(),
        tooltip: "luWidget".to_owned(),
        show_menu_on_left_click: false,
        autostart_label: "Start on boot".to_owned(),
        autostart_checked: autostart_enabled,
        quit_label: "Quit".to_owned(),
    }
}

} // verus!
