//! The command surface and the menu-event handler: the shell state that
//! every externally invocable action works on, and the dispatch step that
//! keeps the tray checkbox consistent with the auto-launch toggle.

use vstd::prelude::*;

use crate::autolaunch::Registrar;
use crate::autolaunch::not_initialized_msg;
use crate::notification::NotificationManager;
use crate::notification::ShowCommand;
use crate::notification::show_command_well_formed;
use crate::tray::MenuCommand;
use crate::tray::TrayMenu;
use crate::tray::menu_command_for;
use crate::tray::menu_decision;

verus! {

/// The process exit code the quit command requests: always zero, whatever
/// else is in flight — quit is unconditional and immediate.
pub fn exit_app() -> (code: i32)
    ensures
        code == 0,
{
    0
}

/// What the platform layer still owes after a menu event was handled.
#[derive(Clone, Copy, Debug, PartialEq, Eq, Structural)]
pub enum MenuEffect {
    /// Nothing: the event was ignored, or the toggle failed and the
    /// checkbox deliberately keeps its old state.
    NoAction,
    /// Set the platform checkbox of the autostart item to this state.
    SetChecked(bool),
    /// Terminate the process with this exit code.
    Exit(i32),
}

/// The state the shell's commands and event handlers work on: the
/// mutex-guarded registrar handle, the notification window record, and
/// the tray menu mirror. The guard around this whole value serializes the
/// two toggle paths (menu and UI command).
pub struct Shell {
    /// The auto-launch registrar.
    pub registrar: Registrar,
    /// The notification window manager.
    pub notifications: NotificationManager,
    /// The tray menu's checkbox state.
    pub menu: TrayMenu,
}

impl Shell {
    /// Assembles the shell at startup.
    pub fn new(registrar: Registrar, autostart_enabled: bool) -> (s: Shell)
        ensures
            s.registrar == registrar,
            !s.notifications.has_window(),
            s.menu.autostart_checked == autostart_enabled,
    {
        Shell {
            registrar,
            notifications: NotificationManager::new(),
            menu: TrayMenu::new(autostart_enabled),
        }
    }

    /// The toggle-autostart command: flips the OS registration
    /// through the registrar. The distinct "not initialized" error comes
    /// exactly when platform setup failed; the menu mirror is not touched
    /// here — that is the menu handler's job.
    pub fn toggle_auto_launch(&self) -> (r: Result<bool, String>)
        ensures
            !self.registrar.initialized() ==> (r matches Err(m) && m@ == not_initialized_msg()),
            r is Ok ==> self.registrar.initialized(),
    {
        self.registrar.toggle()
    }

    /// Plans the show-notification command: the window command for
    /// the platform layer, closing any live notification window first.
    pub fn show_notification_plan(&self, message: &String) -> (c: ShowCommand)
        ensures
            show_command_well_formed(c, message@, self.notifications.has_window()),
    {
        self.notifications.begin_show(message)
    }

    /// Completes the show-notification command once the platform layer
    /// answered: on success the one live window carries the newest
    /// message, on failure none is left and the error is passed through.
    pub fn show_notification_done(&mut self, message: String, built: Result<(), String>) -> (r:
        Result<(), String>)
        ensures
            r == built,
            built is Ok ==> final(self).notifications.current_message() == Some(message@),
            built is Err ==> !final(self).notifications.has_window(),
            final(self).registrar == old(self).registrar,
            final(self).menu == old(self).menu,
    {
        self.notifications.finish_show(message, built)
    }

    /// The close-notification command: never fails; answers whether
    /// the platform layer must close a window, and afterwards none is
    /// recorded live.
    pub fn close_notification(&mut self) -> (issue_close: bool)
        ensures
            issue_close == old(self).notifications.has_window(),
            !final(self).notifications.has_window(),
            final(self).registrar == old(self).registrar,
            final(self).menu == old(self).menu,
    {
        self.notifications.close_notification()
    }

    /// One step of the menu-event handler, dispatching by item
    /// identifier. The quit item asks for an immediate exit with code
    /// zero; the autostart item runs the toggle and folds its outcome
    /// into the checkbox — updated to the reported state on success,
    /// untouched on failure; an unknown identifier does nothing. The
    /// notification record and the registrar are never touched.
    pub fn handle_menu_event(&mut self, id: &str) -> (effect: MenuEffect)
        ensures
            final(self).registrar == old(self).registrar,
            final(self).notifications == old(self).notifications,
            menu_decision(id@) == MenuCommand::Quit ==> effect == MenuEffect::Exit(0)
                && final(self).menu == old(self).menu,
            menu_decision(id@) == MenuCommand::Ignore ==> effect == MenuEffect::NoAction
                && final(self).menu == old(self).menu,
            menu_decision(id@) == MenuCommand::ToggleAutostart ==> match effect {
                MenuEffect::SetChecked(b) => old(self).registrar.initialized()
                    && final(self).menu.autostart_checked == b,
                MenuEffect::NoAction => final(self).menu == old(self).menu,
                MenuEffect::Exit(_) => false,
            },
            !old(self).registrar.initialized() && menu_decision(id@)
                == MenuCommand::ToggleAutostart ==> effect == MenuEffect::NoAction,
    {
        match menu_command_for(id) {
            MenuCommand::ToggleAutostart => {
                let outcome = self.registrar.toggle();
                let update = self.menu.apply_toggle_outcome(&outcome);
                if update {
                    MenuEffect::SetChecked(self.menu.autostart_checked)
                } else {
                    MenuEffect::NoAction
                }
            },
            MenuCommand::Quit => MenuEffect::Exit(exit_app()),
            MenuCommand::Ignore => MenuEffect::NoAction,
        }
    }
}

} // verus!
