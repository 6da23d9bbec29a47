//! The tray menu: its entries, the commands behind them, the password
//! prompt each command asks for, and what a command does to the state.

use vstd::prelude::*;
use crate::texts::{self, Language};
use crate::scheduler::AppState;
use crate::clock::{MAX_TIMESTAMP, Moment};

verus! {

/// A command of the tray menu (also offered by the settings window's buttons).
#[derive(Clone, Copy, Debug, PartialEq, Eq)]
pub enum TrayCommand {
    /// Allow the internet for 30 minutes.
    Allow30,
    /// Allow the internet for an hour.
    Allow60,
    /// End a temporary allow and a manual override.
    CancelTemporary,
    /// Block or unblock now, whatever the schedule says.
    ToggleNow,
    /// Open the admin settings.
    Settings,
    /// Quit the app.
    Exit,
}

/// An entry of the tray menu.
#[derive(Clone, Copy, Debug, PartialEq, Eq)]
pub enum MenuEntry {
    /// A grayed-out line of text.
    Label(&'static str),
    /// A command, shown with its label.
    Command(TrayCommand),
    /// A separating line.
    Separator,
}

/// The menu: the current status, the temporary allows (with a cancel entry
/// only while one is active), the manual toggle and the settings, and exit.
pub open spec fn tray_menu_spec(l: Language, is_blocked: bool, has_temp_allow: bool) -> Seq<MenuEntry> {
    seq![
        MenuEntry::Label(if is_blocked { texts::tray_status_blocked_spec(l) } else { texts::tray_status_allowed_spec(l) }),
        MenuEntry::Separator,
        MenuEntry::Command(TrayCommand::Allow30),
        MenuEntry::Command(TrayCommand::Allow60),
    ] + (if has_temp_allow { seq![MenuEntry::Command(TrayCommand::CancelTemporary)] } else { Seq::empty() })
        + seq![
        MenuEntry::Separator,
        MenuEntry::Command(TrayCommand::ToggleNow),
        MenuEntry::Command(TrayCommand::Settings),
        MenuEntry::Separator,
        MenuEntry::Command(TrayCommand::Exit),
    ]
}

/// The tray menu for the current status.
pub fn tray_menu(l: Language, is_blocked: bool, has_temp_allow: bool) -> (r: Vec<MenuEntry>)
    ensures
        r@ == tray_menu_spec(l, is_blocked, has_temp_allow),
{
    let status = if is_blocked { texts::tray_status_blocked(l) } else { texts::tray_status_allowed(l) };
    let mut r: Vec<MenuEntry> = Vec::new();
    r.push(MenuEntry::Label(status));
    r.push(MenuEntry::Separator);
    r.push(MenuEntry::Command(TrayCommand::Allow30));
    r.push(MenuEntry::Command(TrayCommand::Allow60));
    if has_temp_allow {
        r.push(MenuEntry::Command(TrayCommand::CancelTemporary));
    }
    r.push(MenuEntry::Separator);
    r.push(MenuEntry::Command(TrayCommand::ToggleNow));
    r.push(MenuEntry::Command(TrayCommand::Settings));
    r.push(MenuEntry::Separator);
    r.push(MenuEntry::Command(TrayCommand::Exit));
    proof {
        assert(r@ =~= tray_menu_spec(l, is_blocked, has_temp_allow));
    }
    r
}

/// The menu item id of a command.
pub open spec fn command_id_spec(cmd: TrayCommand) -> usize {
    match cmd {
        TrayCommand::Allow30 => 3001,
        TrayCommand::Allow60 => 3002,
        TrayCommand::CancelTemporary => 3003,
        TrayCommand::ToggleNow => 3004,
        TrayCommand::Settings => 3005,
        TrayCommand::Exit => 3006,
    }
}

/// The menu item id of a command.
pub fn command_id(cmd: TrayCommand) -> (id: usize)
    ensures
        id == command_id_spec(cmd),
{
    match cmd {
        TrayCommand::Allow30 => 3001,
        TrayCommand::Allow60 => 3002,
        TrayCommand::CancelTemporary => 3003,
        TrayCommand::ToggleNow => 3004,
        TrayCommand::Settings => 3005,
        TrayCommand::Exit => 3006,
    }
}

/// The command of a menu item id, if it is one.
pub fn command_of(id: usize) -> (r: Option<TrayCommand>)
    ensures
        r matches Some(c) ==> command_id_spec(c) == id,
        r is None ==> forall|c: TrayCommand| command_id_spec(c) != id,
{
    if id == 3001 {
        Some(TrayCommand::Allow30)
    } else if id == 3002 {
        Some(TrayCommand::Allow60)
    } else if id == 3003 {
        Some(TrayCommand::CancelTemporary)
    } else if id == 3004 {
        Some(TrayCommand::ToggleNow)
    } else if id == 3005 {
        Some(TrayCommand::Settings)
    } else if id == 3006 {
        Some(TrayCommand::Exit)
    } else {
        None
    }
}

/// The label of a command in the menu.
pub open spec fn command_label_spec(l: Language, cmd: TrayCommand) -> &'static str {
    match cmd {
        TrayCommand::Allow30 => texts::btn_allow_30_spec(l),
        TrayCommand::Allow60 => texts::btn_allow_60_spec(l),
        TrayCommand::CancelTemporary => texts::btn_temp_cancel_spec(l),
        TrayCommand::ToggleNow => texts::btn_toggle_spec(l),
        TrayCommand::Settings => texts::menu_settings_spec(l),
        TrayCommand::Exit => texts::menu_exit_spec(l),
    }
}

/// The label of a command in the menu.
pub fn command_label(l: Language, cmd: TrayCommand) -> (s: &'static str)
    ensures
        s == command_label_spec(l, cmd),
{
    match cmd {
        TrayCommand::Allow30 => texts::btn_allow_30(l),
        TrayCommand::Allow60 => texts::btn_allow_60(l),
        TrayCommand::CancelTemporary => texts::btn_temp_cancel(l),
        TrayCommand::ToggleNow => texts::btn_toggle(l),
        TrayCommand::Settings => texts::menu_settings(l),
        TrayCommand::Exit => texts::menu_exit(l),
    }
}

/// The title of the password prompt before a command: the settings and exit
/// have their own titles, the other commands name their menu label.
pub open spec fn auth_prompt_title_spec(l: Language, cmd: TrayCommand) -> Seq<char> {
    match cmd {
        TrayCommand::Settings => texts::auth_title_settings_spec(l)@,
        TrayCommand::Exit => texts::auth_title_exit_spec(l)@,
        _ => texts::auth_title_spec(l, command_label_spec(l, cmd)@),
    }
}

/// The title of the password prompt before a command.
pub fn auth_prompt_title(l: Language, cmd: TrayCommand) -> (s: String)
    ensures
        s@ == auth_prompt_title_spec(l, cmd),
{
    match cmd {
        TrayCommand::Settings => String::from_str(texts::auth_title_settings(l)),
        TrayCommand::Exit => String::from_str(texts::auth_title_exit(l)),
        _ => texts::auth_title(l, command_label(l, cmd)),
    }
}

/// Whether a command changes the scheduler state (and is followed by a sync).
pub open spec fn changes_state(cmd: TrayCommand) -> bool {
    !(cmd is Settings) && !(cmd is Exit)
}

/// Carries out a command on the scheduler state: a temporary allow of 30
/// or 60 minutes from now, cancelling it together with a manual override,
/// or the manual toggle. The settings and exit leave the state alone, and so
/// does a temporary allow when the clock cannot be read. Returns whether the
/// state was changed.
pub fn apply_command(state: &mut AppState, cmd: TrayCommand) -> (changed: bool)
    ensures
        !(cmd is Allow30 || cmd is Allow60) ==> changed == changes_state(cmd),
        final(state).config == old(state).config,
        final(state).last_applied_blocked == old(state).last_applied_blocked,
        final(state).last_apply_attempt == old(state).last_apply_attempt,
        final(state).apply_failed == old(state).apply_failed,
        (cmd is Allow30 || cmd is Allow60) && changed ==> {
            let minutes: int = if cmd is Allow30 { 30 } else { 60 };
            &&& final(state).manual_override is None
            &&& exists|now: Moment| {
                &&& now.wf()
                &&& 0 <= now.secs <= MAX_TIMESTAMP
                &&& final(state).temp_allow_until matches Some(u) ==> u.wf() && u.secs == now.secs + minutes * 60 && u.nanos == now.nanos
                &&& now.secs + minutes * 60 <= MAX_TIMESTAMP ==> final(state).temp_allow_until is Some
            }
        },
        cmd is CancelTemporary ==> final(state).temp_allow_until is None && final(state).manual_override is None,
        cmd is ToggleNow ==> final(state).temp_allow_until is None
            && final(state).manual_override == Some(!(old(state).last_applied_blocked == Some(true))),
        !changed ==> final(state).temp_allow_until == old(state).temp_allow_until
            && final(state).manual_override == old(state).manual_override,
{
    match cmd {
        TrayCommand::Allow30 => state.set_temporary_allow(30).is_some(),
        TrayCommand::Allow60 => state.set_temporary_allow(60).is_some(),
        TrayCommand::CancelTemporary => {
            state.cancel_temporary_allow();
            state.clear_manual_override();
            true
        },
        TrayCommand::ToggleNow => {
            state.toggle_manual_override();
            true
        },
        TrayCommand::Settings | TrayCommand::Exit => false,
    }
}

} // verus!
