use kid_internet_lock::config::AppConfig;
use kid_internet_lock::lang;
use kid_internet_lock::menu::{
    apply_command, auth_prompt_title, command_id, command_label, command_of, tray_menu, MenuEntry,
    TrayCommand,
};
use kid_internet_lock::scheduler::AppState;
use kid_internet_lock::texts::Language;

const ALL: [TrayCommand; 6] = [
    TrayCommand::Allow30,
    TrayCommand::Allow60,
    TrayCommand::CancelTemporary,
    TrayCommand::ToggleNow,
    TrayCommand::Settings,
    TrayCommand::Exit,
];

#[test]
fn tray_menu_entries() {
    let m = tray_menu(Language::English, true, false);
    assert_eq!(
        m,
        vec![
            MenuEntry::Label(lang::TRAY_STATUS_BLOCKED),
            MenuEntry::Separator,
            MenuEntry::Command(TrayCommand::Allow30),
            MenuEntry::Command(TrayCommand::Allow60),
            MenuEntry::Separator,
            MenuEntry::Command(TrayCommand::ToggleNow),
            MenuEntry::Command(TrayCommand::Settings),
            MenuEntry::Separator,
            MenuEntry::Command(TrayCommand::Exit),
        ]
    );
    let m = tray_menu(Language::English, false, true);
    assert_eq!(m[0], MenuEntry::Label(lang::TRAY_STATUS_ALLOWED));
    assert_eq!(m[4], MenuEntry::Command(TrayCommand::CancelTemporary));
    assert_eq!(m.len(), 10);
}

#[test]
fn command_ids_and_labels() {
    let ids: Vec<usize> = ALL.iter().map(|c| command_id(*c)).collect();
    assert_eq!(ids, vec![3001, 3002, 3003, 3004, 3005, 3006]);
    for c in ALL {
        assert_eq!(command_of(command_id(c)), Some(c));
    }
    assert_eq!(command_of(3000), None);
    assert_eq!(command_of(3007), None);
    assert_eq!(command_label(Language::English, TrayCommand::Allow30), "Allow 30 Minutes");
    assert_eq!(command_label(Language::English, TrayCommand::Exit), "Exit (X)");
    assert_eq!(auth_prompt_title(Language::English, TrayCommand::Allow60), "Allow 1 Hour - Admin Authentication");
    assert_eq!(auth_prompt_title(Language::English, TrayCommand::ToggleNow), "Block / Unblock Now - Admin Authentication");
    assert_eq!(auth_prompt_title(Language::English, TrayCommand::Settings), lang::AUTH_TITLE_SETTINGS);
    assert_eq!(auth_prompt_title(Language::English, TrayCommand::Exit), lang::AUTH_TITLE_EXIT);
}

#[test]
fn commands_change_the_state() {
    let mut state = AppState::new(AppConfig::default());
    state.manual_override = Some(true);
    assert!(apply_command(&mut state, TrayCommand::Allow30));
    assert!(state.temp_allow_until.is_some());
    assert_eq!(state.manual_override, None);
    assert!(!apply_command(&mut state, TrayCommand::Settings));
    assert!(!apply_command(&mut state, TrayCommand::Exit));
    assert!(state.temp_allow_until.is_some());
    assert!(apply_command(&mut state, TrayCommand::ToggleNow));
    assert_eq!(state.manual_override, Some(true));
    assert!(state.temp_allow_until.is_none());
    assert!(apply_command(&mut state, TrayCommand::Allow60));
    state.manual_override = Some(false);
    assert!(apply_command(&mut state, TrayCommand::CancelTemporary));
    assert!(state.temp_allow_until.is_none());
    assert_eq!(state.manual_override, None);
}
