use kid_internet_lock::guard::{
    guard_create_args, guard_delete_args, launch_mode, respawn_pause_secs, restart_delay_secs,
    schtasks_command, service_command, should_launch, silent_command, watchdog_command, LaunchMode,
};

fn args(a: &[&str]) -> Vec<String> {
    a.iter().map(|s| s.to_string()).collect()
}

#[test]
fn launch_modes() {
    assert_eq!(launch_mode(&args(&["app.exe"])), LaunchMode::App { silent: false });
    assert_eq!(launch_mode(&args(&["app.exe", "--silent"])), LaunchMode::App { silent: true });
    assert_eq!(launch_mode(&args(&["app.exe", "--watchdog", "1234"])), LaunchMode::Watchdog { pid: 1234 });
    assert_eq!(launch_mode(&args(&["app.exe", "--watchdog"])), LaunchMode::Watchdog { pid: 0 });
    assert_eq!(launch_mode(&args(&["app.exe", "--watchdog", "abc"])), LaunchMode::Watchdog { pid: 0 });
    assert_eq!(
        launch_mode(&args(&["app.exe", "--silent", "--watchdog", "7"])),
        LaunchMode::Watchdog { pid: 7 }
    );
    assert_eq!(
        launch_mode(&args(&["app.exe", "--watchdog", "7", "--service"])),
        LaunchMode::Service
    );
    assert_eq!(launch_mode(&args(&[])), LaunchMode::App { silent: false });
}

#[test]
fn relaunch_timings() {
    assert_eq!(restart_delay_secs(0), 30);
    assert_eq!(restart_delay_secs(4_999), 30);
    assert_eq!(restart_delay_secs(5_000), 2);
    assert_eq!(respawn_pause_secs(1_999), 5);
    assert_eq!(respawn_pause_secs(2_000), 1);
    assert!(!should_launch(true, None));
    assert!(!should_launch(true, Some(60_000)));
    assert!(should_launch(false, None));
    assert!(!should_launch(false, Some(4_999)));
    assert!(should_launch(false, Some(5_000)));
}

#[test]
fn command_lines() {
    assert_eq!(watchdog_command("C:\\a b\\app.exe", 42), "\"C:\\a b\\app.exe\" --watchdog 42");
    assert_eq!(silent_command("C:\\app.exe"), "\"C:\\app.exe\" --silent");
    assert_eq!(service_command("C:\\app.exe"), "\"C:\\app.exe\" --service");
    assert_eq!(
        schtasks_command("C:\\Windows", "/Query"),
        "\"C:\\Windows\\System32\\schtasks.exe\" /Query"
    );
    assert_eq!(
        guard_create_args("C:\\t.xml"),
        "/Create /F /TN \"KidInternetLock_Guard\" /XML \"C:\\t.xml\""
    );
    assert_eq!(guard_delete_args(), "/Delete /F /TN \"KidInternetLock_Guard\"");
}
