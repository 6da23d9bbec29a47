//! Keeping the app alive: how the app is started, when a watchdog or the
//! guard service relaunches it, and the command lines they use.

use vstd::prelude::*;
use crate::tasks::GUARD_TASK_NAME;
use crate::text::{dec_nat, parse_u32, parse_u32_spec, push_dec};

verus! {

/// How the executable was asked to run.
#[derive(Clone, Copy, Debug, PartialEq, Eq)]
pub enum LaunchMode {
    /// As the Windows guard service (`--service`).
    Service,
    /// As the hidden watchdog of process `pid` (`--watchdog <pid>`; 0 when
    /// the id is missing or unreadable).
    Watchdog { pid: u32 },
    /// As the tray app, quietly when `--silent` is given.
    App { silent: bool },
}

/// Some argument equals `flag`.
pub open spec fn has_arg(args: Seq<Seq<char>>, flag: Seq<char>) -> bool {
    exists|i: int| 0 <= i < args.len() && #[trigger] args[i] == flag
}

/// The first position of `flag` among the arguments, from `i` on.
pub open spec fn arg_position(args: Seq<Seq<char>>, flag: Seq<char>, i: int) -> Option<int>
    decreases args.len() - i,
{
    if i < 0 || i >= args.len() {
        None
    } else if args[i] == flag {
        Some(i)
    } else {
        arg_position(args, flag, i + 1)
    }
}

/// The launch mode of a command line: the service flag wins, then the
/// watchdog flag with the process id after it, then the app.
pub open spec fn launch_mode_spec(args: Seq<Seq<char>>) -> LaunchMode {
    if has_arg(args, "--service"@) {
        LaunchMode::Service
    } else {
        match arg_position(args, "--watchdog"@, 0) {
            Some(p) => LaunchMode::Watchdog {
                pid: if p + 1 < args.len() {
                    match parse_u32_spec(args[p + 1]) { Some(v) => v, None => 0 }
                } else {
                    0
                },
            },
            None => LaunchMode::App { silent: has_arg(args, "--silent"@) },
        }
    }
}

proof fn lemma_arg_position(args: Seq<Seq<char>>, flag: Seq<char>, i: int)
    requires
        0 <= i <= args.len(),
        forall|k: int| 0 <= k < i ==> args[k] != flag,
    ensures
        arg_position(args, flag, i) is None <==> !has_arg(args, flag),
    decreases args.len() - i,
{
    if i < args.len() {
        if args[i] != flag {
            lemma_arg_position(args, flag, i + 1);
        }
    }
}

fn find_arg(args: &Vec<String>, flag: &str) -> (r: Option<usize>)
    ensures
        r matches Some(p) ==> p < args@.len() && arg_position(args@.map_values(|a: String| a@), flag@, 0) == Some(p as int),
        r is None ==> arg_position(args@.map_values(|a: String| a@), flag@, 0) is None,
        r is None <==> !has_arg(args@.map_values(|a: String| a@), flag@),
{
    let ghost v = args@.map_values(|a: String| a@);
    let target = String::from_str(flag);
    let mut i: usize = 0;
    while i < args.len()
        invariant
            i <= args@.len(),
            v == args@.map_values(|a: String| a@),
            target@ == flag@,
            arg_position(v, flag@, 0) == arg_position(v, flag@, i as int),
            forall|k: int| 0 <= k < i ==> v[k] != flag@,
        decreases args@.len() - i,
    {
        if args[i] == target {
            proof {
                assert(v[i as int] == flag@);
                lemma_arg_position(v, flag@, 0);
            }
            return Some(i);
        }
        i = i + 1;
    }
    proof {
        lemma_arg_position(v, flag@, 0);
    }
    None
}

/// The launch mode of the process's command line arguments.
pub fn launch_mode(args: &Vec<String>) -> (m: LaunchMode)
    ensures
        m == launch_mode_spec(args@.map_values(|a: String| a@)),
{
    let ghost v = args@.map_values(|a: String| a@);
    if find_arg(args, "--service").is_some() {
        return LaunchMode::Service;
    }
    let found = find_arg(args, "--watchdog");
    if let Some(p) = found {
        proof {
            assert(p < args@.len());
        }
        let n = args.len();
        let pid = if n - p > 1 {
            match parse_u32(args[p + 1].as_str()) {
                Some(v) => v,
                None => 0,
            }
        } else {
            0
        };
        return LaunchMode::Watchdog { pid };
    }
    let silent = find_arg(args, "--silent").is_some();
    LaunchMode::App { silent }
}

/// Seconds the watchdog waits before relaunching the app: long when the app
/// lived under 5 seconds (it is probably failing to start), short otherwise.
pub fn restart_delay_secs(target_lifetime_ms: u64) -> (s: u64)
    ensures
        s == if target_lifetime_ms < 5_000 { 30u64 } else { 2u64 },
{
    if target_lifetime_ms < 5_000 { 30 } else { 2 }
}

/// Seconds to pause before starting the next watchdog helper: longer when
/// the last one ran under 2 seconds.
pub fn respawn_pause_secs(helper_run_ms: u64) -> (s: u64)
    ensures
        s == if helper_run_ms < 2_000 { 5u64 } else { 1u64 },
{
    if helper_run_ms < 2_000 { 5 } else { 1 }
}

/// Whether the guard service starts the app now: only when it is not
/// running and the last start is at least 5 seconds ago (or there was none).
pub fn should_launch(app_running: bool, since_last_launch_ms: Option<u64>) -> (b: bool)
    ensures
        b == (!app_running && match since_last_launch_ms {
            Some(t) => t >= 5_000,
            None => true,
        }),
{
    if app_running {
        return false;
    }
    match since_last_launch_ms {
        Some(t) => t >= 5_000,
        None => true,
    }
}

/// `"<exe>" <suffix>`: a quoted executable path and its arguments.
pub open spec fn quoted_command(exe: Seq<char>, suffix: Seq<char>) -> Seq<char> {
    seq!['"'] + exe + seq!['"', ' '] + suffix
}

/// The command line that runs `exe` with `args`.
fn command_with(exe: &str, args: &str) -> (s: String)
    ensures
        s@ == quoted_command(exe@, args@),
{
    let mut s = String::from_str("\"");
    s.append(exe);
    s.append("\" ");
    s.append(args);
    proof {
        reveal_strlit("\"");
        reveal_strlit("\" ");
    }
    s
}

/// The command line of the watchdog helper for the app process `pid`.
pub fn watchdog_command(exe: &str, pid: u32) -> (s: String)
    ensures
        s@ == quoted_command(exe@, "--watchdog "@ + dec_nat(pid as nat)),
{
    let mut args = String::from_str("--watchdog ");
    push_dec(&mut args, pid as u64);
    command_with(exe, args.as_str())
}

/// The command line that starts the app quietly.
pub fn silent_command(exe: &str) -> (s: String)
    ensures
        s@ == quoted_command(exe@, "--silent"@),
{
    command_with(exe, "--silent")
}

/// The command line the guard service is registered with.
pub fn service_command(exe: &str) -> (s: String)
    ensures
        s@ == quoted_command(exe@, "--service"@),
{
    command_with(exe, "--service")
}

/// The command line that runs `schtasks.exe` of the Windows directory
/// `system_root` with `args`.
pub fn schtasks_command(system_root: &str, args: &str) -> (s: String)
    ensures
        s@ == seq!['"'] + system_root@ + "\\System32\\schtasks.exe\" "@ + args@,
{
    let mut s = String::from_str("\"");
    s.append(system_root);
    s.append("\\System32\\schtasks.exe\" ");
    s.append(args);
    proof {
        reveal_strlit("\"");
    }
    s
}

/// The `schtasks` arguments that register the guard task from the
/// definition file at `xml_path`.
pub fn guard_create_args(xml_path: &str) -> (s: String)
    ensures
        s@ == "/Create /F /TN \""@ + GUARD_TASK_NAME@ + "\" /XML \""@ + xml_path@ + seq!['"'],
{
    let mut s = String::from_str("/Create /F /TN \"");
    s.append(GUARD_TASK_NAME);
    s.append("\" /XML \"");
    s.append(xml_path);
    s.append("\"");
    proof {
        reveal_strlit("\"");
    }
    s
}

/// The `schtasks` arguments that remove the guard task.
pub fn guard_delete_args() -> (s: String)
    ensures
        s@ == "/Delete /F /TN \""@ + GUARD_TASK_NAME@ + seq!['"'],
{
    let mut s = String::from_str("/Delete /F /TN \"");
    s.append(GUARD_TASK_NAME);
    s.append("\"");
    proof {
        reveal_strlit("\"");
    }
    s
}

} // verus!
