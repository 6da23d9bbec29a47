//! The Task Scheduler definitions that start the app at logon and keep it
//! alive, and the command lines around them.

use vstd::prelude::*;

verus! {

/// Name of the logon task that starts the app.
pub const AUTOSTART_TASK_NAME: &'static str = "KidInternetLock_AutoStart";

/// Name of the task that relaunches the app every minute when it is gone.
pub const GUARD_TASK_NAME: &'static str = "KidInternetLock_Guard";

/// One character escaped for XML text and attributes (`&`, `<`, `>`, `"`).
pub open spec fn xml_escape_char(c: char) -> Seq<char> {
    if c == '&' {
        "&amp;"@
    } else if c == '<' {
        "&lt;"@
    } else if c == '>' {
        "&gt;"@
    } else if c == '"' {
        "&quot;"@
    } else {
        seq![c]
    }
}

/// A text escaped for XML: each character escaped in turn.
pub open spec fn xml_escape_spec(s: Seq<char>) -> Seq<char>
    decreases s.len(),
{
    if s.len() == 0 {
        Seq::empty()
    } else {
        xml_escape_spec(s.drop_last()) + xml_escape_char(s.last())
    }
}

/// One character escaped for XML text (`&`, `<`, `>`; quotes kept).
pub open spec fn text_escape_char(c: char) -> Seq<char> {
    if c == '&' {
        "&amp;"@
    } else if c == '<' {
        "&lt;"@
    } else if c == '>' {
        "&gt;"@
    } else {
        seq![c]
    }
}

/// A text escaped for XML text content: each character escaped in turn.
pub open spec fn text_escape_spec(s: Seq<char>) -> Seq<char>
    decreases s.len(),
{
    if s.len() == 0 {
        Seq::empty()
    } else {
        text_escape_spec(s.drop_last()) + text_escape_char(s.last())
    }
}

/// Escapes `&`, `<`, `>` and `"` for XML.
pub fn xml_escape(value: &str) -> (out: String)
    ensures
        out@ == xml_escape_spec(value@),
{
    let n = value.unicode_len();
    let mut out = String::new();
    let mut i: usize = 0;
    while i < n
        invariant
            i <= n,
            n == value@.len(),
            out@ == xml_escape_spec(value@.take(i as int)),
        decreases n - i,
    {
        let c = value.get_char(i);
        proof {
            assert(value@.take(i + 1).drop_last() =~= value@.take(i as int));
        }
        if c == '&' {
            out.append("&amp;");
        } else if c == '<' {
            out.append("&lt;");
        } else if c == '>' {
            out.append("&gt;");
        } else if c == '"' {
            out.append("&quot;");
        } else {
            let one = value.substring_char(i, i + 1);
            proof {
                assert(one@ =~= seq![c]);
            }
            out.append(one);
        }
        i = i + 1;
    }
    proof {
        assert(value@.take(n as int) =~= value@);
    }
    out
}

/// Escapes `&`, `<` and `>` for XML text content.
pub fn text_escape(value: &str) -> (out: String)
    ensures
        out@ == text_escape_spec(value@),
{
    let n = value.unicode_len();
    let mut out = String::new();
    let mut i: usize = 0;
    while i < n
        invariant
            i <= n,
            n == value@.len(),
            out@ == text_escape_spec(value@.take(i as int)),
        decreases n - i,
    {
        let c = value.get_char(i);
        proof {
            assert(value@.take(i + 1).drop_last() =~= value@.take(i as int));
        }
        if c == '&' {
            out.append("&amp;");
        } else if c == '<' {
            out.append("&lt;");
        } else if c == '>' {
            out.append("&gt;");
        } else {
            let one = value.substring_char(i, i + 1);
            proof {
                assert(one@ =~= seq![c]);
            }
            out.append(one);
        }
        i = i + 1;
    }
    proof {
        assert(value@.take(n as int) =~= value@);
    }
    out
}

/// The account to run a task as: `DOMAIN\user` when both are known and
/// non-empty, else the user name when non-empty, else none.
pub open spec fn user_principal_spec(domain: Option<Seq<char>>, name: Option<Seq<char>>) -> Option<Seq<char>> {
    match (domain, name) {
        (Some(d), Some(n)) if d.len() > 0 && n.len() > 0 => Some(d + seq!['\\'] + n),
        (_, Some(n)) if n.len() > 0 => Some(n),
        _ => None,
    }
}

/// The text of an optional string.
pub open spec fn opt_text(o: Option<&str>) -> Option<Seq<char>> {
    match o {
        Some(s) => Some(s@),
        None => None,
    }
}

/// The account to run a task as, from the `USERDOMAIN` and `USERNAME` values.
pub fn user_principal(domain: Option<&str>, name: Option<&str>) -> (r: Option<String>)
    ensures
        r matches Some(s) ==> user_principal_spec(opt_text(domain), opt_text(name)) == Some(s@),
        r is None ==> user_principal_spec(opt_text(domain), opt_text(name)) is None,
{
    match (domain, name) {
        (Some(d), Some(n)) if !d.is_empty() && !n.is_empty() => {
            let mut s = String::from_str(d);
            s.append("\\");
            s.append(n);
            proof {
                reveal_strlit("\\");
            }
            Some(s)
        },
        (_, Some(n)) if !n.is_empty() => Some(String::from_str(n)),
        _ => None,
    }
}

/// The `<UserId>` line of the autostart task, empty without a user.
pub open spec fn user_id_line_spec(user: Seq<char>) -> Seq<char> {
    if user.len() == 0 {
        Seq::empty()
    } else {
        "      <UserId>"@ + xml_escape_spec(user) + "</UserId>\n"@
    }
}

/// The autostart task definition: run `exe` with `--silent` at logon with the
/// highest privileges, for `user` when one is given.
pub open spec fn autostart_task_xml_spec(exe: Seq<char>, user: Seq<char>) -> Seq<char> {
    "<?xml version=\"1.0\" encoding=\"UTF-16\"?>\n<Task version=\"1.2\" xmlns=\"http://schemas.microsoft.com/windows/2004/02/mit/task\">\n<RegistrationInfo>\n<Description>KidInternetLock startup at logon with highest privileges</Description>\n</RegistrationInfo>\n<Principals>\n<Principal id=\"Author\">\n"@ + user_id_line_spec(user)
        + "<LogonType>InteractiveToken</LogonType>\n<RunLevel>HighestAvailable</RunLevel>\n</Principal>\n</Principals>\n<Settings>\n<MultipleInstancesPolicy>IgnoreNew</MultipleInstancesPolicy>\n<DisallowStartIfOnBatteries>false</DisallowStartIfOnBatteries>\n<StopIfGoingOnBatteries>false</StopIfGoingOnBatteries>\n<StartWhenAvailable>true</StartWhenAvailable>\n<AllowStartOnDemand>true</AllowStartOnDemand>\n<Enabled>true</Enabled>\n<Hidden>false</Hidden>\n<RunOnlyIfIdle>false</RunOnlyIfIdle>\n<WakeToRun>false</WakeToRun>\n<ExecutionTimeLimit>PT0S</ExecutionTimeLimit>\n<Priority>7</Priority>\n</Settings>\n<Triggers>\n<LogonTrigger>\n<Enabled>true</Enabled>\n"@ + user_id_line_spec(user)
        + "</LogonTrigger>\n</Triggers>\n<Actions Context=\"Author\">\n<Exec>\n<Command>\""@ + xml_escape_spec(exe)
        + "\"</Command>\n<Arguments>--silent</Arguments>\n</Exec>\n</Actions>\n</Task>\n"@
}

/// The autostart task definition for the executable at `exe` and the
/// account `user` (empty when unknown).
pub fn autostart_task_xml(exe: &str, user: &str) -> (xml: String)
    ensures
        xml@ == autostart_task_xml_spec(exe@, user@),
{
    let mut line = String::new();
    if !user.is_empty() {
        line.append("      <UserId>");
        let u = xml_escape(user);
        line.append(u.as_str());
        line.append("</UserId>\n");
    }
    let mut xml = String::from_str("<?xml version=\"1.0\" encoding=\"UTF-16\"?>\n<Task version=\"1.2\" xmlns=\"http://schemas.microsoft.com/windows/2004/02/mit/task\">\n<RegistrationInfo>\n<Description>KidInternetLock startup at logon with highest privileges</Description>\n</RegistrationInfo>\n<Principals>\n<Principal id=\"Author\">\n");
    xml.append(line.as_str());
    xml.append("<LogonType>InteractiveToken</LogonType>\n<RunLevel>HighestAvailable</RunLevel>\n</Principal>\n</Principals>\n<Settings>\n<MultipleInstancesPolicy>IgnoreNew</MultipleInstancesPolicy>\n<DisallowStartIfOnBatteries>false</DisallowStartIfOnBatteries>\n<StopIfGoingOnBatteries>false</StopIfGoingOnBatteries>\n<StartWhenAvailable>true</StartWhenAvailable>\n<AllowStartOnDemand>true</AllowStartOnDemand>\n<Enabled>true</Enabled>\n<Hidden>false</Hidden>\n<RunOnlyIfIdle>false</RunOnlyIfIdle>\n<WakeToRun>false</WakeToRun>\n<ExecutionTimeLimit>PT0S</ExecutionTimeLimit>\n<Priority>7</Priority>\n</Settings>\n<Triggers>\n<LogonTrigger>\n<Enabled>true</Enabled>\n");
    xml.append(line.as_str());
    xml.append("</LogonTrigger>\n</Triggers>\n<Actions Context=\"Author\">\n<Exec>\n<Command>\"");
    let e = xml_escape(exe);
    xml.append(e.as_str());
    xml.append("\"</Command>\n<Arguments>--silent</Arguments>\n</Exec>\n</Actions>\n</Task>\n");
    xml
}

/// One time trigger of the guard task, starting at `boundary` and repeating
/// every minute.
pub open spec fn guard_trigger_spec(boundary: Seq<char>) -> Seq<char> {
    "    <TimeTrigger>\n<StartBoundary>"@ + boundary + "</StartBoundary>\n<Repetition>\n<Interval>PT1M</Interval>\n<StopAtDurationEnd>false</StopAtDurationEnd>\n</Repetition>\n<Enabled>true</Enabled>\n</TimeTrigger>\n"@
}

/// The guard task's triggers for the given start times, in order.
pub open spec fn guard_triggers_spec(boundaries: Seq<Seq<char>>) -> Seq<char>
    decreases boundaries.len(),
{
    if boundaries.len() == 0 {
        Seq::empty()
    } else {
        guard_triggers_spec(boundaries.drop_last()) + guard_trigger_spec(boundaries.last())
    }
}

/// The guard task definition: relaunch `exe` with `--silent` every minute
/// from each of the start times, as `user` with the highest privileges.
pub open spec fn guard_task_xml_spec(exe: Seq<char>, user: Seq<char>, boundaries: Seq<Seq<char>>) -> Seq<char> {
    "<?xml version=\"1.0\" encoding=\"UTF-16\"?>\n<Task version=\"1.2\" xmlns=\"http://schemas.microsoft.com/windows/2004/02/mit/task\">\n<RegistrationInfo>\n<Description>KidInternetLock keep-alive</Description>\n</RegistrationInfo>\n<Principals>\n<Principal id=\"Author\">\n<UserId>"@ + text_escape_spec(user)
        + "</UserId>\n<LogonType>InteractiveToken</LogonType>\n<RunLevel>HighestAvailable</RunLevel>\n</Principal>\n</Principals>\n<Settings>\n<MultipleInstancesPolicy>IgnoreNew</MultipleInstancesPolicy>\n<DisallowStartIfOnBatteries>false</DisallowStartIfOnBatteries>\n<StopIfGoingOnBatteries>false</StopIfGoingOnBatteries>\n<StartWhenAvailable>true</StartWhenAvailable>\n<AllowStartOnDemand>true</AllowStartOnDemand>\n<Enabled>true</Enabled>\n<Hidden>false</Hidden>\n<RunOnlyIfIdle>false</RunOnlyIfIdle>\n<WakeToRun>false</WakeToRun>\n<ExecutionTimeLimit>PT0S</ExecutionTimeLimit>\n<Priority>7</Priority>\n</Settings>\n<Triggers>\n"@ + guard_triggers_spec(boundaries)
        + "  </Triggers>\n<Actions Context=\"Author\">\n<Exec>\n<Command>\""@ + text_escape_spec(exe)
        + "\"</Command>\n<Arguments>--silent</Arguments>\n</Exec>\n</Actions>\n</Task>\n"@
}

/// The guard task definition for the executable at `exe`, the account
/// `user` and the trigger start times `boundaries` (`%Y-%m-%dT%H:%M:%S`).
pub fn guard_task_xml(exe: &str, user: &str, boundaries: &Vec<String>) -> (xml: String)
    ensures
        xml@ == guard_task_xml_spec(exe@, user@, boundaries@.map_values(|b: String| b@)),
{
    let mut triggers = String::new();
    let mut i: usize = 0;
    while i < boundaries.len()
        invariant
            i <= boundaries@.len(),
            triggers@ == guard_triggers_spec(boundaries@.take(i as int).map_values(|b: String| b@)),
        decreases boundaries@.len() - i,
    {
        proof {
            assert(boundaries@.take(i + 1).map_values(|b: String| b@).drop_last()
                =~= boundaries@.take(i as int).map_values(|b: String| b@));
        }
        triggers.append("    <TimeTrigger>\n<StartBoundary>");
        triggers.append(boundaries[i].as_str());
        triggers.append("</StartBoundary>\n<Repetition>\n<Interval>PT1M</Interval>\n<StopAtDurationEnd>false</StopAtDurationEnd>\n</Repetition>\n<Enabled>true</Enabled>\n</TimeTrigger>\n");
        i = i + 1;
    }
    proof {
        assert(boundaries@.take(boundaries@.len() as int) =~= boundaries@);
    }
    let mut xml = String::from_str("<?xml version=\"1.0\" encoding=\"UTF-16\"?>\n<Task version=\"1.2\" xmlns=\"http://schemas.microsoft.com/windows/2004/02/mit/task\">\n<RegistrationInfo>\n<Description>KidInternetLock keep-alive</Description>\n</RegistrationInfo>\n<Principals>\n<Principal id=\"Author\">\n<UserId>");
    let u = text_escape(user);
    xml.append(u.as_str());
    xml.append("</UserId>\n<LogonType>InteractiveToken</LogonType>\n<RunLevel>HighestAvailable</RunLevel>\n</Principal>\n</Principals>\n<Settings>\n<MultipleInstancesPolicy>IgnoreNew</MultipleInstancesPolicy>\n<DisallowStartIfOnBatteries>false</DisallowStartIfOnBatteries>\n<StopIfGoingOnBatteries>false</StopIfGoingOnBatteries>\n<StartWhenAvailable>true</StartWhenAvailable>\n<AllowStartOnDemand>true</AllowStartOnDemand>\n<Enabled>true</Enabled>\n<Hidden>false</Hidden>\n<RunOnlyIfIdle>false</RunOnlyIfIdle>\n<WakeToRun>false</WakeToRun>\n<ExecutionTimeLimit>PT0S</ExecutionTimeLimit>\n<Priority>7</Priority>\n</Settings>\n<Triggers>\n");
    xml.append(triggers.as_str());
    xml.append("  </Triggers>\n<Actions Context=\"Author\">\n<Exec>\n<Command>\"");
    let e = text_escape(exe);
    xml.append(e.as_str());
    xml.append("\"</Command>\n<Arguments>--silent</Arguments>\n</Exec>\n</Actions>\n</Task>\n");
    xml
}

} // verus!
