//! Start at session opening, through a scheduled task.
//!
//! The obvious way — a value under `HKCU\...\CurrentVersion\Run` — starts the program
//! with the session's filtered token, hence **without elevation**. A scheduled task
//! triggered at logon with « run with highest privileges » starts elevated, silently. The
//! price is a UAC prompt **when the box is ticked**, once.

use vstd::prelude::*;

use crate::text::{
    concat, concat3, decimal, decimal_u64, escape_quotes, escaped_quotes, has_part, join, joined,
    lowercase, str_contains, str_eq, to_lowercase, views,
};
use crate::power::{detail, failure_detail};

verus! {

/// Name of the task, as it appears in the Windows task scheduler.
pub const TASK: &'static str = "Thermal Lab";

/// Name under which the previous implementation wrote in the `Run` key. Kept while the
/// machines that knew it are cleaned.
pub const LEGACY_RUN_VALUE: &'static str = "thermal-lab";

/// Argument set by the automatic start: the session opens, the application settles in
/// the notification area without claiming the screen.
pub const SILENT_FLAG: &'static str = "--silent";

/// Wait for `schtasks` started through elevation: beyond it, the UAC prompt stayed
/// unanswered.
pub const ELEVATED_TIMEOUT_MS: u32 = 120_000;

/// The user closed the UAC prompt.
pub const ERROR_CANCELLED: u32 = 1223;

/// Whether the panel opens at launch: not when the automatic start launched the
/// application, which then settles in the notification area.
pub fn shows_on_launch(args: &Vec<String>) -> (b: bool)
    ensures
        b == !(exists|i: int| 0 <= i < args.len() && #[trigger] args@[i]@ == SILENT_FLAG@),
{
    let mut i: usize = 0;
    while i < args.len()
        invariant
            i <= args.len(),
            forall|k: int| 0 <= k < i ==> (#[trigger] args@[k])@ != SILENT_FLAG@,
        decreases args.len() - i,
    {
        if str_eq(args[i].as_str(), SILENT_FLAG) {
            return false;
        }
        i = i + 1;
    }
    true
}

/// The task (read as XML) points at the executable, whatever the case: Windows does not
/// tell paths apart by case. The scheduler stores the command alone in `<Command>`, so
/// recognising it needs no parsing of the document.
pub open spec fn targets(xml: Seq<char>, exe: Seq<char>) -> bool {
    has_part(lowercase(xml), lowercase(exe))
}

/// True when the task **points at this executable**. Being content with its existence
/// would be a trap: moving the binary leaves the task pointing at the old place.
pub fn task_targets(xml: &str, exe: &str) -> (b: bool)
    ensures
        b == targets(xml@, exe@),
{
    let x = to_lowercase(xml);
    let e = to_lowercase(exe);
    str_contains(x.as_str(), e.as_str())
}

/// An argument as `ShellExecuteEx` must receive it: in quotes, inner quotes escaped, when
/// it holds a space or a quote; as it is otherwise.
pub open spec fn quoted(arg: Seq<char>) -> Seq<char> {
    if !has_part(arg, " "@) && !has_part(arg, "\""@) {
        arg
    } else {
        "\""@ + escaped_quotes(arg) + "\""@
    }
}

pub fn quote(arg: &str) -> (q: String)
    ensures
        q@ == quoted(arg@),
{
    if !str_contains(arg, " ") && !str_contains(arg, "\"") {
        return arg.to_owned();
    }
    let inner = escape_quotes(arg);
    concat3("\"", inner.as_str(), "\"")
}

/// The account the task runs under: `domain\name`, or the bare name without a domain.
pub open spec fn account(domain: Option<String>, name: Option<String>) -> Option<Seq<char>> {
    match (domain, name) {
        (Some(d), Some(n)) => Some(d@ + "\\"@ + n@),
        (_, Some(n)) => Some(n@),
        _ => None,
    }
}

/// The arguments of `schtasks` that create the task: at logon, with the highest
/// privileges, under the current account and only while it is open (`/IT`, without which
/// a password would be asked), replacing a task of the same name (`/F`).
pub open spec fn create_line(exe: Seq<char>, user: Seq<char>) -> Seq<Seq<char>> {
    seq![
        "/Create"@,
        "/TN"@,
        TASK@,
        "/TR"@,
        "\""@ + exe + "\" "@ + SILENT_FLAG@,
        "/SC"@,
        "ONLOGON"@,
        "/RL"@,
        "HIGHEST"@,
        "/RU"@,
        user,
        "/IT"@,
        "/F"@,
    ]
}

/// The arguments of `schtasks` that delete the task, without prompting.
pub open spec fn delete_line() -> Seq<Seq<char>> {
    seq!["/Delete"@, "/TN"@, TASK@, "/F"@]
}

/// The arguments that create the task. `exe` is the path of the running executable (or
/// why it could not be found), `domain` and `name` the `USERDOMAIN` and `USERNAME` of the
/// session.
pub fn create_args(exe: Result<String, String>, domain: Option<String>, name: Option<String>) -> (r: Result<
    Vec<String>,
    String,
>)
    ensures
        exe is Err ==> (r matches Err(e) && e@ == "chemin de l'executable introuvable : "@
            + exe->Err_0@),
        exe is Ok && account(domain, name) is None ==> (r matches Err(e) && e@
            == "compte utilisateur courant indeterminable"@),
        exe is Ok && account(domain, name) is Some ==> (r matches Ok(args) && views(args@)
            == create_line(exe->Ok_0@, account(domain, name)->0)),
{
    let exe = match exe {
        Ok(p) => p,
        Err(e) => return Err(concat("chemin de l'executable introuvable : ", e.as_str())),
    };
    let user = match (domain, name) {
        (Some(d), Some(n)) => concat3(d.as_str(), "\\", n.as_str()),
        (_, Some(n)) => n,
        _ => return Err("compte utilisateur courant indeterminable".to_owned()),
    };
    let action = concat3("\"", exe.as_str(), "\" ");
    let action = concat(action.as_str(), SILENT_FLAG);
    let args = vec![
        "/Create".to_owned(),
        "/TN".to_owned(),
        TASK.to_owned(),
        "/TR".to_owned(),
        action,
        "/SC".to_owned(),
        "ONLOGON".to_owned(),
        "/RL".to_owned(),
        "HIGHEST".to_owned(),
        "/RU".to_owned(),
        user,
        "/IT".to_owned(),
        "/F".to_owned(),
    ];
    assert(views(args@) =~= create_line(exe@, account(domain, name)->0));
    Ok(args)
}

/// The arguments that delete the task.
pub fn delete_args() -> (v: Vec<String>)
    ensures
        views(v@) == delete_line(),
{
    let v = vec!["/Delete".to_owned(), "/TN".to_owned(), TASK.to_owned(), "/F".to_owned()];
    assert(views(v@) =~= delete_line());
    v
}

/// What ticking (`on`) or unticking the box asks of `schtasks`.
pub fn set(on: bool, exe: Result<String, String>, domain: Option<String>, name: Option<String>) -> (r: Result<
    Vec<String>,
    String,
>)
    ensures
        !on ==> (r matches Ok(args) && views(args@) == delete_line()),
        on && exe is Err ==> (r matches Err(e) && e@ == "chemin de l'executable introuvable : "@
            + exe->Err_0@),
        on && exe is Ok && account(domain, name) is None ==> (r matches Err(e) && e@
            == "compte utilisateur courant indeterminable"@),
        on && exe is Ok && account(domain, name) is Some ==> (r matches Ok(args) && views(args@)
            == create_line(exe->Ok_0@, account(domain, name)->0)),
{
    if on {
        create_args(exe, domain, name)
    } else {
        Ok(delete_args())
    }
}

/// The parameter line handed to `ShellExecuteEx` when `schtasks` must be elevated.
pub fn elevated_parameters(args: &Vec<String>) -> (p: String)
    ensures
        p@ == joined(views(args@).map_values(|a: Seq<char>| quoted(a)), " "@),
{
    let mut quoted_args: Vec<String> = Vec::new();
    let mut i: usize = 0;
    while i < args.len()
        invariant
            i <= args.len(),
            views(quoted_args@) == views(args@).take(i as int).map_values(|a: Seq<char>| quoted(a)),
        decreases args.len() - i,
    {
        let ghost before = quoted_args@;
        let q = quote(args[i].as_str());
        quoted_args.push(q);
        assert(views(quoted_args@) =~= views(before).push(q@));
        assert(views(args@).take(i as int + 1) =~= views(args@).take(i as int).push(args@[i as int]@));
        assert(views(quoted_args@) =~= views(args@).take(i as int + 1).map_values(
            |a: Seq<char>| quoted(a),
        ));
        i = i + 1;
    }
    assert(views(args@).take(args.len() as int) =~= views(args@));
    join(&quoted_args, " ")
}

/// The message of a failed direct run of `schtasks`.
pub fn schtasks_failure(stderr: &str, stdout: &str) -> (m: String)
    ensures
        m@ == "schtasks a echoue : "@ + failure_detail(stderr@, stdout@),
{
    let d = detail(stderr, stdout);
    concat("schtasks a echoue : ", d.as_str())
}

/// Why `ShellExecuteEx` could not start the elevated `schtasks`, from the last error.
pub fn elevation_refused(code: u32) -> (m: String)
    ensures
        code == ERROR_CANCELLED ==> m@ == "élévation non accordée"@,
        code != ERROR_CANCELLED ==> m@ == "élévation impossible (code "@ + decimal(code as nat)
            + ")"@,
{
    if code == ERROR_CANCELLED {
        "élévation non accordée".to_owned()
    } else {
        let n = decimal_u64(code as u64);
        concat3("élévation impossible (code ", n.as_str(), ")")
    }
}

/// The outcome of the elevated `schtasks`: `finished` when it ended before the timeout,
/// `read` when its exit code could be read, `status` that code.
pub fn elevated_outcome(finished: bool, read: bool, status: u32) -> (r: Result<(), String>)
    ensures
        !finished ==> (r matches Err(e) && e@ == "schtasks n'a pas rendu la main"@),
        finished && !read ==> (r matches Err(e) && e@ == "code de sortie de schtasks illisible"@),
        finished && read && status != 0 ==> (r matches Err(e) && e@ == "schtasks a echoue (code "@
            + decimal(status as nat) + ")"@),
        finished && read && status == 0 ==> r is Ok,
{
    if !finished {
        return Err("schtasks n'a pas rendu la main".to_owned());
    }
    if !read {
        return Err("code de sortie de schtasks illisible".to_owned());
    }
    if status != 0 {
        let n = decimal_u64(status as u64);
        return Err(concat3("schtasks a echoue (code ", n.as_str(), ")"));
    }
    Ok(())
}

} // verus!
