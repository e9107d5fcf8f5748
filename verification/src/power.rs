//! Control of the CPU cap through the active Windows power scheme.
//!
//! The lever is exactly the one the commercial "optimizers" use, and it is fully native:
//!   - PERFBOOSTMODE   = 0  -> Turbo Boost disabled
//!   - PROCTHROTTLEMAX = 99 -> ceiling at 99 % of nominal, which forbids turbo too
//!
//! Reading goes through the registry, since `powercfg /query` shows nothing for these
//! settings when their attribute is hidden. Writing goes through `powercfg`, which
//! propagates the values to the system.

use vstd::prelude::*;

use crate::text::{
    ascii_lower, ascii_lowered, ascii_upper, ascii_uppered, chars_of, lemma_ascii_case,
    lemma_split_keeps_case_changes, concat, concat3, decimal, first_line, hex_digit, is_hex_digit, joined,
    last_position_of, position_of, rfind, find, split, split_on, str_to_ascii_lower, str_trim,
    string_of, string_of_range, trimmed, views, join,
};

verus! {

pub const SCHEMES_PATH: &'static str = "SYSTEM\\CurrentControlSet\\Control\\Power\\User\\PowerSchemes";

pub const SUB_PROCESSOR: &'static str = "54533251-82be-4824-96c1-47b60b740d00";

pub const PERFBOOSTMODE: &'static str = "be337238-0d82-4146-a960-4f3749d470c7";

pub const PROCTHROTTLEMAX: &'static str = "bc5038f7-23e0-4960-96da-33abaf5935ec";

/// Windows defaults when the key is absent from the scheme.
pub const DEFAULT_BOOST_MODE: u32 = 2;

pub const DEFAULT_THROTTLE_MAX: u32 = 100;

pub struct PowerState {
    pub scheme_guid: String,
    pub scheme_name: String,
    pub boost_mode: u32,
    pub throttle_max: u32,
    /// True when turbo is effectively forbidden, by either lever.
    pub optimized: bool,
    pub elevated: bool,
}

/// A character that can belong to a GUID.
pub open spec fn guid_char(c: char) -> bool {
    hex_digit(c) || c == '-'
}

/// The runs of GUID characters of a text, as `str::split` on every other character
/// yields them.
pub open spec fn guid_tokens(s: Seq<char>) -> Seq<Seq<char>> {
    split_on(s.map_values(|c: char| if guid_char(c) { c } else { ' ' }), ' ')
}

pub open spec fn all_hex(s: Seq<char>) -> bool {
    forall|i: int| 0 <= i < s.len() ==> hex_digit(#[trigger] s[i])
}

/// The canonical 8-4-4-4-12 shape of a GUID.
pub open spec fn canonical(token: Seq<char>) -> bool {
    let parts = split_on(token, '-');
    &&& parts.len() == 5
    &&& parts[0].len() == 8 && parts[1].len() == 4 && parts[2].len() == 4
    &&& parts[3].len() == 4 && parts[4].len() == 12
    &&& forall|i: int| 0 <= i < 5 ==> all_hex(#[trigger] parts[i])
}

/// The first canonical GUID among `tokens[from..]`.
pub open spec fn first_canonical(tokens: Seq<Seq<char>>, from: int) -> Option<Seq<char>>
    decreases tokens.len() - from,
{
    if from < 0 || from >= tokens.len() {
        None
    } else if canonical(tokens[from]) {
        Some(tokens[from])
    } else {
        first_canonical(tokens, from + 1)
    }
}

/// The first canonical GUID of a text, in lowercase, whatever the language of Windows.
pub open spec fn guid_of(text: Seq<char>) -> Option<Seq<char>> {
    match first_canonical(guid_tokens(text), 0) {
        Some(t) => Some(ascii_lowered(t)),
        None => None,
    }
}

/// Upper-casing a text upper-cases its runs of GUID characters, and nothing else.
proof fn lemma_tokens_of_uppered(text: Seq<char>)
    ensures
        guid_tokens(ascii_uppered(text)) =~~= guid_tokens(text).map_values(
            |t: Seq<char>| ascii_uppered(t),
        ),
{
    let masked = text.map_values(|c: char| if guid_char(c) { c } else { ' ' });
    let masked_up = ascii_uppered(text).map_values(|c: char| if guid_char(c) { c } else { ' ' });
    assert forall|i: int| 0 <= i < text.len() implies masked_up[i] == ascii_uppered(masked)[i] by {
        lemma_ascii_case(text[i]);
    }
    assert(masked_up =~= ascii_uppered(masked));
    lemma_split_keeps_case_changes(masked, ' ');
}

/// The shape of a GUID does not depend on the case of its letters.
proof fn lemma_canonical_of_uppered(t: Seq<char>)
    ensures
        canonical(ascii_uppered(t)) == canonical(t),
{
    lemma_split_keeps_case_changes(t, '-');
    let parts = split_on(t, '-');
    let up = split_on(ascii_uppered(t), '-');
    assert(up.len() == parts.len());
    assert forall|i: int| 0 <= i < parts.len() implies #[trigger] up[i].len() == parts[i].len()
        && all_hex(up[i]) == all_hex(parts[i]) by {
        let p = parts[i];
        let u = up[i];
        assert(u == ascii_uppered(p));
        if all_hex(u) {
            assert forall|j: int| 0 <= j < p.len() implies hex_digit(#[trigger] p[j]) by {
                lemma_ascii_case(p[j]);
                assert(hex_digit(u[j]));
            }
        }
        if all_hex(p) {
            assert forall|j: int| 0 <= j < u.len() implies hex_digit(#[trigger] u[j]) by {
                lemma_ascii_case(p[j]);
                assert(hex_digit(p[j]));
            }
        }
    }
    if parts.len() == 5 {
        assert(up[0].len() == parts[0].len() && all_hex(up[0]) == all_hex(parts[0]));
        assert(up[1].len() == parts[1].len() && all_hex(up[1]) == all_hex(parts[1]));
        assert(up[2].len() == parts[2].len() && all_hex(up[2]) == all_hex(parts[2]));
        assert(up[3].len() == parts[3].len() && all_hex(up[3]) == all_hex(parts[3]));
        assert(up[4].len() == parts[4].len() && all_hex(up[4]) == all_hex(parts[4]));
    }
}

/// The first canonical token of upper-cased tokens is the upper-cased first canonical one.
proof fn lemma_first_canonical_of_uppered(tokens: Seq<Seq<char>>, from: int)
    requires
        0 <= from,
    ensures
        first_canonical(tokens.map_values(|t: Seq<char>| ascii_uppered(t)), from) == (
        match first_canonical(tokens, from) {
            Some(t) => Some(ascii_uppered(t)),
            None => None,
        }),
    decreases tokens.len() - from,
{
    if from < tokens.len() {
        lemma_canonical_of_uppered(tokens[from]);
        lemma_first_canonical_of_uppered(tokens, from + 1);
    }
}

/// Lower-casing after upper-casing is lower-casing.
proof fn lemma_lowered_of_uppered(t: Seq<char>)
    ensures
        ascii_lowered(ascii_uppered(t)) == ascii_lowered(t),
        ascii_lowered(ascii_lowered(t)) == ascii_lowered(t),
{
    assert forall|i: int| 0 <= i < t.len() implies ascii_lowered(ascii_uppered(t))[i]
        == ascii_lowered(t)[i] && ascii_lowered(ascii_lowered(t))[i] == ascii_lowered(t)[i] by {
        lemma_ascii_case(t[i]);
    }
    assert(ascii_lowered(ascii_uppered(t)) =~= ascii_lowered(t));
    assert(ascii_lowered(ascii_lowered(t)) =~= ascii_lowered(t));
}

/// The GUID found in a text is always given in lowercase.
pub proof fn law_guid_is_lowercase(text: Seq<char>)
    ensures
        guid_of(text) matches Some(g) ==> ascii_lowered(g) == g,
{
    if let Some(t) = first_canonical(guid_tokens(text), 0) {
        lemma_lowered_of_uppered(t);
    }
}

/// The ASCII case of the text does not change the GUID found in it.
pub proof fn law_case_of_the_text_does_not_matter(text: Seq<char>)
    ensures
        guid_of(ascii_uppered(text)) == guid_of(text),
{
    lemma_tokens_of_uppered(text);
    lemma_first_canonical_of_uppered(guid_tokens(text), 0);
    if let Some(t) = first_canonical(guid_tokens(text), 0) {
        lemma_lowered_of_uppered(t);
    }
}

/// The scheme's displayed name: Windows puts it between parentheses at the end of the
/// line.
pub open spec fn name_of(text: Seq<char>) -> Seq<char> {
    match last_position_of(text, '(') {
        Some(k) => {
            let rest = text.skip(k + 1);
            if position_of(rest, ')') < rest.len() {
                trimmed(rest.take(position_of(rest, ')')))
            } else {
                "(sans nom)"@
            }
        },
        None => "(sans nom)"@,
    }
}

fn all_hex_chars(s: &str) -> (b: bool)
    ensures
        b == all_hex(s@),
{
    let v = chars_of(s);
    let mut i: usize = 0;
    while i < v.len()
        invariant
            i <= v.len(),
            v@ == s@,
            forall|j: int| 0 <= j < i ==> hex_digit(#[trigger] v@[j]),
        decreases v.len() - i,
    {
        if !is_hex_digit(v[i]) {
            return false;
        }
        i = i + 1;
    }
    true
}

fn is_canonical(token: &str) -> (b: bool)
    ensures
        b == canonical(token@),
{
    let parts = split(token, '-');
    proof {
        assert(views(parts@).len() == parts@.len());
    }
    if parts.len() != 5 {
        return false;
    }
    proof {
        assert forall|i: int| 0 <= i < 5 implies views(parts@)[i] == parts@[i]@ by {}
    }
    let lengths_ok = chars_of(parts[0].as_str()).len() == 8 && chars_of(parts[1].as_str()).len() == 4
        && chars_of(parts[2].as_str()).len() == 4 && chars_of(parts[3].as_str()).len() == 4
        && chars_of(parts[4].as_str()).len() == 12;
    if !lengths_ok {
        return false;
    }
    let mut k: usize = 0;
    while k < 5
        invariant
            k <= 5,
            parts.len() == 5,
            views(parts@) == split_on(token@, '-'),
            forall|i: int| 0 <= i < k ==> all_hex(#[trigger] split_on(token@, '-')[i]),
        decreases 5 - k,
    {
        assert(views(parts@)[k as int] == parts@[k as int]@);
        if !all_hex_chars(parts[k].as_str()) {
            return false;
        }
        k = k + 1;
    }
    true
}

/// Extracts the first canonical GUID of a text, without depending on the language of
/// Windows.
pub fn extract_guid(text: &str) -> (r: Option<String>)
    ensures
        r matches Some(g) ==> guid_of(text@) == Some(g@),
        r is None ==> guid_of(text@) is None,
{
    let v = chars_of(text);
    let mut masked: Vec<char> = Vec::new();
    let mut i: usize = 0;
    while i < v.len()
        invariant
            i <= v.len(),
            v@ == text@,
            masked@ == v@.take(i as int).map_values(|c: char| if guid_char(c) { c } else { ' ' }),
        decreases v.len() - i,
    {
        let c = v[i];
        let keep = is_hex_digit(c) || c == '-';
        masked.push(if keep { c } else { ' ' });
        assert(v@.take(i as int + 1).map_values(|c: char| if guid_char(c) { c } else { ' ' })
            =~= v@.take(i as int).map_values(|c: char| if guid_char(c) { c } else { ' ' }).push(
            if guid_char(c) { c } else { ' ' },
        ));
        i = i + 1;
    }
    assert(v@.take(v.len() as int) == v@);
    let masked_text = string_of(&masked);
    let tokens = split(masked_text.as_str(), ' ');
    let mut k: usize = 0;
    while k < tokens.len()
        invariant
            k <= tokens.len(),
            views(tokens@) == guid_tokens(text@),
            first_canonical(guid_tokens(text@), 0) == first_canonical(guid_tokens(text@), k as int),
        decreases tokens.len() - k,
    {
        assert(views(tokens@)[k as int] == tokens@[k as int]@);
        if is_canonical(tokens[k].as_str()) {
            return Some(str_to_ascii_lower(tokens[k].as_str()));
        }
        k = k + 1;
    }
    None
}

/// The scheme's displayed name, between the last opening parenthesis and the next
/// closing one; `(sans nom)` when there is none.
pub fn extract_name(text: &str) -> (r: String)
    ensures
        r@ == name_of(text@),
{
    let v = chars_of(text);
    match rfind(&v, '(') {
        Some(k) => {
            let rest = string_of_range(&v, k + 1, v.len());
            let rv = chars_of(rest.as_str());
            assert(rv@ == v@.skip(k + 1));
            let j = find(&rv, ')');
            if j < rv.len() {
                let inner = string_of_range(&rv, 0, j);
                assert(rv@.subrange(0, j as int) == rv@.take(j as int));
                str_trim(inner.as_str())
            } else {
                "(sans nom)".to_owned()
            }
        },
        None => "(sans nom)".to_owned(),
    }
}

/// The active scheme, from the output of `powercfg /getactivescheme`: its GUID and its
/// displayed name.
pub fn parse_active_scheme(output: &str) -> (r: Result<(String, String), String>)
    ensures
        r is Ok <==> guid_of(output@) is Some,
        r matches Ok((g, n)) ==> guid_of(output@) == Some(g@) && n@ == name_of(output@),
        r matches Err(e) ==> e@ == "GUID du schema actif introuvable"@,
{
    match extract_guid(output) {
        Some(guid) => Ok((guid, extract_name(output))),
        None => Err("GUID du schema actif introuvable".to_owned()),
    }
}

/// The registry key of a processor setting of a scheme, under `HKEY_LOCAL_MACHINE`.
pub fn setting_path(guid: &str, setting: &str) -> (p: String)
    ensures
        p@ == SCHEMES_PATH@ + "\\"@ + guid@ + "\\"@ + SUB_PROCESSOR@ + "\\"@ + setting@,
{
    let a = concat3(SCHEMES_PATH, "\\", guid);
    let b = concat3(a.as_str(), "\\", SUB_PROCESSOR);
    concat3(b.as_str(), "\\", setting)
}

/// The cap is effective when turbo is forbidden by either lever.
pub open spec fn capped(boost_mode: u32, throttle_max: u32) -> bool {
    boost_mode == 0 || throttle_max < 100
}

/// The power state, from what the registry held for the two settings (`None` when the
/// key is absent: the Windows default applies).
pub fn state(
    scheme_guid: String,
    scheme_name: String,
    boost_mode: Option<u32>,
    throttle_max: Option<u32>,
    elevated: bool,
) -> (s: PowerState)
    ensures
        s.scheme_guid == scheme_guid,
        s.scheme_name == scheme_name,
        s.boost_mode == (match boost_mode {
            Some(b) => b,
            None => DEFAULT_BOOST_MODE,
        }),
        s.throttle_max == (match throttle_max {
            Some(t) => t,
            None => DEFAULT_THROTTLE_MAX,
        }),
        s.optimized == capped(s.boost_mode, s.throttle_max),
        s.elevated == elevated,
{
    let boost_mode = match boost_mode {
        Some(b) => b,
        None => DEFAULT_BOOST_MODE,
    };
    let throttle_max = match throttle_max {
        Some(t) => t,
        None => DEFAULT_THROTTLE_MAX,
    };
    PowerState {
        optimized: boost_mode == 0 || throttle_max < 100,
        scheme_guid,
        scheme_name,
        boost_mode,
        throttle_max,
        elevated,
    }
}

/// The value written for the boost mode: 0 (disabled) when capped, 2 (aggressive, the
/// Windows default) otherwise.
pub open spec fn boost_value(on: bool) -> Seq<char> {
    if on { "0"@ } else { "2"@ }
}

/// The value written for the processor ceiling: 99 % when capped, 100 % otherwise.
pub open spec fn throttle_value(on: bool) -> Seq<char> {
    if on { "99"@ } else { "100"@ }
}

/// The cap is read from the two settings alone: it is active exactly when the boost mode
/// is 0 (turbo disabled) or the processor ceiling is below 100 %. Any boost mode other
/// than 0 — 1 (enabled), 2 (aggressive) and the others — with a ceiling of 100 % leaves
/// turbo allowed, and a ceiling below 100 % caps whatever the boost mode.
pub proof fn law_the_cap_is_off_only_with_turbo_allowed_at_full_ceiling(boost_mode: u32, throttle_max: u32)
    ensures
        capped(boost_mode, throttle_max) <==> (boost_mode == 0 || throttle_max < 100),
        boost_mode != 0 && throttle_max >= 100 ==> !capped(boost_mode, throttle_max),
        capped(0, throttle_max),
        throttle_max < 100 ==> capped(boost_mode, throttle_max),
        !capped(1, 100) && !capped(2, 100) && !capped(3, 100) && !capped(4, 100),
{
}

/// What the switch writes is what the power state then reads: the settings written for
/// `on` are the decimal writings of two numbers that, read back from the registry, make
/// the state report the cap as `on`.
pub proof fn law_the_written_cap_reads_back(on: bool)
    ensures
        ({
            let boost: u32 = if on { 0 } else { DEFAULT_BOOST_MODE };
            let throttle: u32 = if on { 99 } else { DEFAULT_THROTTLE_MAX };
            &&& boost_value(on) == decimal(boost as nat)
            &&& throttle_value(on) == decimal(throttle as nat)
            &&& capped(boost, throttle) == on
        }),
{
    reveal_strlit("0");
    reveal_strlit("2");
    reveal_strlit("99");
    reveal_strlit("100");
    reveal_with_fuel(decimal, 3);
}

/// The `powercfg` invocations that set the cap on a scheme: AC *and* DC values of both
/// settings, then `/setactive`, without which the values are written but not applied.
pub open spec fn cap_commands(guid: Seq<char>, on: bool) -> Seq<Seq<Seq<char>>> {
    seq![
        seq!["/setacvalueindex"@, guid, SUB_PROCESSOR@, PERFBOOSTMODE@, boost_value(on)],
        seq!["/setdcvalueindex"@, guid, SUB_PROCESSOR@, PERFBOOSTMODE@, boost_value(on)],
        seq!["/setacvalueindex"@, guid, SUB_PROCESSOR@, PROCTHROTTLEMAX@, throttle_value(on)],
        seq!["/setdcvalueindex"@, guid, SUB_PROCESSOR@, PROCTHROTTLEMAX@, throttle_value(on)],
        seq!["/setactive"@, guid],
    ]
}

/// The scheme is activated last, after every value is written: without it the values are
/// written but never applied. Both levers are written for mains and battery alike.
pub proof fn law_activation_comes_last(guid: Seq<char>, on: bool)
    ensures
        cap_commands(guid, on).last() == seq!["/setactive"@, guid],
        forall|k: int|
            0 <= k < cap_commands(guid, on).len() - 1 ==> (#[trigger] cap_commands(guid, on)[k])[1]
                == guid,
        cap_commands(guid, on)[0][3] == PERFBOOSTMODE@ && cap_commands(guid, on)[1][3] == PERFBOOSTMODE@,
        cap_commands(guid, on)[2][3] == PROCTHROTTLEMAX@ && cap_commands(guid, on)[3][3] == PROCTHROTTLEMAX@,
        cap_commands(guid, on)[0][0] != cap_commands(guid, on)[1][0],
        cap_commands(guid, on)[2][0] != cap_commands(guid, on)[3][0],
{
    reveal_strlit("/setacvalueindex");
    reveal_strlit("/setdcvalueindex");
    assert("/setacvalueindex"@[4] != "/setdcvalueindex"@[4]);
}

fn command(a: &str, guid: &str, setting: &str, value: &str) -> (c: Vec<String>)
    ensures
        views(c@) == seq![a@, guid@, SUB_PROCESSOR@, setting@, value@],
{
    let c = vec![a.to_owned(), guid.to_owned(), SUB_PROCESSOR.to_owned(), setting.to_owned(), value.to_owned()];
    assert(views(c@) =~= seq![a@, guid@, SUB_PROCESSOR@, setting@, value@]);
    c
}

/// The message of a refused change without administrator rights.
pub open spec fn not_elevated_message() -> Seq<char> {
    "droits administrateur requis pour modifier le schema d'alimentation"@
}

/// Decides a change of the cap. `elevated` tells whether the process holds
/// administrator rights, `scheme` is the output of `powercfg /getactivescheme` (or the
/// error of running it). Without elevation nothing is attempted; otherwise the result is
/// the list of `powercfg` argument lists to run, in order, stopping at the first failure.
pub fn set_optimized(elevated: bool, scheme: Result<String, String>, on: bool) -> (r: Result<
    Vec<Vec<String>>,
    String,
>)
    ensures
        !elevated ==> (r matches Err(e) && e@ == not_elevated_message()),
        elevated && scheme is Err ==> (r matches Err(e) && e@ == scheme->Err_0@),
        elevated && (scheme matches Ok(out) && guid_of(out@) is None) ==> (r matches Err(e)
            && e@ == "GUID du schema actif introuvable"@),
        elevated && (scheme matches Ok(out) && guid_of(out@) is Some) ==> (r matches Ok(cmds)
            && cmds@.map_values(|c: Vec<String>| views(c@)) == cap_commands(
            guid_of(scheme->Ok_0@)->0,
            on,
        )),
{
    if !elevated {
        return Err("droits administrateur requis pour modifier le schema d'alimentation".to_owned());
    }
    let output = match scheme {
        Ok(o) => o,
        Err(e) => return Err(e),
    };
    let (guid, _) = match parse_active_scheme(output.as_str()) {
        Ok(p) => p,
        Err(e) => return Err(e),
    };
    let boost = if on { "0" } else { "2" };
    let throttle = if on { "99" } else { "100" };
    let g = guid.as_str();
    let mut cmds: Vec<Vec<String>> = Vec::new();
    cmds.push(command("/setacvalueindex", g, PERFBOOSTMODE, boost));
    cmds.push(command("/setdcvalueindex", g, PERFBOOSTMODE, boost));
    cmds.push(command("/setacvalueindex", g, PROCTHROTTLEMAX, throttle));
    cmds.push(command("/setdcvalueindex", g, PROCTHROTTLEMAX, throttle));
    let activate = vec!["/setactive".to_owned(), guid.clone()];
    assert(views(activate@) =~= seq!["/setactive"@, guid@]);
    cmds.push(activate);
    assert(cmds@.map_values(|c: Vec<String>| views(c@)) =~= cap_commands(guid@, on));
    Ok(cmds)
}

/// What a failed process said: its error output, or its standard output when the error
/// output is blank.
pub open spec fn failure_detail(stderr: Seq<char>, stdout: Seq<char>) -> Seq<char> {
    if trimmed(stderr).len() == 0 {
        trimmed(stdout)
    } else {
        trimmed(stderr)
    }
}

pub fn detail(stderr: &str, stdout: &str) -> (d: String)
    ensures
        d@ == failure_detail(stderr@, stdout@),
{
    let e = str_trim(stderr);
    if e.as_str().is_empty() {
        str_trim(stdout)
    } else {
        e
    }
}

/// The message of a failed `powercfg` invocation.
pub fn powercfg_failure(args: &Vec<String>, stderr: &str, stdout: &str) -> (m: String)
    ensures
        m@ == "powercfg "@ + joined(views(args@), " "@) + " a echoue : "@ + failure_detail(
            stderr@,
            stdout@,
        ),
{
    let line = join(args, " ");
    let head = concat3("powercfg ", line.as_str(), " a echoue : ");
    let d = detail(stderr, stdout);
    concat(head.as_str(), d.as_str())
}

/// How one run of `powercfg` went.
pub enum RunOutcome {
    Succeeded,
    /// It ran and reported a failure, with what it printed.
    Failed { stderr: String, stdout: String },
    /// It could not be started.
    NotStarted { error: String },
}

/// What comes next while the cap is written.
pub enum WriteStep {
    /// Run the invocation at this position.
    Run(usize),
    /// Stop: the writes failed, for this reason.
    Failed(String),
    /// Every invocation succeeded.
    Finished,
}

/// The message of a `powercfg` invocation that could not be started.
pub open spec fn not_started_message(error: Seq<char>) -> Seq<char> {
    "powercfg introuvable : "@ + error
}

/// The first step of writing `commands`, in order.
pub fn first_write(commands: &Vec<Vec<String>>) -> (s: WriteStep)
    ensures
        commands.len() > 0 ==> (s matches WriteStep::Run(k) && k == 0),
        commands.len() == 0 ==> s is Finished,
{
    if commands.len() > 0 {
        WriteStep::Run(0)
    } else {
        WriteStep::Finished
    }
}

/// The step after the invocation at `k` ran: the next one in order after a success, the
/// end after the last; a failure stops the sequence at once — the later invocations are
/// not run, in particular not the final `/setactive` — with the invocation's arguments
/// and what it printed.
pub fn after_write(commands: &Vec<Vec<String>>, k: usize, outcome: RunOutcome) -> (s: WriteStep)
    requires
        k < commands.len(),
    ensures
        match outcome {
            RunOutcome::Succeeded => if k + 1 < commands.len() {
                s matches WriteStep::Run(j) && j == k + 1
            } else {
                s is Finished
            },
            RunOutcome::Failed { stderr, stdout } => s matches WriteStep::Failed(m) && m@
                == "powercfg "@ + joined(views(commands@[k as int]@), " "@) + " a echoue : "@
                + failure_detail(stderr@, stdout@),
            RunOutcome::NotStarted { error } => s matches WriteStep::Failed(m) && m@
                == not_started_message(error@),
        },
{
    match outcome {
        RunOutcome::Succeeded => if k + 1 < commands.len() {
            WriteStep::Run(k + 1)
        } else {
            WriteStep::Finished
        },
        RunOutcome::Failed { stderr, stdout } => WriteStep::Failed(
            powercfg_failure(&commands[k], stderr.as_str(), stdout.as_str()),
        ),
        RunOutcome::NotStarted { error } => WriteStep::Failed(
            concat("powercfg introuvable : ", error.as_str()),
        ),
    }
}

} // verus!
