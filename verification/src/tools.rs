//! State of the third-party tools the external providers depend on, and their launch.
//!
//! « Core Temp is not running » covers situations that do not call for the same action:
//! the tool is not installed, or installed but stopped, or running without the rights
//! that load its driver. This module tells the first two apart and allows acting on the
//! second.

use vstd::prelude::*;

use crate::text::{
    ascii_lowered, begins_with, chars_of, concat, concat3, decimal_i64, find, has_part,
    lemma_position_bounds, lowercase, position_of, signed_decimal, str_contains, str_eq,
    str_starts_with, str_to_ascii_lower, str_trim, str_trim_matches, string_of, string_of_range,
    stripped, to_lowercase, trimmed, views,
};

verus! {

/// What must be known of a tool to find it, recognise it and launch it.
pub struct Tool {
    pub id: &'static str,
    pub name: &'static str,
    /// Main executable, as it appears in the process list.
    pub exe: &'static str,
    /// Accepted variants: 32/64 bits, or the project the tool comes from.
    pub aliases: Vec<&'static str>,
    /// Fragment of `DisplayName` to look for in the uninstall database. Absent for a
    /// portable tool, which is not listed there.
    pub needle: Option<&'static str>,
    /// Usual locations, as a last resort. `%VAR%` is expanded.
    pub paths: Vec<&'static str>,
}

/// Number of known tools.
pub const TOOL_COUNT: usize = 3;

/// Identifiers of the known tools, in table order.
pub open spec fn tool_ids() -> Seq<&'static str> {
    seq!["core-temp", "hwinfo", "libre-hw"]
}

/// Display names of the known tools, in table order.
pub open spec fn tool_names() -> Seq<&'static str> {
    seq!["Core Temp", "HWiNFO", "LibreHardwareMonitor"]
}

/// Main executables of the known tools, in table order.
pub open spec fn tool_exes() -> Seq<&'static str> {
    seq!["Core Temp.exe", "HWiNFO64.exe", "LibreHardwareMonitor.exe"]
}

/// Accepted executable variants of the known tools, in table order.
pub open spec fn tool_aliases() -> Seq<Seq<&'static str>> {
    seq![seq![], seq!["HWiNFO32.exe", "HWiNFO.exe"], seq!["OpenHardwareMonitor.exe"]]
}

/// Uninstall-database fragments of the known tools, in table order: none for the
/// portable one.
pub open spec fn tool_needles() -> Seq<Option<&'static str>> {
    seq![Some("Core Temp"), Some("HWiNFO"), None]
}

/// Usual locations of the known tools, in table order.
pub open spec fn tool_paths() -> Seq<Seq<&'static str>> {
    seq![
        seq![
            "%ProgramFiles%\\Core Temp\\Core Temp.exe",
            "%ProgramFiles(x86)%\\Core Temp\\Core Temp.exe",
        ],
        seq![
            "%ProgramFiles%\\HWiNFO64\\HWiNFO64.exe",
            "%ProgramFiles(x86)%\\HWiNFO64\\HWiNFO64.exe",
        ],
        seq![
            "%ProgramFiles%\\LibreHardwareMonitor\\LibreHardwareMonitor.exe",
            "%LOCALAPPDATA%\\Programs\\LibreHardwareMonitor\\LibreHardwareMonitor.exe",
        ],
    ]
}

/// The tool at position `j` of the table, as a value.
pub open spec fn describes(t: Tool, j: int) -> bool {
    &&& t.id == tool_ids()[j]
    &&& t.name == tool_names()[j]
    &&& t.exe == tool_exes()[j]
    &&& t.aliases@ == tool_aliases()[j]
    &&& t.needle == tool_needles()[j]
    &&& t.paths@ == tool_paths()[j]
}

/// The known tools.
pub fn tools() -> (v: Vec<Tool>)
    ensures
        v.len() == TOOL_COUNT,
        forall|j: int| 0 <= j < TOOL_COUNT ==> describes(#[trigger] v@[j], j),
{
    let v = vec![
        Tool {
            id: "core-temp",
            name: "Core Temp",
            exe: "Core Temp.exe",
            aliases: vec![],
            needle: Some("Core Temp"),
            paths: vec![
                "%ProgramFiles%\\Core Temp\\Core Temp.exe",
                "%ProgramFiles(x86)%\\Core Temp\\Core Temp.exe",
            ],
        },
        Tool {
            id: "hwinfo",
            name: "HWiNFO",
            exe: "HWiNFO64.exe",
            aliases: vec!["HWiNFO32.exe", "HWiNFO.exe"],
            needle: Some("HWiNFO"),
            paths: vec![
                "%ProgramFiles%\\HWiNFO64\\HWiNFO64.exe",
                "%ProgramFiles(x86)%\\HWiNFO64\\HWiNFO64.exe",
            ],
        },
        // Distributed as an archive: no uninstall entry, hence not found unless it is at
        // a usual place or running. The state says so rather than claiming it absent.
        Tool {
            id: "libre-hw",
            name: "LibreHardwareMonitor",
            exe: "LibreHardwareMonitor.exe",
            aliases: vec!["OpenHardwareMonitor.exe"],
            needle: None,
            paths: vec![
                "%ProgramFiles%\\LibreHardwareMonitor\\LibreHardwareMonitor.exe",
                "%LOCALAPPDATA%\\Programs\\LibreHardwareMonitor\\LibreHardwareMonitor.exe",
            ],
        },
    ];
    assert(describes(v@[0], 0));
    assert(describes(v@[1], 1));
    assert(v@[2].id == tool_ids()[2]);
    assert(v@[2].name == tool_names()[2]);
    assert(v@[2].exe == tool_exes()[2]);
    assert(v@[2].aliases@ == tool_aliases()[2]);
    assert(v@[2].needle == tool_needles()[2]);
    assert(v@[2].paths@ == tool_paths()[2]);
    assert(describes(v@[2], 2));
    v
}

/// How long where the tools were located is trusted, in milliseconds. The uninstall search
/// walks a few hundred registry keys: cheap, but not worth redoing every few seconds. The
/// running state is always read again.
pub const INSTALL_CACHE_MS: u64 = 30000;

/// Whether locations found at `found_at` (if ever) can still be used at `now`, both read
/// on a monotonic clock in milliseconds.
pub fn install_cache_fresh(found_at: Option<u64>, now: u64) -> (b: bool)
    ensures
        b == (found_at matches Some(t) && (if now >= t {
            now - t
        } else {
            0
        }) < INSTALL_CACHE_MS),
{
    match found_at {
        Some(t) => {
            let since = if now >= t { now - t } else { 0 };
            since < INSTALL_CACHE_MS
        },
        None => false,
    }
}

/// Which tool keeps which provider alive. Two providers can depend on the same one:
/// `amd-gpu` reads the sensors LibreHardwareMonitor publishes.
pub open spec fn provider_tools() -> Seq<(&'static str, &'static str)> {
    seq![
        ("core-temp", "core-temp"),
        ("hwinfo", "hwinfo"),
        ("libre-hw", "libre-hw"),
        ("amd-gpu", "libre-hw"),
    ]
}

/// Position in the tool table of the tool the `i`-th provider link names.
pub open spec fn linked_tool(i: int) -> int {
    if i < 2 {
        i
    } else {
        2
    }
}

/// The provider-to-tool links, in table order.
pub fn by_provider() -> (v: Vec<(&'static str, &'static str)>)
    ensures
        v@ == provider_tools(),
{
    vec![
        ("core-temp", "core-temp"),
        ("hwinfo", "hwinfo"),
        ("libre-hw", "libre-hw"),
        ("amd-gpu", "libre-hw"),
    ]
}

/// Every provider that depends on a tool names a tool the table knows: the one at
/// `linked_tool(i)`.
pub proof fn law_every_provider_maps_to_a_known_tool()
    ensures
        forall|i: int|
            0 <= i < provider_tools().len() ==> 0 <= linked_tool(i) < TOOL_COUNT
                && tool_ids()[linked_tool(i)] == (#[trigger] provider_tools()[i]).1,
{
}

/// The provider links name each provider once, so that the states `statuses` reports
/// are keyed by distinct providers.
pub proof fn law_each_provider_is_reported_once()
    ensures
        forall|i: int, j: int|
            0 <= i < j < provider_tools().len() ==> (#[trigger] provider_tools()[i]).0@ != (
            #[trigger] provider_tools()[j]).0@,
{
    reveal_strlit("core-temp");
    reveal_strlit("hwinfo");
    reveal_strlit("libre-hw");
    reveal_strlit("amd-gpu");
    assert("core-temp"@.len() == 9);
    assert("hwinfo"@.len() == 6);
    assert("libre-hw"@.len() == 8);
    assert("amd-gpu"@.len() == 7);
}

/// Position of the tool with identifier `id` in the table, if it is known.
pub open spec fn known_tool(id: Seq<char>) -> Option<int> {
    if id == tool_ids()[0]@ {
        Some(0)
    } else if id == tool_ids()[1]@ {
        Some(1)
    } else if id == tool_ids()[2]@ {
        Some(2)
    } else {
        None
    }
}

/// Position of a tool in the table.
pub fn tool_index(id: &str) -> (r: Option<usize>)
    ensures
        match r {
            Some(i) => known_tool(id@) == Some(i as int),
            None => known_tool(id@) is None,
        },
{
    let table = tools();
    let mut i: usize = 0;
    while i < table.len()
        invariant
            i <= table.len(),
            table.len() == TOOL_COUNT,
            forall|k: int| 0 <= k < TOOL_COUNT ==> describes(#[trigger] table@[k], k),
            forall|k: int| 0 <= k < i ==> tool_ids()[k]@ != id@,
        decreases table.len() - i,
    {
        assert(describes(table@[i as int], i as int));
        if str_eq(table[i].id, id) {
            return Some(i);
        }
        i = i + 1;
    }
    None
}

/// A known tool, by identifier.
pub fn tool(id: &str) -> (r: Option<Tool>)
    ensures
        match r {
            Some(t) => known_tool(id@) matches Some(j) && describes(t, j),
            None => known_tool(id@) is None,
        },
{
    match tool_index(id) {
        Some(i) => {
            let mut table = tools();
            assert(describes(table@[i as int], i as int));
            Some(table.remove(i))
        },
        None => None,
    }
}

pub struct ToolStatus {
    pub id: &'static str,
    pub name: &'static str,
    /// True when the executable was located. False does not prove absence for a
    /// portable tool — see `certain`.
    pub installed: bool,
    /// False when the tool can exist without our knowing how to find it: the interface
    /// must then offer the download without claiming it is missing.
    pub certain: bool,
    pub running: bool,
    pub path: Option<String>,
    /// Launching it only makes sense when one knows where it is and it is not already
    /// running. Computed here rather than in the interface: the rule must exist once.
    pub launchable: bool,
}

impl ToolStatus {
    pub fn new(t: &Tool, path: Option<String>, running: bool) -> (s: ToolStatus)
        ensures
            s.id == t.id,
            s.name == t.name,
            s.installed == path is Some,
            s.certain == t.needle is Some,
            s.running == running,
            s.path == path,
            s.launchable == (path is Some && !running),
    {
        ToolStatus {
            id: t.id,
            name: t.name,
            installed: path.is_some(),
            certain: t.needle.is_some(),
            running,
            launchable: path.is_some() && !running,
            path,
        }
    }
}

/// A tool runs when its executable, or one of its aliases, lowercased, is among the
/// running process images (which are given in lowercase).
pub open spec fn runs(exe: &'static str, aliases: Seq<&'static str>, images: Seq<Seq<char>>) -> bool {
    exists|k: int, j: int|
        0 <= k <= aliases.len() && 0 <= j < images.len() && #[trigger] images[j] == lowercase(
            (#[trigger] seq![exe].add(aliases)[k])@,
        )
}

fn image_listed(name: &str, images: &Vec<String>) -> (b: bool)
    ensures
        b == exists|j: int| 0 <= j < images.len() && #[trigger] views(images@)[j] == lowercase(name@),
{
    let lower = to_lowercase(name);
    let mut j: usize = 0;
    while j < images.len()
        invariant
            j <= images.len(),
            lower@ == lowercase(name@),
            forall|k: int| 0 <= k < j ==> views(images@)[k] != lowercase(name@),
        decreases images.len() - j,
    {
        if str_eq(images[j].as_str(), lower.as_str()) {
            assert(views(images@)[j as int] == images@[j as int]@);
            return true;
        }
        assert(views(images@)[j as int] == images@[j as int]@);
        j = j + 1;
    }
    false
}

/// Whether the tool is among the running process images (lowercase).
pub fn is_running(t: &Tool, images: &Vec<String>) -> (b: bool)
    ensures
        b == runs(t.exe, t.aliases@, views(images@)),
{
    let names = exe_and_aliases(t);
    let mut k: usize = 0;
    while k < names.len()
        invariant
            k <= names.len(),
            names@ == seq![t.exe].add(t.aliases@),
            forall|kk: int, j: int|
                0 <= kk < k && 0 <= j < images.len() ==> views(images@)[j] != lowercase(names@[kk]@),
        decreases names.len() - k,
    {
        if image_listed(names[k], images) {
            return true;
        }
        k = k + 1;
    }
    assert forall|kk: int, j: int|
        0 <= kk <= t.aliases@.len() && 0 <= j < views(images@).len() implies views(images@)[j]
            != lowercase((seq![t.exe].add(t.aliases@)[kk])@) by {
        assert(names@[kk] == seq![t.exe].add(t.aliases@)[kk]);
    }
    false
}

fn exe_and_aliases(t: &Tool) -> (v: Vec<&'static str>)
    ensures
        v@ == seq![t.exe].add(t.aliases@),
{
    let mut v: Vec<&'static str> = Vec::new();
    v.push(t.exe);
    let mut i: usize = 0;
    while i < t.aliases.len()
        invariant
            i <= t.aliases.len(),
            v@ == seq![t.exe].add(t.aliases@.take(i as int)),
        decreases t.aliases.len() - i,
    {
        v.push(t.aliases[i]);
        assert(seq![t.exe].add(t.aliases@.take(i as int + 1)) =~= seq![t.exe].add(
            t.aliases@.take(i as int),
        ).push(t.aliases@[i as int]));
        i = i + 1;
    }
    assert(t.aliases@.take(t.aliases.len() as int) == t.aliases@);
    v
}

/// What `statuses` reports for the `i`-th provider link: the state of the tool at
/// `linked_tool(i)`, located at `paths[linked_tool(i)]`.
pub open spec fn reports(
    entry: (&'static str, ToolStatus),
    i: int,
    paths: Seq<Option<String>>,
    images: Seq<Seq<char>>,
) -> bool {
    let j = linked_tool(i);
    let (provider, s) = entry;
    &&& provider == provider_tools()[i].0
    &&& s.id == tool_ids()[j]
    &&& s.name == tool_names()[j]
    &&& s.path == paths[j]
    &&& s.installed == paths[j] is Some
    &&& s.certain == tool_needles()[j] is Some
    &&& s.running == runs(tool_exes()[j], tool_aliases()[j], images)
    &&& s.launchable == (s.installed && !s.running)
}

/// A portable tool is never claimed absent: whatever was located and whatever runs, the
/// state reported for a provider that depends on it is never `certain`.
pub proof fn law_portable_tools_are_not_claimed_absent(
    entry: (&'static str, ToolStatus),
    i: int,
    paths: Seq<Option<String>>,
    images: Seq<Seq<char>>,
)
    requires
        reports(entry, i, paths, images),
        tool_needles()[linked_tool(i)] is None,
    ensures
        !entry.1.certain,
        entry.1.launchable ==> entry.1.installed && !entry.1.running,
{
}

/// The state of the tool each external provider depends on, in provider order. `paths`
/// holds where each known tool was located (in table order, `None` when it was not),
/// `images` the running process images in lowercase.
pub fn statuses(paths: &Vec<Option<String>>, images: &Vec<String>) -> (v: Vec<(&'static str, ToolStatus)>)
    requires
        paths.len() == TOOL_COUNT,
    ensures
        v.len() == provider_tools().len(),
        forall|i: int| 0 <= i < v.len() ==> reports(#[trigger] v@[i], i, paths@, views(images@)),
{
    let table = tools();
    let links = by_provider();
    let mut v: Vec<(&'static str, ToolStatus)> = Vec::new();
    let mut i: usize = 0;
    while i < links.len()
        invariant
            i <= links.len(),
            links@ == provider_tools(),
            paths.len() == TOOL_COUNT,
            table.len() == TOOL_COUNT,
            forall|k: int| 0 <= k < TOOL_COUNT ==> describes(#[trigger] table@[k], k),
            v.len() == i,
            forall|k: int| 0 <= k < i ==> reports(#[trigger] v@[k], k, paths@, views(images@)),
        decreases links.len() - i,
    {
        let (provider, _) = links[i];
        let j: usize = if i < 2 { i } else { 2 };
        assert(describes(table@[j as int], j as int));
        let path = match &paths[j] {
            Some(p) => Some(p.clone()),
            None => None,
        };
        let s = ToolStatus::new(&table[j], path, is_running(&table[j], images));
        v.push((provider, s));
        assert(reports(v@[i as int], i as int, paths@, views(images@)));
        i = i + 1;
    }
    v
}

/// The names of the `%VAR%` references of a path, in order. A `%` without its closing
/// partner ends the scan.
pub open spec fn var_names(rest: Seq<char>) -> Seq<Seq<char>>
    decreases rest.len(),
{
    let start = position_of(rest, '%');
    if start >= rest.len() {
        Seq::empty()
    } else {
        let after = rest.skip(start + 1);
        let end = position_of(after, '%');
        if end >= after.len() {
            Seq::empty()
        } else {
            proof {
                lemma_position_bounds(rest, '%');
                lemma_position_bounds(after, '%');
            }
            seq![after.take(end)] + var_names(after.skip(end + 1))
        }
    }
}

/// A path with its `%VAR%` references replaced, in order, by the given values. An unset
/// variable (`None`, or no value at all) leaves its reference as written, which makes the
/// path fail its existence test.
pub open spec fn expansion(rest: Seq<char>, values: Seq<Option<String>>) -> Seq<char>
    decreases rest.len(),
{
    let start = position_of(rest, '%');
    if start >= rest.len() {
        rest
    } else {
        let after = rest.skip(start + 1);
        let end = position_of(after, '%');
        if end >= after.len() {
            rest
        } else {
            proof {
                lemma_position_bounds(rest, '%');
                lemma_position_bounds(after, '%');
            }
            let name = after.take(end);
            let value = if values.len() > 0 && values[0] is Some {
                values[0]->0@
            } else {
                "%"@ + name + "%"@
            };
            let others = if values.len() > 0 { values.drop_first() } else { values };
            rest.take(start) + value + expansion(after.skip(end + 1), others)
        }
    }
}

/// A path whose variables are all unset comes out of the expansion as it was written:
/// it then simply fails its existence test.
pub proof fn law_unset_variables_leave_the_path_as_written(
    path: Seq<char>,
    values: Seq<Option<String>>,
)
    requires
        forall|i: int| 0 <= i < values.len() ==> (#[trigger] values[i]) is None,
    ensures
        expansion(path, values) == path,
    decreases path.len(),
{
    let start = position_of(path, '%');
    lemma_position_bounds(path, '%');
    if start < path.len() {
        let after = path.skip(start + 1);
        let end = position_of(after, '%');
        lemma_position_bounds(after, '%');
        if end < after.len() {
            let others = if values.len() > 0 {
                values.drop_first()
            } else {
                values
            };
            assert forall|i: int| 0 <= i < others.len() implies (#[trigger] others[i]) is None by {
                if values.len() > 0 {
                    assert(others[i] == values[i + 1]);
                }
            }
            law_unset_variables_leave_the_path_as_written(after.skip(end + 1), others);
            reveal_strlit("%");
            assert(path =~= path.take(start) + ("%"@ + after.take(end) + "%"@) + after.skip(
                end + 1,
            ));
        }
    }
}

/// The variables a path refers to, to be looked up in the environment.
pub fn variables(path: &str) -> (v: Vec<String>)
    ensures
        views(v@) == var_names(path@),
{
    let mut rest = chars_of(path);
    let mut v: Vec<String> = Vec::new();
    loop
        invariant
            var_names(path@) == views(v@) + var_names(rest@),
        decreases rest.len(),
    {
        let start = find(&rest, '%');
        if start >= rest.len() {
            assert(var_names(path@) =~= views(v@));
            return v;
        }
        let after_text = string_of_range(&rest, start + 1, rest.len());
        let after = chars_of(after_text.as_str());
        assert(after@ == rest@.skip(start + 1));
        let end = find(&after, '%');
        if end >= after.len() {
            assert(var_names(path@) =~= views(v@));
            return v;
        }
        let ghost before = v@;
        let name = string_of_range(&after, 0, end);
        assert(after@.subrange(0, end as int) == after@.take(end as int));
        v.push(name);
        let next_text = string_of_range(&after, end + 1, after.len());
        let next = chars_of(next_text.as_str());
        assert(next@ == after@.skip(end + 1));
        assert(views(v@) =~= views(before).push(name@));
        assert(views(v@) + var_names(next@) =~= views(before) + (seq![name@] + var_names(
            next@,
        )));
        rest = next;
    }
}

/// Expands the `%VAR%` references of a path with the values the environment gave for
/// `variables(path)`, in the same order.
pub fn expand(path: &str, values: &Vec<Option<String>>) -> (r: String)
    ensures
        r@ == expansion(path@, values@),
{
    let mut rest = chars_of(path);
    let mut out = String::new();
    let mut k: usize = 0;
    assert(values@.skip(0) =~= values@);
    assert(out@ + expansion(rest@, values@) =~= expansion(path@, values@));
    loop
        invariant
            k <= values.len(),
            expansion(path@, values@) == out@ + expansion(rest@, values@.skip(k as int)),
        decreases rest.len(),
    {
        let ghost vals = values@.skip(k as int);
        let start = find(&rest, '%');
        if start >= rest.len() {
            let tail = string_of(&rest);
            return concat(out.as_str(), tail.as_str());
        }
        let after_text = string_of_range(&rest, start + 1, rest.len());
        let after = chars_of(after_text.as_str());
        assert(after@ == rest@.skip(start + 1));
        let end = find(&after, '%');
        if end >= after.len() {
            let tail = string_of(&rest);
            return concat(out.as_str(), tail.as_str());
        }
        let head = string_of_range(&rest, 0, start);
        assert(rest@.subrange(0, start as int) == rest@.take(start as int));
        let name = string_of_range(&after, 0, end);
        assert(after@.subrange(0, end as int) == after@.take(end as int));
        let known: Option<String> = if k < values.len() {
            match &values[k] {
                Some(x) => Some(x.clone()),
                None => None,
            }
        } else {
            None
        };
        let value = match known {
            Some(x) => x,
            None => concat3("%", name.as_str(), "%"),
        };
        let with_head = concat(out.as_str(), head.as_str());
        out = concat(with_head.as_str(), value.as_str());
        let next_text = string_of_range(&after, end + 1, after.len());
        let next = chars_of(next_text.as_str());
        assert(next@ == after@.skip(end + 1));
        proof {
            if k < values.len() {
                assert(vals[0] == values@[k as int]);
                assert(vals.drop_first() =~= values@.skip(k as int + 1));
            } else {
                assert(vals.len() == 0);
            }
        }
        rest = next;
        if k < values.len() {
            k = k + 1;
        }
    }
}

/// UTF-16 code units decoded, each invalid unit replaced: a unit outside the surrogate
/// range is its own character, a high surrogate followed by a low one stands for one
/// character beyond the basic plane, and any other surrogate becomes U+FFFD.
pub open spec fn utf16_decoded(u: Seq<u16>) -> Seq<char>
    decreases u.len(),
{
    if u.len() == 0 {
        Seq::empty()
    } else if u[0] < 0xD800 || u[0] > 0xDFFF {
        seq![u[0] as char] + utf16_decoded(u.drop_first())
    } else if u[0] <= 0xDBFF && u.len() >= 2 && 0xDC00 <= u[1] <= 0xDFFF {
        seq![((u[0] - 0xD800) * 0x400 + (u[1] - 0xDC00) + 0x10000) as char] + utf16_decoded(
            u.skip(2),
        )
    } else {
        seq!['\u{FFFD}'] + utf16_decoded(u.drop_first())
    }
}

/// Calls `String::from_utf16_lossy`, which decodes the code units and replaces each
/// invalid one by U+FFFD.
#[verifier::external_body]
fn decode_utf16_lossy(units: &[u16]) -> (s: String)
    ensures
        s@ == utf16_decoded(units@),
{
    String::from_utf16_lossy(units)
}

/// Position of the first NUL unit, or the length.
pub open spec fn nul_at(raw: Seq<u16>) -> int
    decreases raw.len(),
{
    if raw.len() == 0 || raw[0] == 0 {
        0
    } else {
        1 + nul_at(raw.drop_first())
    }
}

proof fn lemma_nul_at(raw: Seq<u16>, i: int)
    requires
        0 <= i <= raw.len(),
        forall|j: int| 0 <= j < i ==> raw[j] != 0,
        i == raw.len() || raw[i] == 0,
    ensures
        nul_at(raw) == i,
    decreases i,
{
    if i > 0 {
        lemma_nul_at(raw.drop_first(), i - 1);
    }
}

/// A fixed-width, NUL-terminated UTF-16 name (such as a process image name) as a string:
/// the units before the first NUL, decoded.
pub fn wide_to_string(raw: &[u16]) -> (s: String)
    ensures
        s@ == utf16_decoded(raw@.take(nul_at(raw@))),
{
    let mut len: usize = 0;
    while len < raw.len() && raw[len] != 0
        invariant
            len <= raw@.len(),
            forall|j: int| 0 <= j < len ==> raw@[j] != 0,
        decreases raw@.len() - len,
    {
        len = len + 1;
    }
    proof {
        lemma_nul_at(raw@, len as int);
    }
    let units = vstd::slice::slice_subrange(raw, 0, len);
    assert(units@ == raw@.take(len as int));
    decode_utf16_lossy(units)
}

/// Whether an uninstall entry's `DisplayName` names the tool: the fragment appears in it,
/// whatever the case.
pub fn display_matches(display: &str, needle: &str) -> (b: bool)
    ensures
        b == has_part(lowercase(display@), lowercase(needle@)),
{
    let d = to_lowercase(display);
    let n = to_lowercase(needle);
    str_contains(d.as_str(), n.as_str())
}

/// A path as the registry stores it, without surrounding blanks and quotes.
pub fn unquote_path(raw: &str) -> (r: String)
    ensures
        r@ == stripped(trimmed(raw@), '"'),
{
    let t = str_trim(raw);
    str_trim_matches(t.as_str(), '"')
}

/// The executable a `DisplayIcon` value names: what precedes the icon index, unquoted.
pub fn icon_executable(icon: &str) -> (r: String)
    ensures
        r@ == stripped(trimmed(icon@.take(position_of(icon@, ','))), '"'),
{
    let v = chars_of(icon);
    let end = find(&v, ',');
    let head = string_of_range(&v, 0, end);
    assert(v@.subrange(0, end as int) == icon@.take(position_of(icon@, ',')));
    unquote_path(head.as_str())
}

/// Whether a file name is the tool's executable, ignoring ASCII case.
pub fn same_executable(file_name: &str, exe: &str) -> (b: bool)
    ensures
        b == (ascii_lowered(file_name@) == ascii_lowered(exe@)),
{
    let a = str_to_ascii_lower(file_name);
    let e = str_to_ascii_lower(exe);
    str_eq(a.as_str(), e.as_str())
}

/// The `App Paths` key Windows consults when a program is typed by name.
pub fn app_paths_key(exe: &str) -> (k: String)
    ensures
        k@ == "SOFTWARE\\Microsoft\\Windows\\CurrentVersion\\App Paths\\"@ + exe@,
{
    concat("SOFTWARE\\Microsoft\\Windows\\CurrentVersion\\App Paths\\", exe)
}

/// Whether an address may be handed to the shell: only `http` and `https` ones. An
/// address comes from the interface, and the shell would open an executable just as well.
pub open spec fn web_address(url: Seq<char>) -> bool {
    begins_with(url, "http://"@) || begins_with(url, "https://"@)
}

/// The filter `open_url` applies before asking the shell: `Ok` for a web address, the
/// refusal otherwise.
pub fn check_url(url: &str) -> (r: Result<(), String>)
    ensures
        r is Ok <==> web_address(url@),
        r matches Err(e) ==> e@ == "adresse refusée : "@ + url@,
{
    if str_starts_with(url, "http://") || str_starts_with(url, "https://") {
        Ok(())
    } else {
        Err(concat("adresse refusée : ", url))
    }
}

/// What the shell's answer to opening an address means: beyond 32 a success, otherwise a
/// historical error code.
pub fn opened(code: i64) -> (r: Result<(), String>)
    ensures
        r is Ok <==> code > 32,
        r matches Err(e) ==> e@ == "ouverture impossible (code "@ + signed_decimal(code as int)
            + ")"@,
{
    if code > 32 {
        Ok(())
    } else {
        let c = decimal_i64(code);
        Err(concat3("ouverture impossible (code ", c.as_str(), ")"))
    }
}

/// The executable to launch for a tool, given where each known tool was located (in
/// table order): the tool must be known, and located.
pub fn launch_target(tool_id: &str, paths: &Vec<Option<String>>) -> (r: Result<String, String>)
    requires
        paths.len() == TOOL_COUNT,
    ensures
        match known_tool(tool_id@) {
            None => r matches Err(e) && e@ == "outil inconnu : "@ + tool_id@,
            Some(j) => match paths@[j] {
                Some(p) => r matches Ok(q) && q@ == p@,
                None => r matches Err(e) && e@ == tool_names()[j]@
                    + " est introuvable sur cette machine"@,
            },
        },
{
    match tool_index(tool_id) {
        None => Err(concat("outil inconnu : ", tool_id)),
        Some(j) => {
            let table = tools();
            assert(describes(table@[j as int], j as int));
            match &paths[j] {
                Some(p) => Ok(p.clone()),
                None => Err(concat(table[j].name, " est introuvable sur cette machine")),
            }
        },
    }
}

/// How a failed launch is reported after the tool's name.
pub open spec fn launch_failure(code: i64) -> Seq<char> {
    if code == 5 {
        " : élévation non accordée"@
    } else if code == 2 || code == 3 {
        " : introuvable à l'emplacement connu"@
    } else {
        " : lancement impossible (code "@ + signed_decimal(code as int) + ")"@
    }
}

/// What the shell's answer to launching a tool means: beyond 32 a success, otherwise a
/// historical error code, of which refused elevation and a missing file are told apart.
pub fn launched(name: &str, code: i64) -> (r: Result<(), String>)
    ensures
        r is Ok <==> code > 32,
        r matches Err(e) ==> e@ == name@ + launch_failure(code),
{
    if code > 32 {
        Ok(())
    } else if code == 5 {
        Err(concat(name, " : élévation non accordée"))
    } else if code == 2 || code == 3 {
        Err(concat(name, " : introuvable à l'emplacement connu"))
    } else {
        let c = decimal_i64(code);
        let head = concat(name, " : lancement impossible (code ");
        Err(concat(head.as_str(), concat(c.as_str(), ")").as_str()))
    }
}

} // verus!
