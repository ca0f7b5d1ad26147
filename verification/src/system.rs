//! Process detection: whether the companion desktop application is running,
//! decided over a snapshot of the process table.

use vstd::prelude::*;
use vstd::string::StrSliceExecFns;

use crate::strutil::join_space;
use crate::strutil::join_with_spaces;
use crate::strutil::is_prefix_of;
use crate::strutil::seq_contains_sub;
use crate::strutil::str_contains_sub;
use crate::strutil::str_has_prefix;

verus! {

/// One running process: its name and its command line.
pub struct ProcessEntry {
    pub name: String,
    pub cmd: Vec<String>,
}

/// Relies on `sysinfo::System`: a snapshot of the processes running now. The
/// result depends on the machine's state, so nothing is promised of it.
#[verifier::external_body]
fn process_snapshot() -> (r: Vec<ProcessEntry>) {
    let system = sysinfo::System::new_with_specifics(
        sysinfo::RefreshKind::nothing().with_processes(
            sysinfo::ProcessRefreshKind::everything(),
        ),
    );
    let mut out = Vec::new();
    for process in system.processes().values() {
        out.push(ProcessEntry {
            name: process.name().to_string_lossy().into_owned(),
            cmd: process.cmd().iter().map(|c| c.to_string_lossy().into_owned()).collect(),
        });
    }
    out
}

/// What `str::to_lowercase` returns: a function of the characters alone.
pub uninterp spec fn lower_of(s: Seq<char>) -> Seq<char>;

/// Relies on `str::to_lowercase`: the lowercase mapping depends on the
/// characters alone.
#[verifier::external_body]
fn lowercase(s: &str) -> (r: String)
    ensures
        r@ == lower_of(s@),
{
    s.to_lowercase()
}

/// Whether two strings hold the same characters.
pub fn str_eq_chars(a: &str, b: &str) -> (r: bool)
    ensures
        r == (a@ == b@),
{
    let al = a.unicode_len();
    let bl = b.unicode_len();
    if al != bl {
        return false;
    }
    let r = str_has_prefix(a, b);
    proof {
        if is_prefix_of(b@, a@) {
            assert(a@.subrange(0, a@.len() as int) =~= a@);
        }
        if a@ == b@ {
            assert(a@.subrange(0, b@.len() as int) =~= b@);
        }
    }
    r
}

/// A process name as the matcher compares it.
pub fn process_name_to_string(name: &str) -> (r: String)
    ensures
        r@ == name@,
{
    name.to_owned()
}

/// A process command line as one space-joined string.
pub fn process_cmd_to_string(cmd: &Vec<String>) -> (r: String)
    ensures
        r@ == join_space(cmd.deep_view()),
{
    join_with_spaces(cmd)
}

/// Some process in the table has exactly this name.
pub open spec fn table_has_exact(procs: Seq<ProcessEntry>, name: Seq<char>) -> bool {
    exists|i: int| 0 <= i < procs.len() && (#[trigger] procs[i]).name@ == name
}

/// Whether any process in the table is named exactly `name`.
pub fn process_table_matches_exact(name: &str, procs: &Vec<ProcessEntry>) -> (r: bool)
    ensures
        r == table_has_exact(procs@, name@),
{
    let mut i: usize = 0;
    while i < procs.len()
        invariant
            0 <= i <= procs@.len(),
            forall|k: int| 0 <= k < i ==> (#[trigger] procs@[k]).name@ != name@,
        decreases procs@.len() - i,
    {
        if str_eq_chars(procs[i].name.as_str(), name) {
            return true;
        }
        i += 1;
    }
    false
}

/// The fuzzy verdict on one process: its lowercased name or its lowercased
/// command line contains the lowercased pattern.
pub open spec fn entry_matches_fuzzy(entry: ProcessEntry, pattern: Seq<char>) -> bool {
    seq_contains_sub(lower_of(entry.name@), lower_of(pattern)) || seq_contains_sub(
        lower_of(join_space(entry.cmd.deep_view())),
        lower_of(pattern),
    )
}

/// Some process in the table matches the pattern fuzzily.
pub open spec fn table_has_fuzzy(procs: Seq<ProcessEntry>, pattern: Seq<char>) -> bool {
    exists|i: int| 0 <= i < procs.len() && entry_matches_fuzzy(#[trigger] procs[i], pattern)
}

/// Whether any process matches the pattern by case-insensitive substring, in
/// its name or its command line.
pub fn process_table_matches_fuzzy(pattern: &str, procs: &Vec<ProcessEntry>) -> (r: bool)
    ensures
        r == table_has_fuzzy(procs@, pattern@),
{
    let needle = lowercase(pattern);
    let mut i: usize = 0;
    while i < procs.len()
        invariant
            0 <= i <= procs@.len(),
            needle@ == lower_of(pattern@),
            forall|k: int| 0 <= k < i ==> !entry_matches_fuzzy(#[trigger] procs@[k], pattern@),
        decreases procs@.len() - i,
    {
        let entry_name = process_name_to_string(procs[i].name.as_str());
        let name_lower = lowercase(entry_name.as_str());
        if str_contains_sub(name_lower.as_str(), needle.as_str()) {
            return true;
        }
        let cmd_joined = process_cmd_to_string(&procs[i].cmd);
        let cmd_lower = lowercase(cmd_joined.as_str());
        if str_contains_sub(cmd_lower.as_str(), needle.as_str()) {
            return true;
        }
        i += 1;
    }
    false
}

/// Whether a process with exactly this name is running now.
pub fn process_running_exact(name: &str) -> bool {
    let procs = process_snapshot();
    process_table_matches_exact(name, &procs)
}

/// Whether any running process matches this pattern case-insensitively, by
/// name or command line.
pub fn process_running_fuzzy(pattern: &str) -> bool {
    let procs = process_snapshot();
    process_table_matches_fuzzy(pattern, &procs)
}

/// The desktop application's footprints in a process table: either exact
/// process name, or either fuzzy match.
pub open spec fn table_has_signal_desktop(procs: Seq<ProcessEntry>) -> bool {
    table_has_exact(procs, "Signal"@) || table_has_exact(procs, "signal-desktop"@)
        || table_has_fuzzy(procs, "Signal.app"@) || table_has_fuzzy(procs, "signal-desktop"@)
}

/// Whether this process table shows the desktop application running.
pub fn signal_desktop_in_table(procs: &Vec<ProcessEntry>) -> (r: bool)
    ensures
        r == table_has_signal_desktop(procs@),
{
    process_table_matches_exact("Signal", procs) || process_table_matches_exact(
        "signal-desktop",
        procs,
    ) || process_table_matches_fuzzy("Signal.app", procs) || process_table_matches_fuzzy(
        "signal-desktop",
        procs,
    )
}

/// Whether the desktop application is running now.
pub fn is_signal_desktop_running() -> bool {
    process_running_exact("Signal") || process_running_exact("signal-desktop")
        || process_running_fuzzy("Signal.app") || process_running_fuzzy("signal-desktop")
}

} // verus!
