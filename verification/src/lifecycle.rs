//! The commands' rules: when a scheduler may be started, what the hidden
//! state needs, and whether a recorded scheduler is still alive.
//!
//! Reading and writing files and starting processes is the caller's part.
//! The liveness check is advisory: between the check and the record of a new
//! process identifier another scheduler may start.

use crate::error::EngineError;
use vstd::prelude::*;
use vstd::string::StringExecFns;

verus! {

/// The hidden state directory at the project root.
pub const STATE_DIR: &'static str = ".eis";

/// The file in the state directory that holds the scheduler's process
/// identifier as decimal text.
pub const PID_FILE: &'static str = "daemon.pid";

/// The directory whose presence marks a project root.
pub const PROJECT_MARKER: &'static str = ".git";

/// The project's ignore file.
pub const IGNORE_FILE: &'static str = ".gitignore";

#[verifier::external_type_specification]
#[verifier::external_body]
pub struct ExPid(sysinfo::Pid);

#[verifier::external_type_specification]
#[verifier::external_body]
pub struct ExSystem(sysinfo::System);

/// `needle` stands somewhere in `hay`.
pub open spec fn occurs_in(needle: Seq<char>, hay: Seq<char>) -> bool {
    exists|i: int|
        0 <= i <= hay.len() - needle.len() && #[trigger] hay.subrange(i, i + needle.len())
            == needle
}

/// What `str::trim` leaves of a text: the text without the white space at
/// its two ends.
pub uninterp spec fn trimmed(text: Seq<char>) -> Seq<char>;

/// Whether `sysinfo::Pid::from_str` reads a process identifier from a text:
/// whether the text is a number in the range of the platform's identifiers.
pub uninterp spec fn names_process(text: Seq<char>) -> bool;

/// The characters of a text, in order.
fn chars_of(text: &str) -> (chars: Vec<char>)
    ensures
        chars@ == text@,
{
    broadcast use vstd::string::group_string_axioms;

    let mut chars: Vec<char> = Vec::new();
    for c in it: text.chars()
        invariant
            chars@ == it.seq().take(it.index() as int),
            it.seq() == text@,
    {
        chars.push(c);
    }
    assert(chars@ =~= text@);
    chars
}

/// Whether `needle` stands in `hay` at the given place.
fn stands_at(hay: &Vec<char>, needle: &Vec<char>, at: usize) -> (here: bool)
    requires
        at + needle@.len() <= hay@.len(),
    ensures
        here == (hay@.subrange(at as int, at + needle@.len()) == needle@),
{
    let length = hay.len();
    let mut k: usize = 0;
    while k < needle.len()
        invariant
            k <= needle@.len(),
            length == hay@.len(),
            at + needle@.len() <= hay@.len() <= usize::MAX,
            forall|j: int| 0 <= j < k ==> hay@[at + j] == needle@[j],
        decreases needle@.len() - k,
    {
        if hay[at + k] != needle[k] {
            assert(hay@.subrange(at as int, at + needle@.len())[k as int] != needle@[k as int]);
            return false;
        }
        k = k + 1;
    }
    assert(hay@.subrange(at as int, at + needle@.len()) =~= needle@);
    true
}

/// Whether `needle` stands somewhere in `hay`.
pub fn contains_text(hay: &str, needle: &str) -> (found: bool)
    ensures
        found == occurs_in(needle@, hay@),
{
    let hay_chars = chars_of(hay);
    let needle_chars = chars_of(needle);
    if needle_chars.len() > hay_chars.len() {
        return false;
    }
    let last: usize = hay_chars.len() - needle_chars.len();
    let mut at: usize = 0;
    loop
        invariant
            at <= last,
            last == hay_chars@.len() - needle_chars@.len(),
            hay_chars@ == hay@,
            needle_chars@ == needle@,
            forall|i: int|
                0 <= i < at ==> #[trigger] hay@.subrange(i, i + needle@.len()) != needle@,
        decreases last - at,
    {
        if stands_at(&hay_chars, &needle_chars, at) {
            return true;
        }
        if at == last {
            return false;
        }
        at = at + 1;
    }
}

/// `str::trim`: the text without the white space at its two ends.
#[verifier::external_body]
fn trim(text: &str) -> (inner: &str)
    ensures
        inner@ == trimmed(text@),
{
    text.trim()
}

/// `sysinfo::Pid::from_str`: a process identifier from decimal text. There
/// is one exactly where the text names one; which one is not said.
#[verifier::external_body]
fn parse_pid(text: &str) -> (pid: Option<sysinfo::Pid>)
    ensures
        pid is Some <==> names_process(text@),
{
    text.parse::<sysinfo::Pid>().ok()
}

/// `sysinfo::System::new_all`: what the machine runs at this moment.
#[verifier::external_body]
fn system_snapshot() -> (system: sysinfo::System) {
    sysinfo::SystemExt::new_all()
}

/// `sysinfo::System::process`: whether the snapshot holds a process with the
/// given identifier.
#[verifier::external_body]
fn has_process(system: &sysinfo::System, pid: sysinfo::Pid) -> (live: bool) {
    sysinfo::SystemExt::process(system, pid).is_some()
}

/// What a process-identifier file says of a scheduler.
#[derive(Clone, Copy, Debug, PartialEq, Eq, Structural)]
pub enum PidRecord {
    /// There is no file.
    Missing,
    /// The file's text is no process identifier.
    Malformed,
    /// The file names a process, which the machine runs now or not.
    Recorded { live: bool },
}

/// Whether a scheduler is alive, by what its file says: none without a
/// file, the recorded one if the machine runs it; a file that names no
/// process is a `ProcessLifecycleFailure`.
pub open spec fn spec_liveness(record: PidRecord) -> Result<bool, EngineError> {
    match record {
        PidRecord::Missing => Ok(false),
        PidRecord::Malformed => Err(EngineError::ProcessLifecycleFailure),
        PidRecord::Recorded { live } => Ok(live),
    }
}

/// Whether a scheduler is alive, by what its file says.
pub fn liveness(record: PidRecord) -> (running: Result<bool, EngineError>)
    ensures
        running == spec_liveness(record),
{
    match record {
        PidRecord::Missing => Ok(false),
        PidRecord::Malformed => Err(EngineError::ProcessLifecycleFailure),
        PidRecord::Recorded { live } => Ok(live),
    }
}

/// Reads what a process-identifier file says: its text, white space at the
/// ends apart, is parsed as a process identifier, and the machine is asked
/// whether it runs that process now.
pub fn read_pid_record(recorded: Option<&str>) -> (record: PidRecord)
    ensures
        record is Missing <==> recorded is None,
        recorded matches Some(text) ==> (record is Malformed <==> !names_process(
            trimmed(text@),
        )),
{
    match recorded {
        None => PidRecord::Missing,
        Some(text) => match parse_pid(trim(text)) {
            None => PidRecord::Malformed,
            Some(pid) => {
                let system = system_snapshot();
                PidRecord::Recorded { live: has_process(&system, pid) }
            },
        },
    }
}

/// Whether the scheduler that a process-identifier file records is alive.
///
/// No file means no scheduler. A file whose text, white space at the ends
/// apart, is no process identifier is a `ProcessLifecycleFailure`. Else the
/// answer is whether the machine runs a process of that identifier now.
pub fn is_daemon_running(recorded: Option<&str>) -> (running: Result<bool, EngineError>)
    ensures
        recorded is None ==> running == Ok::<bool, EngineError>(false),
        recorded matches Some(text) ==> (running is Err <==> !names_process(trimmed(text@))),
        running matches Err(kind) ==> kind == EngineError::ProcessLifecycleFailure,
        exists|record: PidRecord|
            running == #[trigger] spec_liveness(record) && (record is Missing <==> recorded
                is None),
{
    let record = read_pid_record(recorded);
    let running = liveness(record);
    assert(running == spec_liveness(record));
    running
}

/// What the `watch` command does.
#[derive(Clone, Copy, Debug, PartialEq, Eq, Structural)]
pub enum WatchPlan {
    /// A scheduler is alive: nothing is started.
    AlreadyRunning,
    /// Start a detached scheduler and record its process identifier.
    Spawn,
}

/// What the `status` command reports.
#[derive(Clone, Copy, Debug, PartialEq, Eq, Structural)]
pub enum Status {
    /// There is no hidden state.
    NotInitialized,
    /// The hidden state exists and a scheduler is alive.
    Running,
    /// The hidden state exists and no scheduler is alive.
    NotRunning,
}

/// The rule of the `watch` command.
pub open spec fn spec_plan_watch(initialized: bool, running: bool) -> Result<WatchPlan, EngineError> {
    if !initialized {
        Err(EngineError::NotInitialized)
    } else if running {
        Ok(WatchPlan::AlreadyRunning)
    } else {
        Ok(WatchPlan::Spawn)
    }
}

/// The `watch` command: refused with `NotInitialized` where the hidden state
/// is missing; nothing to do where a scheduler is alive; else a scheduler is
/// to be started.
pub fn plan_watch(initialized: bool, running: bool) -> (plan: Result<WatchPlan, EngineError>)
    ensures
        plan == spec_plan_watch(initialized, running),
{
    if !initialized {
        Err(EngineError::NotInitialized)
    } else if running {
        Ok(WatchPlan::AlreadyRunning)
    } else {
        Ok(WatchPlan::Spawn)
    }
}

/// The `init` command: refused with `NotAProjectRoot` outside a project root.
pub fn plan_init(at_project_root: bool) -> (plan: Result<(), EngineError>)
    ensures
        plan == if at_project_root {
            Ok::<(), EngineError>(())
        } else {
            Err::<(), EngineError>(EngineError::NotAProjectRoot)
        },
{
    if at_project_root {
        Ok(())
    } else {
        Err(EngineError::NotAProjectRoot)
    }
}

/// The `status` command's report.
pub fn status(initialized: bool, running: bool) -> (report: Status)
    ensures
        report == if !initialized {
            Status::NotInitialized
        } else if running {
            Status::Running
        } else {
            Status::NotRunning
        },
{
    if !initialized {
        Status::NotInitialized
    } else if running {
        Status::Running
    } else {
        Status::NotRunning
    }
}

/// The ignore file as it is to be written so that it names the hidden state
/// directory; none where it names it already.
pub open spec fn spec_ignore_patch(existing: Option<Seq<char>>) -> Option<Seq<char>> {
    match existing {
        None => Some(STATE_DIR@),
        Some(text) => if occurs_in(STATE_DIR@, text) {
            None
        } else {
            Some(text + "\n"@ + STATE_DIR@)
        },
    }
}

/// The text of an ignore file that may be missing.
pub open spec fn text_of(existing: Option<&str>) -> Option<Seq<char>> {
    match existing {
        Some(text) => Some(text@),
        None => None,
    }
}

/// The text of a patch that may be none.
pub open spec fn patch_of(patch: Option<String>) -> Option<Seq<char>> {
    match patch {
        Some(text) => Some(text@),
        None => None,
    }
}

/// What to write to the project's ignore file so that it names the hidden
/// state directory: the entry alone where there is no file, the file with the
/// entry on a line after it where the file does not name it, and nothing
/// where it does.
pub fn ignore_patch(existing: Option<&str>) -> (patch: Option<String>)
    ensures
        patch_of(patch) == spec_ignore_patch(text_of(existing)),
{
    match existing {
        None => Some(String::from_str(STATE_DIR)),
        Some(text) => {
            if contains_text(text, STATE_DIR) {
                None
            } else {
                let mut patched = String::from_str(text);
                patched.append("\n");
                patched.append(STATE_DIR);
                Some(patched)
            }
        },
    }
}

} // verus!
