//! Names and rotation of the per-session log files.

use vstd::prelude::*;
use vstd::string::StringExecFns;
use crate::text::{ends_with, starts_with, strip_suffix};

verus! {

/// Whether a file name is that of a session log: it begins with
/// `RainyDesk_` and ends with `.log`.
pub open spec fn is_session_log_name(name: Seq<char>) -> bool {
    "RainyDesk_"@.is_prefix_of(name) && ".log"@.is_suffix_of(name)
}

/// The name of the session log for a time stamp.
pub open spec fn session_log_name_of(stamp: Seq<char>) -> Seq<char> {
    "RainyDesk_"@ + stamp + ".log"@
}

/// A file name without any `.log` at its end, however often it is repeated.
pub open spec fn log_stem_of(name: Seq<char>) -> Seq<char>
    decreases name.len(),
{
    if ".log"@.len() > 0 && ".log"@.is_suffix_of(name) {
        log_stem_of(name.take(name.len() - ".log"@.len()))
    } else {
        name
    }
}

/// How many of `count` log files, oldest first, have to go so that fewer
/// than `max_logs` are left.
pub open spec fn surplus_logs(count: int, max_logs: int) -> int {
    if count >= max_logs {
        count - max_logs + 1
    } else {
        0
    }
}

/// The local time as text. This calls `Local::now` of chrono and renders
/// the result with `DateTime::format`; the text depends on the clock and
/// the time zone, so nothing is claimed of it.
#[verifier::external_body]
fn local_timestamp(format: &str) -> (stamp: String)
    requires
        format@ == "%Y-%m-%d_%H-%M-%S"@,
{
    chrono::Local::now().format(format).to_string()
}

/// Whether a file name is that of a session log.
pub fn is_rainydesk_log(file_name: &str) -> (log: bool)
    ensures
        log == is_session_log_name(file_name@),
{
    starts_with(file_name, "RainyDesk_") && ends_with(file_name, ".log")
}

/// The name of the session log for a time stamp.
pub fn session_log_name(stamp: &str) -> (name: String)
    ensures
        name@ == session_log_name_of(stamp@),
        is_session_log_name(name@),
{
    let name = String::from_str("RainyDesk_").concat(stamp).concat(".log");
    proof {
        let a = "RainyDesk_"@;
        let c = ".log"@;
        assert(name@.subrange(0, a.len() as int) =~= a);
        assert(name@.subrange(name@.len() - c.len(), name@.len() as int) =~= c);
    }
    name
}

/// The name of the log file of a session that starts now.
pub fn new_session_log_name() -> (name: String)
    ensures
        is_session_log_name(name@),
        exists|stamp: Seq<char>| name@ == session_log_name_of(stamp),
{
    let stamp = local_timestamp("%Y-%m-%d_%H-%M-%S");
    let name = session_log_name(stamp.as_str());
    assert(name@ == session_log_name_of(stamp@));
    name
}

/// How many log files, oldest first, are deleted before a new session log
/// is started, so that fewer than `max_logs` remain.
pub fn cleanup_old_logs(count: usize, max_logs: usize) -> (remove: usize)
    requires
        max_logs > 0,
    ensures
        remove == surplus_logs(count as int, max_logs as int),
        remove <= count,
        count - remove < max_logs,
{
    if count >= max_logs {
        count - max_logs + 1
    } else {
        0
    }
}

/// Whether a log file is deleted for its size: its size is known and more
/// than `max_bytes`.
pub fn is_oversized_log(size: Option<u64>, max_bytes: u64) -> (oversized: bool)
    ensures
        oversized == (size matches Some(bytes) && bytes > max_bytes),
{
    match size {
        Some(bytes) => bytes > max_bytes,
        None => false,
    }
}

/// The log file's name as the log sink wants it: without `.log` at the end.
pub fn log_file_stem(file_name: &str) -> (stem: &str)
    ensures
        stem@ == log_stem_of(file_name@),
{
    proof {
        reveal_strlit(".log");
    }
    let mut stem = file_name;
    loop
        invariant
            ".log"@.len() == 4,
            log_stem_of(stem@) == log_stem_of(file_name@),
        ensures
            stem@ == log_stem_of(file_name@),
        decreases stem@.len(),
    {
        match strip_suffix(stem, ".log") {
            Some(shorter) => {
                stem = shorter;
            },
            None => {
                break;
            },
        }
    }
    stem
}

} // verus!
