//! Processes that use much of the processor or the memory.

use vstd::prelude::*;
use vstd::string::StringExecFns;
use crate::parse::{decimal_value, parse_bounded, parse_u64, split_chars, split_on};
use crate::text::{
    chars_of, contains_any, is_substring, lowercase_of, replace_each, replacing,
    string_of, to_lowercase,
};
use crate::types::{CheckCategory, ProcessInfo};

verus! {

/// Processes that use much of the processor or the memory.
#[derive(Debug, Clone, Copy)]
pub struct ProcessMonitor;

/// Processor share above which a process counts as heavy: half of the
/// processor, in hundredths of a percent.
pub const HIGH_CPU_CENTIPERCENT: u32 = 5000;

/// Memory above which a process counts as heavy: two gigabytes, in megabytes.
pub const HIGH_MEMORY_MB: u64 = 2048;

/// The name, in lower case, holds the name of a process of the operating
/// system.
pub open spec fn names_system_process(lowered: Seq<char>) -> bool {
    ||| is_substring("system"@, lowered)
    ||| is_substring("registry"@, lowered)
    ||| is_substring("smss.exe"@, lowered)
    ||| is_substring("csrss.exe"@, lowered)
    ||| is_substring("wininit.exe"@, lowered)
    ||| is_substring("services.exe"@, lowered)
    ||| is_substring("lsass.exe"@, lowered)
    ||| is_substring("svchost.exe"@, lowered)
    ||| is_substring("kernel_task"@, lowered)
    ||| is_substring("systemd"@, lowered)
}

/// Whether a name that is already in lower case holds the name of a process
/// of the operating system.
pub fn system_process_named(lowered: &str) -> (system: bool)
    ensures
        system == names_system_process(lowered@),
{
    let mut needles: Vec<&str> = Vec::new();
    needles.push("system");
    needles.push("registry");
    needles.push("smss.exe");
    needles.push("csrss.exe");
    needles.push("wininit.exe");
    needles.push("services.exe");
    needles.push("lsass.exe");
    needles.push("svchost.exe");
    needles.push("kernel_task");
    needles.push("systemd");
    let found = contains_any(lowered, &needles);
    proof {
        if found {
            let i = choose|i: int| 0 <= i < needles@.len() && is_substring(#[trigger] needles@[i]@, lowered@);
            assert(names_system_process(lowered@));
        } else {
            assert(!is_substring(needles@[0]@, lowered@));
            assert(!is_substring(needles@[1]@, lowered@));
            assert(!is_substring(needles@[2]@, lowered@));
            assert(!is_substring(needles@[3]@, lowered@));
            assert(!is_substring(needles@[4]@, lowered@));
            assert(!is_substring(needles@[5]@, lowered@));
            assert(!is_substring(needles@[6]@, lowered@));
            assert(!is_substring(needles@[7]@, lowered@));
            assert(!is_substring(needles@[8]@, lowered@));
            assert(!is_substring(needles@[9]@, lowered@));
        }
    }
    found
}

/// Whether the process belongs to the operating system, by its name without
/// regard to case.
pub fn is_system_process(name: &str) -> (system: bool)
    ensures
        system == names_system_process(lowercase_of(name@)),
{
    let lowered = to_lowercase(name);
    system_process_named(lowered.as_str())
}

/// A name that is already in lower case, made fit for an identifier: blanks
/// and dots become underscores and round brackets are left out.
pub open spec fn sanitized(lowered: Seq<char>) -> Seq<char> {
    replacing(replacing(lowered, seq![' ', '.'], Some('_')), seq!['(', ')'], None)
}

/// A name that is already in lower case, made fit for an identifier.
pub fn sanitize_lowered(lowered: &str) -> (id: String)
    ensures
        id@ == sanitized(lowered@),
{
    let chars = chars_of(lowered);
    let mut separators: Vec<char> = Vec::new();
    separators.push(' ');
    separators.push('.');
    assert(separators@ =~= seq![' ', '.']);
    let mut brackets: Vec<char> = Vec::new();
    brackets.push('(');
    brackets.push(')');
    assert(brackets@ =~= seq!['(', ')']);
    let joined = replace_each(&chars, &separators, Some('_'));
    let cleaned = replace_each(&joined, &brackets, None);
    string_of(&cleaned)
}

/// The name of a process as it stands in identifiers: in lower case, blanks
/// and dots as underscores, round brackets left out.
pub fn sanitize_id(name: &str) -> (id: String)
    ensures
        id@ == sanitized(lowercase_of(name@)),
{
    let lowered = to_lowercase(name);
    sanitize_lowered(lowered.as_str())
}

/// What the monitor has to say about one process.
#[derive(Debug, Clone, Copy, PartialEq, Eq, Structural)]
pub struct ProcessFindings {
    /// The process uses more than half of the processor.
    pub high_cpu: bool,
    /// The process uses more than two gigabytes of memory.
    pub high_memory: bool,
}

/// Bytes in a megabyte.
pub const MEGABYTE: u64 = 1048576;

/// What a line of the process listing says of a process: its name, its
/// number and the bytes of memory that it holds. A line counts where it has
/// at least five fields between commas of which the fourth is a process
/// number and the fifth a number of bytes.
pub open spec fn process_row_of(line: Seq<char>) -> Option<(Seq<char>, u32, u64)> {
    let f = split_on(line, ',');
    if f.len() >= 5 {
        match (decimal_value(f[3]), decimal_value(f[4])) {
            (Some(pid), Some(bytes)) => if pid <= u32::MAX && bytes <= u64::MAX {
                Some((f[1], pid as u32, bytes as u64))
            } else {
                None
            },
            _ => None,
        }
    } else {
        None
    }
}

impl ProcessMonitor {
    /// The process that a line of the process listing describes. The
    /// listing tells nothing of the processor, so that share is zero.
    pub fn parse_process_line(&self, line: &Vec<char>) -> (parsed: Option<ProcessInfo>)
        ensures
            parsed is Some <==> process_row_of(line@) is Some,
            parsed matches Some(process) ==> {
                &&& process_row_of(line@) matches Some(row)
                &&& process.name@ == row.0
                &&& process.pid == row.1
                &&& process.memory_mb == row.2 / MEGABYTE
                &&& process.cpu_centipercent == 0
            },
    {
        let f = split_chars(line, ',');
        if f.len() < 5 {
            return None;
        }
        let pid = parse_bounded(&f[3], 4294967295);
        let bytes = parse_u64(&f[4]);
        match (pid, bytes) {
            (Some(pid), Some(bytes)) => Some(
                ProcessInfo {
                    pid: pid as u32,
                    name: string_of(&f[1]),
                    cpu_centipercent: 0,
                    memory_mb: bytes / MEGABYTE,
                },
            ),
            _ => None,
        }
    }

    /// Identifies the checker.
    pub fn name(&self) -> (name: &'static str)
        ensures
            name@ == "process_monitor"@,
    {
        "process_monitor"
    }

    /// The aspect of the machine that the checker looks at.
    pub fn category(&self) -> (category: CheckCategory)
        ensures
            category == CheckCategory::Performance,
    {
        CheckCategory::Performance
    }

    /// What the monitor has to say about one process. Processes of the
    /// operating system are never reported.
    pub fn findings_for(&self, process: &ProcessInfo) -> (findings: ProcessFindings)
        ensures
            findings.high_cpu == (process.cpu_centipercent > HIGH_CPU_CENTIPERCENT
                && !names_system_process(lowercase_of(process.name@))),
            findings.high_memory == (process.memory_mb > HIGH_MEMORY_MB && !names_system_process(
                lowercase_of(process.name@),
            )),
    {
        let system = is_system_process(process.name.as_str());
        ProcessFindings {
            high_cpu: process.cpu_centipercent > HIGH_CPU_CENTIPERCENT && !system,
            high_memory: process.memory_mb > HIGH_MEMORY_MB && !system,
        }
    }

    /// The identifier of the issue about a process that uses much of the
    /// processor.
    pub fn high_cpu_id(&self, process_name: &str) -> (id: String)
        ensures
            id@ == "high_cpu_"@ + sanitized(lowercase_of(process_name@)),
    {
        let mut id = "high_cpu_".to_owned();
        id.append(sanitize_id(process_name).as_str());
        id
    }

    /// The identifier of the issue about a process that uses much memory.
    pub fn high_memory_id(&self, process_name: &str) -> (id: String)
        ensures
            id@ == "high_memory_"@ + sanitized(lowercase_of(process_name@)),
    {
        let mut id = "high_memory_".to_owned();
        id.append(sanitize_id(process_name).as_str());
        id
    }
}

} // verus!
