//! The status listing: one line for each descriptor of the config
//! directory.
//!
//! The host reads what there is to read of each descriptor: the descriptor
//! itself, the PID file of its daemon, and the statistics of the process
//! that the PID file names. The library decides what line comes of it.

use crate::config::{ConfigFile, ConfigView};
use crate::control::{name_of_file, tracked_name};
use crate::remote::{extract_repo_info, repo_info};
use crate::text::{chars_of, same_text, trim, trimmed};
use vstd::prelude::*;
use vstd::string::*;

verus! {

/// One row of the status listing.
#[derive(Debug, Clone, PartialEq, Eq)]
pub struct WatchStats {
    pub pid: String,
    pub name: String,
    pub repo: String,
    pub branch: String,
    pub cpu: String,
    pub memory: String,
    pub status: String,
}

/// A snapshot of one process, as the operating system reports it.
#[derive(Debug, Clone, PartialEq, Eq)]
pub struct SysInfo {
    pub name: String,
    pub cpu_usage: String,
    pub memory: String,
    pub status: String,
}

/// What the host has read of one descriptor.
#[derive(Debug, PartialEq, Eq)]
pub struct StatusProbe {
    /// The name of the descriptor's file in the config directory.
    pub file_name: String,
    /// The descriptor, or why it could not be loaded.
    pub config: Result<ConfigFile, String>,
    /// The content of the daemon's PID file, where there is one.
    pub pid: Option<String>,
    /// The snapshot of the process that the PID file names, where there is
    /// a PID file and the process was found.
    pub sample: Option<SysInfo>,
}

/// What the status listing says of one descriptor.
#[derive(Debug, Clone, PartialEq, Eq)]
pub enum StatusLine {
    /// A row of the table.
    Row(WatchStats),
    /// The descriptor could not be loaded.
    Unreadable { file_name: String, message: String },
    /// The remote locator of the descriptor cannot be resolved.
    Unresolved { file_name: String },
    /// There is a PID file, but no process with that id was found.
    Stale { name: String, pid: String },
}

/// What a [`WatchStats`] holds, as mathematical values.
pub struct WatchStatsView {
    pub pid: Seq<char>,
    pub name: Seq<char>,
    pub repo: Seq<char>,
    pub branch: Seq<char>,
    pub cpu: Seq<char>,
    pub memory: Seq<char>,
    pub status: Seq<char>,
}

/// What a [`SysInfo`] holds, as mathematical values.
pub struct SysInfoView {
    pub name: Seq<char>,
    pub cpu_usage: Seq<char>,
    pub memory: Seq<char>,
    pub status: Seq<char>,
}

/// What a [`StatusProbe`] holds, as mathematical values.
pub struct StatusProbeView {
    pub file_name: Seq<char>,
    pub config: Result<ConfigView, Seq<char>>,
    pub pid: Option<Seq<char>>,
    pub sample: Option<SysInfoView>,
}

/// What a [`StatusLine`] holds, as mathematical values.
pub enum StatusLineView {
    Row(WatchStatsView),
    Unreadable { file_name: Seq<char>, message: Seq<char> },
    Unresolved { file_name: Seq<char> },
    Stale { name: Seq<char>, pid: Seq<char> },
}

impl View for WatchStats {
    type V = WatchStatsView;

    open spec fn view(&self) -> WatchStatsView {
        WatchStatsView {
            pid: self.pid@,
            name: self.name@,
            repo: self.repo@,
            branch: self.branch@,
            cpu: self.cpu@,
            memory: self.memory@,
            status: self.status@,
        }
    }
}

impl View for SysInfo {
    type V = SysInfoView;

    open spec fn view(&self) -> SysInfoView {
        SysInfoView {
            name: self.name@,
            cpu_usage: self.cpu_usage@,
            memory: self.memory@,
            status: self.status@,
        }
    }
}

impl View for StatusProbe {
    type V = StatusProbeView;

    open spec fn view(&self) -> StatusProbeView {
        StatusProbeView {
            file_name: self.file_name@,
            config: match self.config {
                Ok(c) => Ok(c@),
                Err(m) => Err(m@),
            },
            pid: match self.pid {
                Some(p) => Some(p@),
                None => None,
            },
            sample: match self.sample {
                Some(s) => Some(s@),
                None => None,
            },
        }
    }
}

impl View for StatusLine {
    type V = StatusLineView;

    open spec fn view(&self) -> StatusLineView {
        match *self {
            StatusLine::Row(r) => StatusLineView::Row(r@),
            StatusLine::Unreadable { file_name, message } => StatusLineView::Unreadable {
                file_name: file_name@,
                message: message@,
            },
            StatusLine::Unresolved { file_name } => StatusLineView::Unresolved {
                file_name: file_name@,
            },
            StatusLine::Stale { name, pid } => StatusLineView::Stale { name: name@, pid: pid@ },
        }
    }
}

/// How the listing shows the repository of `owner` called `name`.
pub open spec fn repo_label(owner: Seq<char>, name: Seq<char>) -> Seq<char> {
    owner + "/"@ + name + ".git"@
}

/// The row of a tracked repository that no daemon watches: the process id
/// and the statistics are placeholders.
pub open spec fn unwatched_row(name: Seq<char>, repo: Seq<char>, branch: Seq<char>) -> WatchStatsView {
    WatchStatsView {
        pid: "N/A"@,
        name,
        repo,
        branch,
        cpu: "N/A"@,
        memory: "N/A"@,
        status: "unwatched"@,
    }
}

/// The row of a tracked repository whose daemon runs as process `pid`.
pub open spec fn watched_row(
    name: Seq<char>,
    pid: Seq<char>,
    repo: Seq<char>,
    branch: Seq<char>,
    sample: SysInfoView,
) -> WatchStatsView {
    WatchStatsView {
        pid,
        name,
        repo,
        branch,
        cpu: sample.cpu_usage,
        memory: sample.memory,
        status: "watched"@,
    }
}

/// What the listing says of one descriptor.
///
/// A descriptor that could not be loaded, or whose remote locator cannot be
/// resolved, gives no row. Without a PID file the repository is unwatched.
/// With one, it is watched if the process was found; if not, the PID file is
/// stale, which gives no row either.
pub open spec fn line_of(p: StatusProbeView) -> StatusLineView {
    match p.config {
        Err(message) => StatusLineView::Unreadable { file_name: p.file_name, message },
        Ok(config) => match repo_info(config.repo) {
            None => StatusLineView::Unresolved { file_name: p.file_name },
            Some((owner, repo)) => {
                let name = name_of_file(p.file_name);
                let label = repo_label(owner, repo);
                let branch = config.resolved_branch();
                match p.pid {
                    None => StatusLineView::Row(unwatched_row(name, label, branch)),
                    Some(content) => match p.sample {
                        Some(sample) => StatusLineView::Row(
                            watched_row(name, trimmed(content), label, branch, sample),
                        ),
                        None => StatusLineView::Stale { name, pid: trimmed(content) },
                    },
                }
            },
        },
    }
}

/// Whether a row with this status is shown as watched.
pub fn marks_watched(status: &str) -> (r: bool)
    ensures
        r == (status@ == "watched"@),
{
    same_text(status, "watched")
}

/// Decides the line of one descriptor.
pub fn status_line(probe: &StatusProbe) -> (r: StatusLine)
    ensures
        r@ == line_of(probe@),
{
    let config = match &probe.config {
        Err(message) => {
            return StatusLine::Unreadable {
                file_name: probe.file_name.clone(),
                message: message.clone(),
            };
        },
        Ok(config) => config,
    };
    let (owner, repo) = match extract_repo_info(config.repo.as_str()) {
        None => {
            return StatusLine::Unresolved { file_name: probe.file_name.clone() };
        },
        Some(info) => info,
    };
    let name = String::from_str(tracked_name(probe.file_name.as_str()));
    let mut label = String::from_str(owner);
    label.append("/");
    label.append(repo);
    label.append(".git");
    let branch = config.resolved_branch();
    match &probe.pid {
        None => StatusLine::Row(
            WatchStats {
                pid: String::from_str("N/A"),
                name,
                repo: label,
                branch,
                cpu: String::from_str("N/A"),
                memory: String::from_str("N/A"),
                status: String::from_str("unwatched"),
            },
        ),
        Some(content) => {
            let pid = String::from_str(trim(content.as_str()));
            match &probe.sample {
                Some(sample) => StatusLine::Row(
                    WatchStats {
                        pid,
                        name,
                        repo: label,
                        branch,
                        cpu: sample.cpu_usage.clone(),
                        memory: sample.memory.clone(),
                        status: String::from_str("watched"),
                    },
                ),
                None => StatusLine::Stale { name, pid },
            }
        },
    }
}

/// Decides the lines of the status listing, one for each descriptor, in the
/// order of `probes`.
pub fn show_status(probes: &Vec<StatusProbe>) -> (r: Vec<StatusLine>)
    ensures
        r.len() == probes.len(),
        forall|i: int| 0 <= i < r.len() ==> (#[trigger] r@[i])@ == line_of(probes@[i]@),
{
    let mut lines: Vec<StatusLine> = Vec::new();
    let count = probes.len();
    let mut i: usize = 0;
    while i < count
        invariant
            i <= count,
            count == probes.len(),
            lines.len() == i,
            forall|j: int| 0 <= j < i ==> (#[trigger] lines@[j])@ == line_of(probes@[j]@),
        decreases count - i,
    {
        lines.push(status_line(&probes[i]));
        i += 1;
    }
    lines
}

/// A tracked repository without a PID file is listed as unwatched, with
/// placeholders for the process id and the statistics, whatever else was
/// read: the row depends on the file's name and the descriptor alone.
pub proof fn without_pid_file_unwatched(p: StatusProbeView)
    requires
        p.config is Ok,
        repo_info(p.config->Ok_0.repo) is Some,
        p.pid is None,
    ensures
        line_of(p) matches StatusLineView::Row(row) && {
            &&& row.status == "unwatched"@
            &&& row.pid == "N/A"@
            &&& row.cpu == "N/A"@
            &&& row.memory == "N/A"@
            &&& row.name == name_of_file(p.file_name)
            &&& row.branch == p.config->Ok_0.resolved_branch()
            &&& row.repo == repo_label(
                repo_info(p.config->Ok_0.repo)->Some_0.0,
                repo_info(p.config->Ok_0.repo)->Some_0.1,
            )
        },
{
}

/// Whether `c` is one of the ten decimal digits.
pub open spec fn is_digit(c: char) -> bool {
    0x30 <= c as u32 <= 0x39
}

/// Whether `s` is made of decimal digits only.
pub open spec fn all_digits(s: Seq<char>) -> bool {
    forall|i: int| 0 <= i < s.len() ==> is_digit(#[trigger] s[i])
}

/// The number that the decimal digits `s` write.
pub open spec fn decimal(s: Seq<char>) -> nat
    decreases s.len(),
{
    if s.len() == 0 {
        0
    } else {
        10 * decimal(s.drop_last()) + (s.last() as u32 - 0x30) as nat
    }
}

/// The process id that `text` writes: one or more decimal digits, which a
/// `+` may precede, for a number that fits the machine word.
pub open spec fn process_id(text: Seq<char>) -> Option<usize> {
    let digits = if text.len() > 0 && text[0] == '+' {
        text.drop_first()
    } else {
        text
    };
    if digits.len() > 0 && all_digits(digits) && decimal(digits) <= usize::MAX {
        Some(decimal(digits) as usize)
    } else {
        None
    }
}

/// A number is at least what any beginning of its digits writes.
pub proof fn lemma_decimal_grows(s: Seq<char>, k: int)
    requires
        0 <= k <= s.len(),
        all_digits(s),
    ensures
        decimal(s.take(k)) <= decimal(s),
    decreases s.len() - k,
{
    if k == s.len() {
        assert(s.take(k) =~= s);
    } else {
        let t = s.drop_last();
        assert(all_digits(t)) by {
            assert forall|i: int| 0 <= i < t.len() implies is_digit(#[trigger] t[i]) by {
                assert(t[i] == s[i]);
            }
        }
        lemma_decimal_grows(t, k);
        assert(t.take(k) =~= s.take(k));
        assert(is_digit(s[s.len() - 1]));
    }
}

/// Reads a process id.
pub fn parse_pid(text: &str) -> (r: Option<usize>)
    ensures
        r == process_id(text@),
{
    let v = chars_of(text);
    let n = v.len();
    let start: usize = if n > 0 && v[0] == '+' {
        1
    } else {
        0
    };
    let ghost digits = if text@.len() > 0 && text@[0] == '+' {
        text@.drop_first()
    } else {
        text@
    };
    assert(digits =~= v@.subrange(start as int, n as int));
    if start == n {
        return None;
    }
    let mut value: usize = 0;
    let mut i: usize = start;
    while i < n
        invariant
            start <= i <= n,
            n == v.len(),
            digits == v@.subrange(start as int, n as int),
            digits == if text@.len() > 0 && text@[0] == '+' {
                text@.drop_first()
            } else {
                text@
            },
            all_digits(digits.take(i - start)),
            value == decimal(digits.take(i - start)),
        decreases n - i,
    {
        let code: u32 = v[i] as u32;
        if code < 0x30 || code > 0x39 {
            assert(!is_digit(digits[i - start]));
            return None;
        }
        let d: usize = (code - 0x30) as usize;
        let ghost grown = digits.take(i - start + 1);
        proof {
            assert(grown.drop_last() =~= digits.take(i - start));
            assert(grown.last() == v@[i as int]);
            assert forall|j: int| 0 <= j < grown.len() implies is_digit(#[trigger] grown[j]) by {
                if j < i - start {
                    assert(digits.take(i - start)[j] == grown[j]);
                }
            }
        }
        if value > (usize::MAX - d) / 10 {
            proof {
                assert(decimal(grown) > usize::MAX);
                if all_digits(digits) {
                    lemma_decimal_grows(digits, i - start + 1);
                }
            }
            return None;
        }
        value = value * 10 + d;
        i += 1;
    }
    assert(digits.take(n - start) =~= digits);
    Some(value)
}

} // verus!
