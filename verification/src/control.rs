//! The control plane: which daemons to launch, which to stop, and where
//! each one keeps its files.

use crate::commands::{kill, kill_command, remove_file, remove_file_command};
use crate::content::{config_example, CONFIG_EXAMPLE};
use crate::supervisor::{LaunchPlan, LaunchPlanView};
use crate::text::{cut_before, cut_suffix, strip_suffix, text_before, trim, trimmed};
use vstd::prelude::*;
use vstd::string::*;

verus! {

/// The four directories that the daemons of one installation share.
#[derive(Debug, Clone, PartialEq, Eq)]
pub struct Directories {
    /// One descriptor per tracked repository.
    pub config_dir: String,
    /// The working copies.
    pub work_dir: String,
    /// One PID file per running daemon.
    pub process_dir: String,
    /// One log file per daemon.
    pub logs_dir: String,
}

/// What [`Directories`] holds, as mathematical values.
pub struct DirectoriesView {
    pub config_dir: Seq<char>,
    pub work_dir: Seq<char>,
    pub process_dir: Seq<char>,
    pub logs_dir: Seq<char>,
}

impl View for Directories {
    type V = DirectoriesView;

    open spec fn view(&self) -> DirectoriesView {
        DirectoriesView {
            config_dir: self.config_dir@,
            work_dir: self.work_dir@,
            process_dir: self.process_dir@,
            logs_dir: self.logs_dir@,
        }
    }
}

/// What is said before daemons are stopped.
#[derive(Debug, Clone, Copy, PartialEq, Eq)]
pub enum StopNotice {
    /// No daemon was found.
    NothingToStop,
    /// This many daemons are about to be stopped.
    ShuttingDown(usize),
}

/// Which daemons to stop, and what to say of it.
#[derive(Debug, Clone, PartialEq, Eq)]
pub struct StopPlan {
    /// The PID files of the daemons, by their names in the process
    /// directory, in the order in which to stop them.
    pub pid_files: Vec<String>,
    /// What to say first, if anything.
    pub notice: Option<StopNotice>,
    /// Whether to say at the end that the daemons were stopped.
    pub confirm: bool,
}

/// What to do when the user asks for a new descriptor file.
#[derive(Debug, Clone, PartialEq, Eq)]
pub enum ConfigCreation {
    /// The name has a descriptor already, at `path`: nothing is written.
    AlreadyExists { path: String },
    /// Write `content` to the new file `path`.
    Create { path: String, content: String },
}

/// What a [`ConfigCreation`] holds, as mathematical values.
pub enum ConfigCreationView {
    AlreadyExists { path: Seq<char> },
    Create { path: Seq<char>, content: Seq<char> },
}

impl View for ConfigCreation {
    type V = ConfigCreationView;

    open spec fn view(&self) -> ConfigCreationView {
        match *self {
            ConfigCreation::AlreadyExists { path } => ConfigCreationView::AlreadyExists {
                path: path@,
            },
            ConfigCreation::Create { path, content } => ConfigCreationView::Create {
                path: path@,
                content: content@,
            },
        }
    }
}

/// The directories of the installation called `app`.
pub open spec fn layout(app: Seq<char>) -> DirectoriesView {
    DirectoriesView {
        config_dir: "/etc/"@ + app + "/config"@,
        work_dir: "/etc/"@ + app + "/tmp"@,
        process_dir: "/etc/"@ + app + "/process"@,
        logs_dir: "/etc/"@ + app + "/logs"@,
    }
}

/// The descriptor of the tracked repository `name`.
pub open spec fn config_file_of(config_dir: Seq<char>, name: Seq<char>) -> Seq<char> {
    config_dir + "/"@ + name + ".config.json"@
}

/// The PID file of the daemon of `name`.
pub open spec fn pid_file_of(process_dir: Seq<char>, name: Seq<char>) -> Seq<char> {
    process_dir + "/"@ + name + ".watch.pid"@
}

/// The log file of the daemon of `name`.
pub open spec fn log_file_of(logs_dir: Seq<char>, name: Seq<char>) -> Seq<char> {
    logs_dir + "/"@ + name + ".watch.log"@
}

/// The tracked name that a file of the config directory stands for: the
/// file's name without the ending `.config.json`. A file that does not end
/// so is named by what stands before its first dot.
pub open spec fn name_of_file(file: Seq<char>) -> Seq<char> {
    match strip_suffix(file, ".config.json"@) {
        Some(name) => name,
        None => text_before(file, "."@),
    }
}

/// The names to launch daemons for: the one that was asked for, or else the
/// one of each file of the config directory, in the order of the listing.
pub open spec fn launch_names(listed: Seq<Seq<char>>, name: Option<Seq<char>>) -> Seq<Seq<char>> {
    match name {
        Some(n) => seq![n],
        None => listed.map_values(|f: Seq<char>| name_of_file(f)),
    }
}

/// Where the daemon of `name` keeps its files.
pub open spec fn plan_of(dirs: DirectoriesView, name: Seq<char>) -> LaunchPlanView {
    LaunchPlanView {
        name,
        work_dir: dirs.work_dir,
        config_file: config_file_of(dirs.config_dir, name),
        pid_file: pid_file_of(dirs.process_dir, name),
        log_file: log_file_of(dirs.logs_dir, name),
    }
}

/// The PID files of the daemons to stop: the one of the name that was asked
/// for, or else every file of the process directory.
pub open spec fn stop_targets(listed: Seq<Seq<char>>, name: Option<Seq<char>>) -> Seq<Seq<char>> {
    match name {
        Some(n) => seq![n + ".watch.pid"@],
        None => listed,
    }
}

/// What to say before `count` daemons are stopped: nothing when silent.
pub open spec fn stop_notice(count: nat, silent: bool) -> Option<StopNotice> {
    if silent {
        None
    } else if count == 0 {
        Some(StopNotice::NothingToStop)
    } else {
        Some(StopNotice::ShuttingDown(count as usize))
    }
}

/// The text of each string of a list.
pub open spec fn texts(v: Seq<String>) -> Seq<Seq<char>> {
    v.map_values(|s: String| s@)
}

/// The text of an optional string slice.
pub open spec fn optional_text(o: Option<&str>) -> Option<Seq<char>> {
    match o {
        Some(s) => Some(s@),
        None => None,
    }
}

/// Builds [`layout`].
pub fn directories(app: &str) -> (r: Directories)
    ensures
        r@ == layout(app@),
{
    let mut config_dir = String::from_str("/etc/");
    config_dir.append(app);
    config_dir.append("/config");
    let mut work_dir = String::from_str("/etc/");
    work_dir.append(app);
    work_dir.append("/tmp");
    let mut process_dir = String::from_str("/etc/");
    process_dir.append(app);
    process_dir.append("/process");
    let mut logs_dir = String::from_str("/etc/");
    logs_dir.append(app);
    logs_dir.append("/logs");
    Directories { config_dir, work_dir, process_dir, logs_dir }
}

/// Builds [`config_file_of`].
pub fn config_file_path(config_dir: &str, name: &str) -> (r: String)
    ensures
        r@ == config_file_of(config_dir@, name@),
{
    let mut r = String::from_str(config_dir);
    r.append("/");
    r.append(name);
    r.append(".config.json");
    r
}

/// Builds [`pid_file_of`].
pub fn pid_file_path(process_dir: &str, name: &str) -> (r: String)
    ensures
        r@ == pid_file_of(process_dir@, name@),
{
    let mut r = String::from_str(process_dir);
    r.append("/");
    r.append(name);
    r.append(".watch.pid");
    r
}

/// Builds [`log_file_of`].
pub fn log_file_path(logs_dir: &str, name: &str) -> (r: String)
    ensures
        r@ == log_file_of(logs_dir@, name@),
{
    let mut r = String::from_str(logs_dir);
    r.append("/");
    r.append(name);
    r.append(".watch.log");
    r
}

/// The tracked name that a file of the config directory stands for.
pub fn tracked_name(file: &str) -> (r: &str)
    ensures
        r@ == name_of_file(file@),
{
    match cut_suffix(file, ".config.json") {
        Some(name) => name,
        None => cut_before(file, "."),
    }
}

/// Where the daemon of `name` keeps its files.
pub fn launch_plan(dirs: &Directories, name: &str) -> (r: LaunchPlan)
    ensures
        r@ == plan_of(dirs@, name@),
{
    LaunchPlan {
        name: String::from_str(name),
        work_dir: dirs.work_dir.clone(),
        config_file: config_file_path(dirs.config_dir.as_str(), name),
        pid_file: pid_file_path(dirs.process_dir.as_str(), name),
        log_file: log_file_path(dirs.logs_dir.as_str(), name),
    }
}

/// The names to launch daemons for: `name` where it is given, else the name
/// of each file of `listed`, the listing of the config directory.
pub fn resolve_names(listed: &Vec<String>, name: Option<&str>) -> (r: Vec<String>)
    ensures
        texts(r@) == launch_names(texts(listed@), optional_text(name)),
{
    let mut names: Vec<String> = Vec::new();
    match name {
        Some(n) => {
            names.push(String::from_str(n));
            assert(texts(names@) =~= seq![n@]);
        },
        None => {
            let count = listed.len();
            let mut i: usize = 0;
            while i < count
                invariant
                    i <= count,
                    count == listed.len(),
                    names.len() == i,
                    forall|j: int|
                        0 <= j < i ==> (#[trigger] names@[j])@ == name_of_file(listed@[j]@),
                decreases count - i,
            {
                names.push(String::from_str(tracked_name(listed[i].as_str())));
                i += 1;
            }
            assert(texts(names@) =~= texts(listed@).map_values(|f: Seq<char>| name_of_file(f)));
        },
    }
    names
}

/// The daemons to launch: one for `name` where it is given, else one for
/// each file of `listed`, the listing of the config directory.
pub fn run_flow(dirs: &Directories, listed: &Vec<String>, name: Option<&str>) -> (r: Vec<
    LaunchPlan,
>)
    ensures
        r.len() == launch_names(texts(listed@), optional_text(name)).len(),
        forall|i: int|
            0 <= i < r.len() ==> (#[trigger] r@[i])@ == plan_of(
                dirs@,
                launch_names(texts(listed@), optional_text(name))[i],
            ),
{
    let names = resolve_names(listed, name);
    let ghost wanted = launch_names(texts(listed@), optional_text(name));
    assert(texts(names@).len() == names.len());
    let mut plans: Vec<LaunchPlan> = Vec::new();
    let count = names.len();
    let mut i: usize = 0;
    while i < count
        invariant
            i <= count,
            count == names.len(),
            plans.len() == i,
            texts(names@) == wanted,
            forall|j: int| 0 <= j < i ==> (#[trigger] plans@[j])@ == plan_of(dirs@, wanted[j]),
        decreases count - i,
    {
        assert(texts(names@)[i as int] == names@[i as int]@);
        plans.push(launch_plan(dirs, names[i].as_str()));
        i += 1;
    }
    plans
}

/// The daemons to stop and what to say of it: the daemon of `name` where it
/// is given, else one for each file of `listed`, the listing of the process
/// directory.
pub fn stop_all_track(listed: &Vec<String>, name: Option<&str>, silent: bool) -> (r: StopPlan)
    ensures
        texts(r.pid_files@) == stop_targets(texts(listed@), optional_text(name)),
        r.pid_files@.len() == stop_targets(texts(listed@), optional_text(name)).len(),
        r.notice == stop_notice(r.pid_files@.len(), silent),
        r.confirm == (!silent && r.pid_files@.len() > 0),
{
    let mut pid_files: Vec<String> = Vec::new();
    match name {
        Some(n) => {
            let mut file = String::from_str(n);
            file.append(".watch.pid");
            pid_files.push(file);
            assert(texts(pid_files@) =~= seq![n@ + ".watch.pid"@]);
        },
        None => {
            let count = listed.len();
            let mut i: usize = 0;
            while i < count
                invariant
                    i <= count,
                    count == listed.len(),
                    pid_files.len() == i,
                    forall|j: int| 0 <= j < i ==> (#[trigger] pid_files@[j])@ == listed@[j]@,
                decreases count - i,
            {
                pid_files.push(listed[i].clone());
                i += 1;
            }
            assert(texts(pid_files@) =~= texts(listed@));
        },
    }
    let count = pid_files.len();
    let notice = if silent {
        None
    } else if count == 0 {
        Some(StopNotice::NothingToStop)
    } else {
        Some(StopNotice::ShuttingDown(count))
    };
    StopPlan { pid_files, notice, confirm: !silent && count > 0 }
}

/// The two commands that stop one daemon, in the order in which to run
/// them: the first sends the termination signal to the process that the PID
/// file names, the second removes the PID file. The second is to be run
/// whatever comes of the first.
pub fn stop_commands(process_dir: &str, pid_file: &str, content: &str) -> (r: (String, String))
    ensures
        r.0@ == kill_command(trimmed(content@)),
        r.1@ == remove_file_command(process_dir@, pid_file@),
{
    (kill(trim(content)), remove_file(process_dir, pid_file))
}

/// What to do for a new descriptor of `name`: nothing where one exists, else
/// write the boilerplate to the file of that name.
pub open spec fn creation_of(name: Seq<char>, config_dir: Seq<char>, exists: bool) -> ConfigCreationView {
    if exists {
        ConfigCreationView::AlreadyExists { path: config_file_of(config_dir, name) }
    } else {
        ConfigCreationView::Create {
            path: config_file_of(config_dir, name),
            content: CONFIG_EXAMPLE@,
        }
    }
}

/// Decides what to do for a new descriptor of `name`: `exists` says whether
/// the file of that name could be read. An existing descriptor is never
/// overwritten; a new one starts from the boilerplate.
pub fn init_config(name: &str, config_dir: &str, exists: bool) -> (r: ConfigCreation)
    ensures
        r@ == creation_of(name@, config_dir@, exists),
{
    let path = config_file_path(config_dir, name);
    if exists {
        ConfigCreation::AlreadyExists { path }
    } else {
        ConfigCreation::Create { path, content: config_example() }
    }
}

/// The descriptor file of a name stands for that name.
pub proof fn file_of_name_stands_for_name(name: Seq<char>)
    ensures
        name_of_file(name + ".config.json"@) == name,
{
    let suffix = ".config.json"@;
    let file = name + suffix;
    assert(file.subrange(file.len() - suffix.len(), file.len() as int) =~= suffix);
    assert(file.take(file.len() - suffix.len()) =~= name);
}

} // verus!
