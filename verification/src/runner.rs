//! Which program runs an entry point.
//!
//! An entry point without a dot in its name is run by `bash`. Any other is
//! run by the program that belongs to its extension, provided that the
//! program is installed: the host probes it by asking for its version, and
//! the library decides from what came of the probe.

use crate::text::{after_last, cut_after_last, has_char, same_text};
use vstd::prelude::*;
use vstd::string::*;

verus! {

/// What came of asking a program for its version.
#[derive(Debug, Clone, Copy, PartialEq, Eq)]
pub enum Probe {
    /// The program ran and reported success.
    Succeeded,
    /// The program ran and reported a failure.
    Failed,
    /// The program could not be started.
    NotStarted,
}

/// The program that runs files of this extension, and the argument that
/// makes it print its version.
pub open spec fn runner_of(extension: Seq<char>) -> Option<(Seq<char>, Seq<char>)> {
    if extension == "js"@ {
        Some(("node"@, "--version"@))
    } else if extension == "ts"@ {
        Some(("ts-node"@, "--version"@))
    } else if extension == "py"@ {
        Some(("python3"@, "--version"@))
    } else if extension == "sh"@ {
        Some(("bash"@, "--version"@))
    } else if extension == "rb"@ {
        Some(("ruby"@, "--version"@))
    } else if extension == "pl"@ {
        Some(("perl"@, "-v"@))
    } else if extension == "php"@ {
        Some(("php"@, "--version"@))
    } else if extension == "lua"@ {
        Some(("lua"@, "-v"@))
    } else if extension == "go"@ {
        Some(("go"@, "version"@))
    } else if extension == "java"@ {
        Some(("java"@, "-version"@))
    } else {
        None
    }
}

/// What to tell the user when `command` could not be started.
pub open spec fn not_started_message(command: Seq<char>, extension: Seq<char>) -> Seq<char> {
    "Please install `"@ + command + "` to be able to run ."@ + extension + " file"@
}

/// What to tell the user when `command` ran and failed.
pub open spec fn failed_message(command: Seq<char>, extension: Seq<char>) -> Seq<char> {
    "\u{2716} ["@ + command + "] (for ."@ + extension
        + ") not found or returned error \n Please install ["@ + command
        + "] to be able to run ."@ + extension + " file"@
}

/// The runner of an extension that is known, given what came of probing it.
pub open spec fn runner_verdict(extension: Seq<char>, probe: Probe) -> Result<
    Seq<char>,
    Seq<char>,
>
    recommends
        runner_of(extension) is Some,
{
    let command = runner_of(extension)->Some_0.0;
    match probe {
        Probe::Succeeded => Ok(command),
        Probe::NotStarted => Err(not_started_message(command, extension)),
        Probe::Failed => Err(failed_message(command, extension)),
    }
}

/// The runner of an entry point: `bash` where its name has no dot, else the
/// runner of what follows the last dot.
pub open spec fn process_runner(entry_point: Seq<char>, probe: Probe) -> Result<
    Seq<char>,
    Seq<char>,
> {
    if !entry_point.contains('.') {
        Ok("bash"@)
    } else {
        runner_verdict(after_last(entry_point, '.'), probe)
    }
}

/// What a `Result` of two strings holds.
pub open spec fn verdict_view(r: Result<String, String>) -> Result<Seq<char>, Seq<char>> {
    match r {
        Ok(s) => Ok(s@),
        Err(m) => Err(m@),
    }
}

/// Looks up the program that runs files of this extension, and the argument
/// to probe it with.
pub fn runner_for(extension: &str) -> (r: Option<(&'static str, &'static str)>)
    ensures
        match r {
            Some((command, flag)) => runner_of(extension@) == Some((command@, flag@)),
            None => runner_of(extension@) is None,
        },
{
    if same_text(extension, "js") {
        Some(("node", "--version"))
    } else if same_text(extension, "ts") {
        Some(("ts-node", "--version"))
    } else if same_text(extension, "py") {
        Some(("python3", "--version"))
    } else if same_text(extension, "sh") {
        Some(("bash", "--version"))
    } else if same_text(extension, "rb") {
        Some(("ruby", "--version"))
    } else if same_text(extension, "pl") {
        Some(("perl", "-v"))
    } else if same_text(extension, "php") {
        Some(("php", "--version"))
    } else if same_text(extension, "lua") {
        Some(("lua", "-v"))
    } else if same_text(extension, "go") {
        Some(("go", "version"))
    } else if same_text(extension, "java") {
        Some(("java", "-version"))
    } else {
        None
    }
}

/// The extension of an entry point: what follows the last dot of its name.
/// A name without a dot has none.
pub fn entry_extension(entry_point: &str) -> (r: Option<&str>)
    ensures
        match r {
            Some(e) => entry_point@.contains('.') && e@ == after_last(entry_point@, '.'),
            None => !entry_point@.contains('.'),
        },
{
    if has_char(entry_point, '.') {
        Some(cut_after_last(entry_point, '.'))
    } else {
        None
    }
}

/// Decides whether the runner of `extension` can be used, from what came of
/// probing it.
pub fn check_existing_runner(extension: &str, probe: Probe) -> (r: Result<&'static str, String>)
    requires
        runner_of(extension@) is Some,
    ensures
        match r {
            Ok(command) => runner_verdict(extension@, probe) == Ok::<Seq<char>, Seq<char>>(
                command@,
            ),
            Err(message) => runner_verdict(extension@, probe) == Err::<Seq<char>, Seq<char>>(
                message@,
            ),
        },
{
    let command = match runner_for(extension) {
        Some((command, _)) => command,
        None => "bash",
    };
    match probe {
        Probe::Succeeded => Ok(command),
        Probe::NotStarted => {
            let mut m = String::from_str("Please install `");
            m.append(command);
            m.append("` to be able to run .");
            m.append(extension);
            m.append(" file");
            Err(m)
        },
        Probe::Failed => {
            let mut m = String::from_str("\u{2716} [");
            m.append(command);
            m.append("] (for .");
            m.append(extension);
            m.append(") not found or returned error \n Please install [");
            m.append(command);
            m.append("] to be able to run .");
            m.append(extension);
            m.append(" file");
            Err(m)
        },
    }
}

/// The program that runs `entry_point`, or what to tell the user where its
/// runner cannot be used. `probe` is what came of probing the runner of the
/// entry point's extension; it is not looked at for a name without a dot.
pub fn get_process_runner(entry_point: &str, probe: Probe) -> (r: Result<String, String>)
    requires
        entry_point@.contains('.') ==> runner_of(after_last(entry_point@, '.')) is Some,
    ensures
        verdict_view(r) == process_runner(entry_point@, probe),
{
    match entry_extension(entry_point) {
        None => Ok(String::from_str("bash")),
        Some(extension) => match check_existing_runner(extension, probe) {
            Ok(command) => Ok(String::from_str(command)),
            Err(message) => Err(message),
        },
    }
}

/// Starts the application of a tracked repository. Nothing is started yet:
/// the entry point of a descriptor is recorded, and not run.
pub fn run_binary() {
}

} // verus!
