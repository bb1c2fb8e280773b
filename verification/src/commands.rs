//! The command lines that the library asks its host to run in a subshell.
//!
//! Each command is a plain concatenation: the library does not quote paths.

use vstd::prelude::*;
use vstd::string::*;

verus! {

/// How `std` prints a string with `{:?}`: inside double quotes, with the
/// characters that need it escaped.
pub uninterp spec fn debug_quoted(s: Seq<char>) -> Seq<char>;

/// Prints `s` with the `Debug` formatting of `str`, through `format!` with
/// `{:?}`. The formatting depends on the characters of `s` alone; the
/// contract gives its result the name [`debug_quoted`] and claims nothing
/// else of it.
#[verifier::external_body]
fn quote(s: &str) -> (r: String)
    ensures
        r@ == debug_quoted(s@),
{
    format!("{:?}", s)
}

/// Asks the remote for the ref of `branch` in `owner`'s repository `name`.
pub open spec fn version_query_command(
    owner: Seq<char>,
    name: Seq<char>,
    branch: Seq<char>,
) -> Seq<char> {
    "git ls-remote git@github.com:"@ + owner + "/"@ + name + ".git "@ + debug_quoted(branch)
}

/// Removes what an earlier cycle may have left of the working copy.
pub open spec fn clean_workspace_command(work_dir: Seq<char>, folder: Seq<char>) -> Seq<char> {
    "rm -rf "@ + work_dir + "/"@ + folder
}

/// Clones `owner`'s repository `name` into the work directory.
pub open spec fn clone_command(work_dir: Seq<char>, owner: Seq<char>, name: Seq<char>) -> Seq<
    char,
> {
    "cd "@ + work_dir + " && git clone git@github.com:"@ + owner + "/"@ + name + ".git"@
}

/// Runs one build step in the root of the working copy.
pub open spec fn build_command(work_dir: Seq<char>, folder: Seq<char>, step: Seq<char>) -> Seq<
    char,
> {
    "cd "@ + work_dir + "/"@ + folder + " && "@ + step
}

/// Copies `from`, taken in the root of the working copy, to `to`.
pub open spec fn copy_command(
    work_dir: Seq<char>,
    folder: Seq<char>,
    from: Seq<char>,
    to: Seq<char>,
) -> Seq<char> {
    "cd "@ + work_dir + "/"@ + folder + " && cp -r "@ + from + " "@ + to
}

/// Removes the working copy from the work directory.
pub open spec fn remove_clone_command(work_dir: Seq<char>, folder: Seq<char>) -> Seq<char> {
    "cd "@ + work_dir + " && rm -rf "@ + folder
}

/// Removes a deploy destination.
pub open spec fn remove_destination_command(to: Seq<char>) -> Seq<char> {
    "rm -rf "@ + to
}

/// Sends the termination signal to the process that `pid` names.
pub open spec fn kill_command(pid: Seq<char>) -> Seq<char> {
    "kill "@ + pid
}

/// Removes the file `file` of the directory `dir`.
pub open spec fn remove_file_command(dir: Seq<char>, file: Seq<char>) -> Seq<char> {
    "rm -rf "@ + dir + "/"@ + file
}

/// Builds [`version_query_command`].
pub fn version_query(owner: &str, name: &str, branch: &str) -> (r: String)
    ensures
        r@ == version_query_command(owner@, name@, branch@),
{
    let mut r = String::from_str("git ls-remote git@github.com:");
    r.append(owner);
    r.append("/");
    r.append(name);
    r.append(".git ");
    let q = quote(branch);
    r.append(q.as_str());
    r
}

/// Builds [`clean_workspace_command`].
pub fn clean_workspace(work_dir: &str, folder: &str) -> (r: String)
    ensures
        r@ == clean_workspace_command(work_dir@, folder@),
{
    let mut r = String::from_str("rm -rf ");
    r.append(work_dir);
    r.append("/");
    r.append(folder);
    r
}

/// Builds [`clone_command`].
pub fn clone_repo(work_dir: &str, owner: &str, name: &str) -> (r: String)
    ensures
        r@ == clone_command(work_dir@, owner@, name@),
{
    let mut r = String::from_str("cd ");
    r.append(work_dir);
    r.append(" && git clone git@github.com:");
    r.append(owner);
    r.append("/");
    r.append(name);
    r.append(".git");
    r
}

/// Builds [`build_command`].
pub fn build_step(work_dir: &str, folder: &str, step: &str) -> (r: String)
    ensures
        r@ == build_command(work_dir@, folder@, step@),
{
    let mut r = String::from_str("cd ");
    r.append(work_dir);
    r.append("/");
    r.append(folder);
    r.append(" && ");
    r.append(step);
    r
}

/// Builds [`copy_command`].
pub fn copy_step(work_dir: &str, folder: &str, from: &str, to: &str) -> (r: String)
    ensures
        r@ == copy_command(work_dir@, folder@, from@, to@),
{
    let mut r = String::from_str("cd ");
    r.append(work_dir);
    r.append("/");
    r.append(folder);
    r.append(" && cp -r ");
    r.append(from);
    r.append(" ");
    r.append(to);
    r
}

/// Builds [`remove_clone_command`].
pub fn remove_clone(work_dir: &str, folder: &str) -> (r: String)
    ensures
        r@ == remove_clone_command(work_dir@, folder@),
{
    let mut r = String::from_str("cd ");
    r.append(work_dir);
    r.append(" && rm -rf ");
    r.append(folder);
    r
}

/// Builds [`remove_destination_command`].
pub fn remove_destination(to: &str) -> (r: String)
    ensures
        r@ == remove_destination_command(to@),
{
    let mut r = String::from_str("rm -rf ");
    r.append(to);
    r
}

/// Builds [`kill_command`].
pub fn kill(pid: &str) -> (r: String)
    ensures
        r@ == kill_command(pid@),
{
    let mut r = String::from_str("kill ");
    r.append(pid);
    r
}

/// Builds [`remove_file_command`].
pub fn remove_file(dir: &str, file: &str) -> (r: String)
    ensures
        r@ == remove_file_command(dir@, file@),
{
    let mut r = String::from_str("rm -rf ");
    r.append(dir);
    r.append("/");
    r.append(file);
    r
}

} // verus!
