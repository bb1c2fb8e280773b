//! One poll cycle of a tracked repository, as a state machine.
//!
//! The library decides; its host does the outside work. [`begin`] takes the
//! descriptor that the host has loaded and hands back the first [`Action`].
//! The host performs each action and reports how it went to [`step`], which
//! hands back the next one, until the action is [`Action::Stop`]. The stage
//! of the cycle is then [`Stage::Done`] and holds the [`Outcome`].
//!
//! What the machine does is defined by the two spec functions [`start`] and
//! [`next`] over the views of these types.

use crate::commands::{
    build_command, build_step, clean_workspace, clean_workspace_command, clone_command,
    clone_repo, copy_command, copy_step, remove_clone, remove_clone_command, remove_destination,
    remove_destination_command, version_query, version_query_command,
};
use crate::config::{ConfigFile, ConfigView};
use crate::remote::{extract_repo_info, read_version_token, repo_info, version_token};
use crate::text::same_text;
use vstd::prelude::*;
use vstd::string::*;

verus! {

/// Why a cycle failed.
#[derive(Debug, Clone, PartialEq, Eq)]
pub enum CycleError {
    /// The descriptor could not be loaded; the message says why.
    Config(String),
    /// The remote locator does not give an owner and a repository name.
    RemoteResolution,
    /// The remote ref query failed, or answered with no version.
    RemoteQuery(String),
    /// The clone failed.
    Clone(String),
    /// The build step with this index failed.
    Build { step: usize, message: String },
    /// The deploy step with this index failed.
    Deploy { step: usize, message: String },
    /// The new descriptor could not be stored.
    Persist(String),
}

/// How a cycle ended.
#[derive(Debug, Clone, PartialEq, Eq)]
pub enum Outcome {
    /// The remote version is the one that was deployed last.
    UpToDate,
    /// The new version was built and deployed, and the descriptor stored.
    Deployed,
    /// The cycle was given up.
    Failed(CycleError),
}

/// Where a cycle stands: the action it has asked for and waits to hear of.
#[derive(Debug, Clone, PartialEq, Eq)]
pub enum Stage {
    /// The remote ref query.
    FetchVersion,
    /// Making sure that the work directory exists.
    PrepareWorkDir,
    /// Removing what is left of an earlier working copy.
    CleanWorkspace,
    /// The clone.
    Clone,
    /// The build step with this index.
    Build(usize),
    /// Making sure that the parent directory of this deploy step's
    /// destination exists.
    PrepareDeploy(usize),
    /// The copy of the deploy step with this index.
    Deploy(usize),
    /// Removing the working copy after the last deploy step.
    RemoveClone,
    /// Storing the new descriptor.
    Persist,
    /// Removing the working copy after a failure.
    AbortClone(CycleError),
    /// Removing the destination of the deploy step that failed.
    AbortDestination(CycleError),
    /// Nothing: the cycle is over.
    Done(Outcome),
}

/// What the host is asked to do next.
#[derive(Debug, Clone, PartialEq, Eq)]
pub enum Action {
    /// Run this command line in a subshell and report its output, or its
    /// error output if it fails.
    Run(String),
    /// Create this directory and its ancestors where they are missing.
    EnsureDir(String),
    /// Create the parent directory of this path, with its ancestors, where
    /// it is missing.
    EnsureParentDir(String),
    /// Replace the stored descriptor by this one, all or nothing.
    SaveConfig(ConfigFile),
    /// Nothing more: the cycle is over.
    Stop,
}

/// A cycle in progress.
#[derive(Debug, Clone, PartialEq, Eq)]
pub struct WatchCycle {
    /// The directory that holds the working copy.
    pub work_dir: String,
    /// The descriptor as it was loaded.
    pub config: ConfigFile,
    /// The owner that the remote locator names.
    pub owner: String,
    /// The repository that it names, which is also the folder of the
    /// working copy.
    pub name: String,
    /// The branch that is tracked.
    pub branch: String,
    /// The remote version; empty until it is known.
    pub fetched: String,
    pub stage: Stage,
}

/// What a [`CycleError`] holds, as mathematical values.
pub enum CycleErrorView {
    Config(Seq<char>),
    RemoteResolution,
    RemoteQuery(Seq<char>),
    Clone(Seq<char>),
    Build { step: nat, message: Seq<char> },
    Deploy { step: nat, message: Seq<char> },
    Persist(Seq<char>),
}

/// What an [`Outcome`] holds, as mathematical values.
pub enum OutcomeView {
    UpToDate,
    Deployed,
    Failed(CycleErrorView),
}

/// What a [`Stage`] holds, as mathematical values.
pub enum StageView {
    FetchVersion,
    PrepareWorkDir,
    CleanWorkspace,
    Clone,
    Build(nat),
    PrepareDeploy(nat),
    Deploy(nat),
    RemoveClone,
    Persist,
    AbortClone(CycleErrorView),
    AbortDestination(CycleErrorView),
    Done(OutcomeView),
}

/// What an [`Action`] holds, as mathematical values.
pub enum ActionView {
    Run(Seq<char>),
    EnsureDir(Seq<char>),
    EnsureParentDir(Seq<char>),
    SaveConfig(ConfigView),
    Stop,
}

/// What a [`WatchCycle`] holds, as mathematical values.
pub struct CycleView {
    pub work_dir: Seq<char>,
    pub config: ConfigView,
    pub owner: Seq<char>,
    pub name: Seq<char>,
    pub branch: Seq<char>,
    pub fetched: Seq<char>,
    pub stage: StageView,
}

impl View for CycleError {
    type V = CycleErrorView;

    open spec fn view(&self) -> CycleErrorView {
        match *self {
            CycleError::Config(m) => CycleErrorView::Config(m@),
            CycleError::RemoteResolution => CycleErrorView::RemoteResolution,
            CycleError::RemoteQuery(m) => CycleErrorView::RemoteQuery(m@),
            CycleError::Clone(m) => CycleErrorView::Clone(m@),
            CycleError::Build { step, message } => CycleErrorView::Build {
                step: step as nat,
                message: message@,
            },
            CycleError::Deploy { step, message } => CycleErrorView::Deploy {
                step: step as nat,
                message: message@,
            },
            CycleError::Persist(m) => CycleErrorView::Persist(m@),
        }
    }
}

impl View for Outcome {
    type V = OutcomeView;

    open spec fn view(&self) -> OutcomeView {
        match *self {
            Outcome::UpToDate => OutcomeView::UpToDate,
            Outcome::Deployed => OutcomeView::Deployed,
            Outcome::Failed(e) => OutcomeView::Failed(e@),
        }
    }
}

impl View for Stage {
    type V = StageView;

    open spec fn view(&self) -> StageView {
        match *self {
            Stage::FetchVersion => StageView::FetchVersion,
            Stage::PrepareWorkDir => StageView::PrepareWorkDir,
            Stage::CleanWorkspace => StageView::CleanWorkspace,
            Stage::Clone => StageView::Clone,
            Stage::Build(i) => StageView::Build(i as nat),
            Stage::PrepareDeploy(i) => StageView::PrepareDeploy(i as nat),
            Stage::Deploy(i) => StageView::Deploy(i as nat),
            Stage::RemoveClone => StageView::RemoveClone,
            Stage::Persist => StageView::Persist,
            Stage::AbortClone(e) => StageView::AbortClone(e@),
            Stage::AbortDestination(e) => StageView::AbortDestination(e@),
            Stage::Done(o) => StageView::Done(o@),
        }
    }
}

impl View for Action {
    type V = ActionView;

    open spec fn view(&self) -> ActionView {
        match *self {
            Action::Run(c) => ActionView::Run(c@),
            Action::EnsureDir(p) => ActionView::EnsureDir(p@),
            Action::EnsureParentDir(p) => ActionView::EnsureParentDir(p@),
            Action::SaveConfig(c) => ActionView::SaveConfig(c@),
            Action::Stop => ActionView::Stop,
        }
    }
}

impl View for WatchCycle {
    type V = CycleView;

    open spec fn view(&self) -> CycleView {
        CycleView {
            work_dir: self.work_dir@,
            config: self.config@,
            owner: self.owner@,
            name: self.name@,
            branch: self.branch@,
            fetched: self.fetched@,
            stage: self.stage@,
        }
    }
}

/// What came of loading the descriptor, as mathematical values.
pub open spec fn loaded_view(loaded: Result<ConfigFile, String>) -> Result<ConfigView, Seq<char>> {
    match loaded {
        Ok(c) => Ok(c@),
        Err(m) => Err(m@),
    }
}

/// What the host reports of an action, as mathematical values.
pub open spec fn reply_view(reply: Result<String, String>) -> Result<Seq<char>, Seq<char>> {
    match reply {
        Ok(out) => Ok(out@),
        Err(m) => Err(m@),
    }
}

/// What [`begin`] returns, as mathematical values.
pub open spec fn begun_view(r: Result<(WatchCycle, Action), CycleError>) -> Result<
    (CycleView, ActionView),
    CycleErrorView,
> {
    match r {
        Ok((c, a)) => Ok((c@, a@)),
        Err(e) => Err(e@),
    }
}

impl CycleView {
    /// This cycle at another stage.
    pub open spec fn at(self, stage: StageView) -> CycleView {
        CycleView { stage, ..self }
    }

    /// The cycle ends with `outcome`.
    pub open spec fn finish(self, outcome: OutcomeView) -> (CycleView, ActionView) {
        (self.at(StageView::Done(outcome)), ActionView::Stop)
    }

    /// The command that removes the working copy.
    pub open spec fn removal(self) -> ActionView {
        ActionView::Run(remove_clone_command(self.work_dir, self.name))
    }

    /// The cycle is given up for `error`: the working copy is removed first.
    pub open spec fn abort(self, error: CycleErrorView) -> (CycleView, ActionView) {
        (self.at(StageView::AbortClone(error)), self.removal())
    }

    /// The command of the build step `i`.
    pub open spec fn build_action(self, i: int) -> ActionView {
        ActionView::Run(build_command(self.work_dir, self.name, self.config.build[i]))
    }

    /// The copy command of the deploy step `i`.
    pub open spec fn copy_action(self, i: int) -> ActionView {
        ActionView::Run(
            copy_command(
                self.work_dir,
                self.name,
                self.config.mouve[i].from,
                self.config.mouve[i].to,
            ),
        )
    }

    /// The command that removes the destination of the deploy step `i`.
    pub open spec fn destination_removal(self, i: int) -> ActionView {
        ActionView::Run(remove_destination_command(self.config.mouve[i].to))
    }

    /// The descriptor that a successful cycle stores.
    pub open spec fn new_config(self) -> ConfigView {
        self.config.synced(self.fetched)
    }

    /// Goes on with the build step `i`, or with the deploy steps where no
    /// build step is left.
    pub open spec fn enter_build(self, i: nat) -> (CycleView, ActionView) {
        if i < self.config.build.len() {
            (self.at(StageView::Build(i)), self.build_action(i as int))
        } else {
            self.enter_deploy(0)
        }
    }

    /// Goes on with the deploy step `i`, or removes the working copy where
    /// no deploy step is left.
    pub open spec fn enter_deploy(self, i: nat) -> (CycleView, ActionView) {
        if i < self.config.mouve.len() {
            (
                self.at(StageView::PrepareDeploy(i)),
                ActionView::EnsureParentDir(self.config.mouve[i as int].to),
            )
        } else {
            (self.at(StageView::RemoveClone), self.removal())
        }
    }

    /// What holds of every cycle that [`start`] made and [`next`] moved on.
    pub open spec fn wf(self) -> bool {
        &&& repo_info(self.config.repo) == Some((self.owner, self.name))
        &&& self.branch == self.config.resolved_branch()
        &&& match self.stage {
            StageView::FetchVersion => true,
            StageView::Done(_) => true,
            StageView::Build(i) => self.fetched_new() && i < self.config.build.len(),
            StageView::PrepareDeploy(i) => self.fetched_new() && i < self.config.mouve.len(),
            StageView::Deploy(i) => self.fetched_new() && i < self.config.mouve.len(),
            StageView::AbortClone(e) => self.fetched_new() && self.abort_reason(e),
            StageView::AbortDestination(e) => self.fetched_new() && e is Deploy && self.abort_reason(
                e,
            ),
            _ => self.fetched_new(),
        }
    }

    /// A remote version is known, and it is not the one deployed last.
    pub open spec fn fetched_new(self) -> bool {
        self.fetched.len() > 0 && self.fetched != self.config.current_version()
    }

    /// `e` is an error for which a cycle removes its working copy.
    pub open spec fn abort_reason(self, e: CycleErrorView) -> bool {
        match e {
            CycleErrorView::Clone(_) => true,
            CycleErrorView::Build { step, .. } => step < self.config.build.len(),
            CycleErrorView::Deploy { step, .. } => step < self.config.mouve.len(),
            _ => false,
        }
    }
}

/// How a cycle starts, given what came of loading the descriptor.
///
/// Without a descriptor, or with a remote locator that cannot be resolved,
/// there is no cycle and nothing is asked of the host. Otherwise the first
/// action is the remote ref query for the tracked branch.
pub open spec fn start(work_dir: Seq<char>, loaded: Result<ConfigView, Seq<char>>) -> Result<
    (CycleView, ActionView),
    CycleErrorView,
> {
    match loaded {
        Err(m) => Err(CycleErrorView::Config(m)),
        Ok(config) => match repo_info(config.repo) {
            None => Err(CycleErrorView::RemoteResolution),
            Some((owner, name)) => Ok(
                (
                    CycleView {
                        work_dir,
                        config,
                        owner,
                        name,
                        branch: config.resolved_branch(),
                        fetched: Seq::empty(),
                        stage: StageView::FetchVersion,
                    },
                    ActionView::Run(version_query_command(owner, name, config.resolved_branch())),
                ),
            ),
        },
    }
}

/// How a cycle goes on when the host reports `reply` of the last action.
///
/// - The remote ref query: a failure, or an answer without a version, ends
///   the cycle as failed; the version that was deployed last ends it as up
///   to date; another version starts the deploy.
/// - The deploy is: make sure of the work directory, remove an old working
///   copy, clone, run the build steps in order, then for each deploy step
///   make sure of the destination's parent directory and copy, then remove
///   the working copy and store the descriptor with the new version.
/// - A failing clone, build step or copy removes the working copy, a failing
///   copy its destination too, and ends the cycle as failed. Replies to the
///   other actions of the deploy are not looked at.
/// - The reply to storing the descriptor decides between deployed and
///   failed.
pub open spec fn next(c: CycleView, reply: Result<Seq<char>, Seq<char>>) -> (
    CycleView,
    ActionView,
) {
    match c.stage {
        StageView::FetchVersion => match reply {
            Err(m) => c.finish(OutcomeView::Failed(CycleErrorView::RemoteQuery(m))),
            Ok(out) => {
                let token = version_token(out);
                if token.len() == 0 {
                    c.finish(OutcomeView::Failed(CycleErrorView::RemoteQuery(Seq::empty())))
                } else if token == c.config.current_version() {
                    c.finish(OutcomeView::UpToDate)
                } else {
                    (
                        CycleView { fetched: token, stage: StageView::PrepareWorkDir, ..c },
                        ActionView::EnsureDir(c.work_dir),
                    )
                }
            },
        },
        StageView::PrepareWorkDir => (
            c.at(StageView::CleanWorkspace),
            ActionView::Run(clean_workspace_command(c.work_dir, c.name)),
        ),
        StageView::CleanWorkspace => (
            c.at(StageView::Clone),
            ActionView::Run(clone_command(c.work_dir, c.owner, c.name)),
        ),
        StageView::Clone => match reply {
            Err(m) => c.abort(CycleErrorView::Clone(m)),
            Ok(_) => c.enter_build(0),
        },
        StageView::Build(i) => match reply {
            Err(m) => c.abort(CycleErrorView::Build { step: i, message: m }),
            Ok(_) => c.enter_build(i + 1),
        },
        StageView::PrepareDeploy(i) => if i < c.config.mouve.len() {
            (c.at(StageView::Deploy(i)), c.copy_action(i as int))
        } else {
            c.enter_deploy(i)
        },
        StageView::Deploy(i) => match reply {
            Err(m) => c.abort(CycleErrorView::Deploy { step: i, message: m }),
            Ok(_) => c.enter_deploy(i + 1),
        },
        StageView::RemoveClone => (
            c.at(StageView::Persist),
            ActionView::SaveConfig(c.new_config()),
        ),
        StageView::Persist => match reply {
            Err(m) => c.finish(OutcomeView::Failed(CycleErrorView::Persist(m))),
            Ok(_) => c.finish(OutcomeView::Deployed),
        },
        StageView::AbortClone(e) => match e {
            CycleErrorView::Deploy { step, .. } => if step < c.config.mouve.len() {
                (c.at(StageView::AbortDestination(e)), c.destination_removal(step as int))
            } else {
                c.finish(OutcomeView::Failed(e))
            },
            _ => c.finish(OutcomeView::Failed(e)),
        },
        StageView::AbortDestination(e) => c.finish(OutcomeView::Failed(e)),
        StageView::Done(_) => (c, ActionView::Stop),
    }
}

/// What to tell the user of an error.
pub open spec fn message_of(e: CycleErrorView) -> Seq<char> {
    match e {
        CycleErrorView::Config(m) => m,
        CycleErrorView::RemoteResolution => {
            "error while parsing your github repo to extract the name, check it"@
        },
        CycleErrorView::RemoteQuery(m) => m,
        CycleErrorView::Clone(m) => m,
        CycleErrorView::Build { message, .. } => message,
        CycleErrorView::Deploy { message, .. } => message,
        CycleErrorView::Persist(m) => m,
    }
}

impl CycleError {
    /// What to tell the user of this error: the message that came with it,
    /// or what is wrong with the locator.
    pub fn message(&self) -> (r: String)
        ensures
            r@ == message_of(self@),
    {
        match self {
            CycleError::Config(m) => m.clone(),
            CycleError::RemoteResolution => String::from_str(
                "error while parsing your github repo to extract the name, check it",
            ),
            CycleError::RemoteQuery(m) => m.clone(),
            CycleError::Clone(m) => m.clone(),
            CycleError::Build { message, .. } => message.clone(),
            CycleError::Deploy { message, .. } => message.clone(),
            CycleError::Persist(m) => m.clone(),
        }
    }

    /// A copy of this error.
    pub fn duplicate(&self) -> (r: CycleError)
        ensures
            r@ == self@,
    {
        match self {
            CycleError::Config(m) => CycleError::Config(m.clone()),
            CycleError::RemoteResolution => CycleError::RemoteResolution,
            CycleError::RemoteQuery(m) => CycleError::RemoteQuery(m.clone()),
            CycleError::Clone(m) => CycleError::Clone(m.clone()),
            CycleError::Build { step, message } => CycleError::Build {
                step: *step,
                message: message.clone(),
            },
            CycleError::Deploy { step, message } => CycleError::Deploy {
                step: *step,
                message: message.clone(),
            },
            CycleError::Persist(m) => CycleError::Persist(m.clone()),
        }
    }
}

impl WatchCycle {
    /// How the cycle ended, once it is over.
    pub fn outcome(&self) -> (r: Option<&Outcome>)
        ensures
            match r {
                Some(o) => self@.stage == StageView::Done(o@),
                None => !(self@.stage is Done),
            },
    {
        match &self.stage {
            Stage::Done(o) => Some(o),
            _ => None,
        }
    }

    fn finish(self, outcome: Outcome) -> (r: (WatchCycle, Action))
        ensures
            (r.0@, r.1@) == self@.finish(outcome@),
    {
        let mut c = self;
        c.stage = Stage::Done(outcome);
        (c, Action::Stop)
    }

    fn abort(self, error: CycleError) -> (r: (WatchCycle, Action))
        ensures
            (r.0@, r.1@) == self@.abort(error@),
    {
        let mut c = self;
        let command = remove_clone(c.work_dir.as_str(), c.name.as_str());
        c.stage = Stage::AbortClone(error);
        (c, Action::Run(command))
    }

    fn enter_deploy(self, i: usize) -> (r: (WatchCycle, Action))
        ensures
            (r.0@, r.1@) == self@.enter_deploy(i as nat),
    {
        let mut c = self;
        if i < c.config.mouve.len() {
            let to = c.config.mouve[i].to.clone();
            c.stage = Stage::PrepareDeploy(i);
            (c, Action::EnsureParentDir(to))
        } else {
            let command = remove_clone(c.work_dir.as_str(), c.name.as_str());
            c.stage = Stage::RemoveClone;
            (c, Action::Run(command))
        }
    }

    fn enter_build(self, i: usize) -> (r: (WatchCycle, Action))
        ensures
            (r.0@, r.1@) == self@.enter_build(i as nat),
    {
        let mut c = self;
        if i < c.config.build.len() {
            let command = build_step(
                c.work_dir.as_str(),
                c.name.as_str(),
                c.config.build[i].as_str(),
            );
            c.stage = Stage::Build(i);
            (c, Action::Run(command))
        } else {
            c.enter_deploy(0)
        }
    }
}

/// Starts a cycle for the descriptor that the host has loaded, or says why
/// there is none.
pub fn begin(work_dir: &str, loaded: Result<ConfigFile, String>) -> (r: Result<
    (WatchCycle, Action),
    CycleError,
>)
    ensures
        begun_view(r) == start(work_dir@, loaded_view(loaded)),
        r matches Ok((c, _)) ==> c@.wf(),
{
    match loaded {
        Err(m) => Err(CycleError::Config(m)),
        Ok(config) => {
            let resolved = match extract_repo_info(config.repo.as_str()) {
                Some((owner, name)) => Some((String::from_str(owner), String::from_str(name))),
                None => None,
            };
            match resolved {
                None => Err(CycleError::RemoteResolution),
                Some((owner, name)) => {
                    let branch = config.resolved_branch();
                    let query = version_query(owner.as_str(), name.as_str(), branch.as_str());
                    let cycle = WatchCycle {
                        work_dir: String::from_str(work_dir),
                        config,
                        owner,
                        name,
                        branch,
                        fetched: String::new(),
                        stage: Stage::FetchVersion,
                    };
                    Ok((cycle, Action::Run(query)))
                },
            }
        },
    }
}

/// Moves a cycle on: `reply` is what the host reports of the action that the
/// cycle asked for last.
pub fn step(cycle: WatchCycle, reply: Result<String, String>) -> (r: (WatchCycle, Action))
    ensures
        (r.0@, r.1@) == next(cycle@, reply_view(reply)),
        cycle@.wf() ==> r.0@.wf(),
{
    proof {
        if cycle@.wf() {
            next_keeps_wf(cycle@, reply_view(reply));
        }
    }
    let mut c = cycle;
    match &c.stage {
        Stage::FetchVersion => match reply {
            Err(m) => c.finish(Outcome::Failed(CycleError::RemoteQuery(m))),
            Ok(out) => {
                let token = read_version_token(out.as_str());
                let current = c.config.current_version();
                if token.unicode_len() == 0 {
                    c.finish(Outcome::Failed(CycleError::RemoteQuery(String::new())))
                } else if same_text(token, current.as_str()) {
                    c.finish(Outcome::UpToDate)
                } else {
                    let dir = c.work_dir.clone();
                    c.fetched = String::from_str(token);
                    c.stage = Stage::PrepareWorkDir;
                    (c, Action::EnsureDir(dir))
                }
            },
        },
        Stage::PrepareWorkDir => {
            let command = clean_workspace(c.work_dir.as_str(), c.name.as_str());
            c.stage = Stage::CleanWorkspace;
            (c, Action::Run(command))
        },
        Stage::CleanWorkspace => {
            let command = clone_repo(c.work_dir.as_str(), c.owner.as_str(), c.name.as_str());
            c.stage = Stage::Clone;
            (c, Action::Run(command))
        },
        Stage::Clone => match reply {
            Err(m) => c.abort(CycleError::Clone(m)),
            Ok(_) => c.enter_build(0),
        },
        Stage::Build(i) => {
            let i = *i;
            match reply {
                Err(m) => c.abort(CycleError::Build { step: i, message: m }),
                Ok(_) => if i < c.config.build.len() {
                    c.enter_build(i + 1)
                } else {
                    c.enter_deploy(0)
                },
            }
        },
        Stage::PrepareDeploy(i) => {
            let i = *i;
            if i < c.config.mouve.len() {
                let command = copy_step(
                    c.work_dir.as_str(),
                    c.name.as_str(),
                    c.config.mouve[i].from.as_str(),
                    c.config.mouve[i].to.as_str(),
                );
                c.stage = Stage::Deploy(i);
                (c, Action::Run(command))
            } else {
                c.enter_deploy(i)
            }
        },
        Stage::Deploy(i) => {
            let i = *i;
            match reply {
                Err(m) => c.abort(CycleError::Deploy { step: i, message: m }),
                Ok(_) => if i < c.config.mouve.len() {
                    c.enter_deploy(i + 1)
                } else {
                    let command = remove_clone(c.work_dir.as_str(), c.name.as_str());
                    c.stage = Stage::RemoveClone;
                    (c, Action::Run(command))
                },
            }
        },
        Stage::RemoveClone => {
            let stored = c.config.synced(c.fetched.as_str());
            c.stage = Stage::Persist;
            (c, Action::SaveConfig(stored))
        },
        Stage::Persist => match reply {
            Err(m) => c.finish(Outcome::Failed(CycleError::Persist(m))),
            Ok(_) => c.finish(Outcome::Deployed),
        },
        Stage::AbortClone(e) => {
            let error = e.duplicate();
            let failed_copy = match &error {
                CycleError::Deploy { step, .. } => if *step < c.config.mouve.len() {
                    Some(*step)
                } else {
                    None
                },
                _ => None,
            };
            match failed_copy {
                Some(i) => {
                    let command = remove_destination(c.config.mouve[i].to.as_str());
                    c.stage = Stage::AbortDestination(error);
                    (c, Action::Run(command))
                },
                None => c.finish(Outcome::Failed(error)),
            }
        },
        Stage::AbortDestination(e) => {
            let error = e.duplicate();
            c.finish(Outcome::Failed(error))
        },
        Stage::Done(_) => (c, Action::Stop),
    }
}

/// [`next`] keeps a well-formed cycle well-formed.
pub proof fn next_keeps_wf(c: CycleView, reply: Result<Seq<char>, Seq<char>>)
    requires
        c.wf(),
    ensures
        next(c, reply).0.wf(),
{
}

} // verus!
