//! The life of one watch daemon, as a state machine.
//!
//! A daemon takes over from an earlier one of the same name, detaches from
//! the terminal, and then polls for ever. The library decides the order;
//! its host reads the PID file, runs the command, detaches, runs each cycle
//! and sleeps, and reports after each action to [`proceed`].

use crate::commands::{kill, kill_command};
use crate::text::{trim, trimmed};
use vstd::prelude::*;
use vstd::string::*;

verus! {

/// The pause between two cycles, in seconds.
pub const POLL_SECONDS: u64 = 5;

/// Where one daemon finds its files.
#[derive(Debug, Clone, PartialEq, Eq)]
pub struct LaunchPlan {
    /// The name of the tracked repository.
    pub name: String,
    /// The directory for working copies.
    pub work_dir: String,
    /// The descriptor of the tracked repository.
    pub config_file: String,
    /// The file that holds the id of the daemon's process.
    pub pid_file: String,
    /// The file that the daemon's output goes to.
    pub log_file: String,
}

/// Where a daemon stands: the action it has asked for and waits to hear of.
#[derive(Debug, Clone, PartialEq, Eq)]
pub enum Phase {
    /// Reading the PID file that an earlier daemon may have left.
    ReadingPidFile,
    /// Terminating the earlier daemon.
    TakingOver,
    /// Detaching from the terminal and claiming the PID file.
    Detaching,
    /// One poll cycle.
    Cycling,
    /// The pause after a cycle.
    Sleeping,
    /// The daemon could not detach; the message says why.
    Failed(String),
}

/// What the host of a daemon is asked to do next.
#[derive(Debug, Clone, PartialEq, Eq)]
pub enum Order {
    /// Read this file and report its content, or an error if there is none.
    ReadPidFile(String),
    /// Run this command line in a subshell.
    Run(String),
    /// Become a background process whose output goes to `log_file`, and
    /// write the id of that process to `pid_file`.
    Detach { pid_file: String, log_file: String },
    /// Run one poll cycle for this descriptor in this work directory.
    RunCycle { work_dir: String, config_file: String },
    /// Sleep for this many seconds.
    Sleep(u64),
    /// Report that the daemon could not start, and return.
    GiveUp(String),
}

/// A daemon and the phase it is in.
#[derive(Debug, Clone, PartialEq, Eq)]
pub struct Supervisor {
    pub plan: LaunchPlan,
    pub phase: Phase,
}

/// What a [`LaunchPlan`] holds, as mathematical values.
pub struct LaunchPlanView {
    pub name: Seq<char>,
    pub work_dir: Seq<char>,
    pub config_file: Seq<char>,
    pub pid_file: Seq<char>,
    pub log_file: Seq<char>,
}

/// What a [`Phase`] holds, as mathematical values.
pub enum PhaseView {
    ReadingPidFile,
    TakingOver,
    Detaching,
    Cycling,
    Sleeping,
    Failed(Seq<char>),
}

/// What an [`Order`] holds, as mathematical values.
pub enum OrderView {
    ReadPidFile(Seq<char>),
    Run(Seq<char>),
    Detach { pid_file: Seq<char>, log_file: Seq<char> },
    RunCycle { work_dir: Seq<char>, config_file: Seq<char> },
    Sleep(u64),
    GiveUp(Seq<char>),
}

/// What a [`Supervisor`] holds, as mathematical values.
pub struct SupervisorView {
    pub plan: LaunchPlanView,
    pub phase: PhaseView,
}

impl View for LaunchPlan {
    type V = LaunchPlanView;

    open spec fn view(&self) -> LaunchPlanView {
        LaunchPlanView {
            name: self.name@,
            work_dir: self.work_dir@,
            config_file: self.config_file@,
            pid_file: self.pid_file@,
            log_file: self.log_file@,
        }
    }
}

impl View for Phase {
    type V = PhaseView;

    open spec fn view(&self) -> PhaseView {
        match *self {
            Phase::ReadingPidFile => PhaseView::ReadingPidFile,
            Phase::TakingOver => PhaseView::TakingOver,
            Phase::Detaching => PhaseView::Detaching,
            Phase::Cycling => PhaseView::Cycling,
            Phase::Sleeping => PhaseView::Sleeping,
            Phase::Failed(m) => PhaseView::Failed(m@),
        }
    }
}

impl View for Order {
    type V = OrderView;

    open spec fn view(&self) -> OrderView {
        match *self {
            Order::ReadPidFile(p) => OrderView::ReadPidFile(p@),
            Order::Run(c) => OrderView::Run(c@),
            Order::Detach { pid_file, log_file } => OrderView::Detach {
                pid_file: pid_file@,
                log_file: log_file@,
            },
            Order::RunCycle { work_dir, config_file } => OrderView::RunCycle {
                work_dir: work_dir@,
                config_file: config_file@,
            },
            Order::Sleep(s) => OrderView::Sleep(s),
            Order::GiveUp(m) => OrderView::GiveUp(m@),
        }
    }
}

impl View for Supervisor {
    type V = SupervisorView;

    open spec fn view(&self) -> SupervisorView {
        SupervisorView { plan: self.plan@, phase: self.phase@ }
    }
}

impl SupervisorView {
    /// This daemon in another phase.
    pub open spec fn at(self, phase: PhaseView) -> SupervisorView {
        SupervisorView { phase, ..self }
    }

    /// The order to detach and claim the PID file.
    pub open spec fn detach(self) -> OrderView {
        OrderView::Detach { pid_file: self.plan.pid_file, log_file: self.plan.log_file }
    }

    /// The order to run one cycle.
    pub open spec fn cycle(self) -> OrderView {
        OrderView::RunCycle { work_dir: self.plan.work_dir, config_file: self.plan.config_file }
    }
}

/// A daemon starts by reading the PID file of its name.
pub open spec fn launched(plan: LaunchPlanView) -> (SupervisorView, OrderView) {
    (
        SupervisorView { plan, phase: PhaseView::ReadingPidFile },
        OrderView::ReadPidFile(plan.pid_file),
    )
}

/// How a daemon goes on when its host reports `reply` of the last order.
///
/// - A PID file that could be read names an earlier daemon: it is sent the
///   termination signal, and whatever comes of that, the daemon detaches.
///   Without a PID file the daemon detaches at once.
/// - A daemon that could not detach gives up. One that did runs a cycle,
///   sleeps, runs a cycle, and so on for ever: what a cycle or a sleep
///   reports changes nothing.
pub open spec fn proceeded(s: SupervisorView, reply: Result<Seq<char>, Seq<char>>) -> (
    SupervisorView,
    OrderView,
) {
    match s.phase {
        PhaseView::ReadingPidFile => match reply {
            Ok(content) => (
                s.at(PhaseView::TakingOver),
                OrderView::Run(kill_command(trimmed(content))),
            ),
            Err(_) => (s.at(PhaseView::Detaching), s.detach()),
        },
        PhaseView::TakingOver => (s.at(PhaseView::Detaching), s.detach()),
        PhaseView::Detaching => match reply {
            Ok(_) => (s.at(PhaseView::Cycling), s.cycle()),
            Err(m) => (s.at(PhaseView::Failed(m)), OrderView::GiveUp(m)),
        },
        PhaseView::Cycling => (s.at(PhaseView::Sleeping), OrderView::Sleep(POLL_SECONDS)),
        PhaseView::Sleeping => (s.at(PhaseView::Cycling), s.cycle()),
        PhaseView::Failed(m) => (s, OrderView::GiveUp(m)),
    }
}

impl Supervisor {
    fn detach(&self) -> (r: Order)
        ensures
            r@ == self@.detach(),
    {
        Order::Detach { pid_file: self.plan.pid_file.clone(), log_file: self.plan.log_file.clone() }
    }

    fn cycle(&self) -> (r: Order)
        ensures
            r@ == self@.cycle(),
    {
        Order::RunCycle {
            work_dir: self.plan.work_dir.clone(),
            config_file: self.plan.config_file.clone(),
        }
    }
}

/// Starts a daemon for `plan`.
pub fn launch(plan: LaunchPlan) -> (r: (Supervisor, Order))
    ensures
        (r.0@, r.1@) == launched(plan@),
{
    let order = Order::ReadPidFile(plan.pid_file.clone());
    (Supervisor { plan, phase: Phase::ReadingPidFile }, order)
}

/// Moves a daemon on: `reply` is what its host reports of the last order.
pub fn proceed(supervisor: Supervisor, reply: Result<String, String>) -> (r: (
    Supervisor,
    Order,
))
    ensures
        (r.0@, r.1@) == proceeded(supervisor@, crate::cycle::reply_view(reply)),
{
    let mut s = supervisor;
    match &s.phase {
        Phase::ReadingPidFile => match reply {
            Ok(content) => {
                let command = kill(trim(content.as_str()));
                s.phase = Phase::TakingOver;
                (s, Order::Run(command))
            },
            Err(_) => {
                let order = s.detach();
                s.phase = Phase::Detaching;
                (s, order)
            },
        },
        Phase::TakingOver => {
            let order = s.detach();
            s.phase = Phase::Detaching;
            (s, order)
        },
        Phase::Detaching => match reply {
            Ok(_) => {
                let order = s.cycle();
                s.phase = Phase::Cycling;
                (s, order)
            },
            Err(m) => {
                let order = Order::GiveUp(m.clone());
                s.phase = Phase::Failed(m);
                (s, order)
            },
        },
        Phase::Cycling => {
            s.phase = Phase::Sleeping;
            (s, Order::Sleep(POLL_SECONDS))
        },
        Phase::Sleeping => {
            let order = s.cycle();
            s.phase = Phase::Cycling;
            (s, order)
        },
        Phase::Failed(m) => {
            let order = Order::GiveUp(m.clone());
            (s, order)
        },
    }
}

/// The daemon that `s` has become when its host has given `replies`.
pub open spec fn reached(s: SupervisorView, replies: Seq<Result<Seq<char>, Seq<char>>>) -> SupervisorView
    decreases replies.len(),
{
    if replies.len() == 0 {
        s
    } else {
        proceeded(reached(s, replies.drop_last()), replies.last()).0
    }
}

/// The orders that `s` has given in answer to `replies`, one for each.
pub open spec fn ordered(s: SupervisorView, replies: Seq<Result<Seq<char>, Seq<char>>>) -> Seq<
    OrderView,
>
    decreases replies.len(),
{
    if replies.len() == 0 {
        Seq::empty()
    } else {
        ordered(s, replies.drop_last()).push(
            proceeded(reached(s, replies.drop_last()), replies.last()).1,
        )
    }
}

spec fn detach_index(first: Option<Result<Seq<char>, Seq<char>>>) -> int {
    if first matches Some(Ok(_)) {
        1
    } else {
        0
    }
}

spec fn course(
    plan: LaunchPlanView,
    first: Option<Result<Seq<char>, Seq<char>>>,
    s: SupervisorView,
    orders: Seq<OrderView>,
) -> bool {
    let k = detach_index(first);
    &&& s.plan == plan
    &&& first matches Some(Ok(content)) ==> orders.len() >= 1 && orders[0] == OrderView::Run(
        kill_command(trimmed(content)),
    )
    &&& forall|i: int| 0 <= i < orders.len() && i != k ==> !(#[trigger] orders[i] is Detach)
    &&& match s.phase {
        PhaseView::ReadingPidFile => first is None && orders.len() == 0,
        PhaseView::TakingOver => first matches Some(Ok(_)) && orders.len() == 1,
        PhaseView::Detaching => first is Some && orders.len() == k + 1 && orders[k] == s.detach(),
        _ => first is Some && orders.len() >= k + 2 && orders[k] == s.detach(),
    }
}

proof fn lemma_course(plan: LaunchPlanView, replies: Seq<Result<Seq<char>, Seq<char>>>)
    ensures
        course(
            plan,
            if replies.len() > 0 {
                Some(replies[0])
            } else {
                None
            },
            reached(launched(plan).0, replies),
            ordered(launched(plan).0, replies),
        ),
        ordered(launched(plan).0, replies).len() == replies.len(),
    decreases replies.len(),
{
    if replies.len() > 0 {
        let before = replies.drop_last();
        lemma_course(plan, before);
        if before.len() > 0 {
            assert(before[0] == replies[0]);
        }
    }
}

/// A daemon that finds a PID file first sends the termination signal to the
/// process that the file names, and only then detaches and claims the file:
/// in any history, the order to detach is the second one and is given once.
pub proof fn takeover_comes_before_detach(
    plan: LaunchPlanView,
    replies: Seq<Result<Seq<char>, Seq<char>>>,
)
    requires
        replies.len() >= 1,
        replies[0] is Ok,
    ensures
        ({
            let orders = ordered(launched(plan).0, replies);
            &&& orders.len() == replies.len()
            &&& orders[0] == OrderView::Run(kill_command(trimmed(replies[0]->Ok_0)))
            &&& replies.len() >= 2 ==> orders[1] == OrderView::Detach {
                pid_file: plan.pid_file,
                log_file: plan.log_file,
            }
            &&& forall|i: int| 0 <= i < orders.len() && i != 1 ==> !(#[trigger] orders[i] is Detach)
        }),
{
    lemma_course(plan, replies);
}

/// A daemon that finds no PID file detaches at once, and once only.
pub proof fn first_daemon_detaches_at_once(
    plan: LaunchPlanView,
    replies: Seq<Result<Seq<char>, Seq<char>>>,
)
    requires
        replies.len() >= 1,
        replies[0] is Err,
    ensures
        ({
            let orders = ordered(launched(plan).0, replies);
            &&& orders.len() == replies.len()
            &&& orders[0] == OrderView::Detach { pid_file: plan.pid_file, log_file: plan.log_file }
            &&& forall|i: int| 0 <= i < orders.len() && i != 0 ==> !(#[trigger] orders[i] is Detach)
        }),
{
    lemma_course(plan, replies);
}

/// A daemon that has detached never stops of its own: after a cycle it
/// sleeps for the poll interval, after the sleep it runs the next cycle,
/// whatever the cycle or the sleep reports.
pub proof fn detached_daemon_polls_for_ever(s: SupervisorView, reply: Result<Seq<char>, Seq<char>>)
    requires
        s.phase is Cycling || s.phase is Sleeping,
    ensures
        s.phase is Cycling ==> proceeded(s, reply) == (
            s.at(PhaseView::Sleeping),
            OrderView::Sleep(POLL_SECONDS),
        ),
        s.phase is Sleeping ==> proceeded(s, reply) == (s.at(PhaseView::Cycling), s.cycle()),
{
}

/// One line of a daemon's log: the time, the level, then the message.
pub open spec fn log_line_of(time: Seq<char>, level: Seq<char>, message: Seq<char>) -> Seq<char> {
    "["@ + time + "]["@ + level + "] "@ + message
}

/// Builds [`log_line_of`].
pub fn log_line(time: &str, level: &str, message: &str) -> (r: String)
    ensures
        r@ == log_line_of(time@, level@, message@),
{
    let mut r = String::from_str("[");
    r.append(time);
    r.append("][");
    r.append(level);
    r.append("] ");
    r.append(message);
    r
}

} // verus!
