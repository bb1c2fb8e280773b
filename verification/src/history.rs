//! What holds of a whole cycle, whatever the host reports.
//!
//! A history is the sequence of replies that the host has given to a cycle
//! since [`start`]. [`after`] is the cycle that they lead to and [`asked`]
//! the actions that they were answered with; the first action, the remote
//! ref query, comes from [`start`] and is not among them.

use crate::config::ConfigView;
use crate::cycle::{
    next, start, ActionView, CycleErrorView, CycleView, OutcomeView, StageView,
};
use crate::remote::{repo_info, version_token};
use vstd::prelude::*;

verus! {

/// The cycle that `c` has become when the host has given `replies`.
pub open spec fn after(c: CycleView, replies: Seq<Result<Seq<char>, Seq<char>>>) -> CycleView
    decreases replies.len(),
{
    if replies.len() == 0 {
        c
    } else {
        next(after(c, replies.drop_last()), replies.last()).0
    }
}

/// The actions that `c` has asked for in answer to `replies`, one for each.
pub open spec fn asked(c: CycleView, replies: Seq<Result<Seq<char>, Seq<char>>>) -> Seq<
    ActionView,
>
    decreases replies.len(),
{
    if replies.len() == 0 {
        Seq::empty()
    } else {
        asked(c, replies.drop_last()).push(
            next(after(c, replies.drop_last()), replies.last()).1,
        )
    }
}

/// A cycle as [`start`] makes it: well-formed and waiting for the answer to
/// the remote ref query.
pub open spec fn fresh(c: CycleView) -> bool {
    c.wf() && c.stage is FetchVersion
}

/// No action of `acts` stores a descriptor.
pub open spec fn stores_nothing(acts: Seq<ActionView>) -> bool {
    forall|i: int| 0 <= i < acts.len() ==> !(#[trigger] acts[i] is SaveConfig)
}

/// Every action of `acts` is [`ActionView::Stop`].
pub open spec fn only_stops(acts: Seq<ActionView>) -> bool {
    forall|i: int| 0 <= i < acts.len() ==> #[trigger] acts[i] == ActionView::Stop
}

/// The commands of the first `m` build steps of `c` are among `acts`.
pub open spec fn built(c: CycleView, acts: Seq<ActionView>, m: int) -> bool {
    forall|k: int| 0 <= k < m ==> acts.contains(#[trigger] c.build_action(k))
}

/// The copy commands of the first `m` deploy steps of `c` are among `acts`.
pub open spec fn copied(c: CycleView, acts: Seq<ActionView>, m: int) -> bool {
    forall|k: int| 0 <= k < m ==> acts.contains(#[trigger] c.copy_action(k))
}

/// `acts` removes the working copy and later stores `stored`.
pub open spec fn removes_then_stores(c: CycleView, acts: Seq<ActionView>, stored: ConfigView) -> bool {
    exists|i: int, j: int|
        0 <= i < j < acts.len() && #[trigger] acts[i] == c.removal() && #[trigger] acts[j]
            == ActionView::SaveConfig(stored)
}

spec fn same_job(c: CycleView, s: CycleView) -> bool {
    &&& s.work_dir == c.work_dir
    &&& s.config == c.config
    &&& s.owner == c.owner
    &&& s.name == c.name
    &&& s.branch == c.branch
}

spec fn deploying(s: CycleView, first: Option<Result<Seq<char>, Seq<char>>>) -> bool {
    &&& s.fetched_new()
    &&& first matches Some(Ok(out))
    &&& s.fetched == version_token(out)
}

spec fn all_done(c: CycleView, acts: Seq<ActionView>) -> bool {
    built(c, acts, c.config.build.len() as int) && copied(c, acts, c.config.mouve.len() as int)
}

spec fn trail(
    c: CycleView,
    first: Option<Result<Seq<char>, Seq<char>>>,
    s: CycleView,
    acts: Seq<ActionView>,
) -> bool {
    &&& same_job(c, s)
    &&& s.wf()
    &&& match s.stage {
        StageView::FetchVersion => first is None && acts.len() == 0,
        StageView::PrepareWorkDir | StageView::CleanWorkspace | StageView::Clone => {
            deploying(s, first) && stores_nothing(acts)
        },
        StageView::Build(i) => {
            deploying(s, first) && stores_nothing(acts) && built(c, acts, i as int + 1)
        },
        StageView::PrepareDeploy(i) => {
            &&& deploying(s, first)
            &&& stores_nothing(acts)
            &&& built(c, acts, c.config.build.len() as int)
            &&& copied(c, acts, i as int)
        },
        StageView::Deploy(i) => {
            &&& deploying(s, first)
            &&& stores_nothing(acts)
            &&& built(c, acts, c.config.build.len() as int)
            &&& copied(c, acts, i as int + 1)
        },
        StageView::RemoveClone => {
            &&& deploying(s, first)
            &&& stores_nothing(acts)
            &&& all_done(c, acts)
            &&& acts.len() >= 1
            &&& acts.last() == c.removal()
        },
        StageView::Persist => {
            &&& deploying(s, first)
            &&& all_done(c, acts)
            &&& removes_then_stores(c, acts, s.new_config())
        },
        StageView::AbortClone(e) => {
            &&& deploying(s, first)
            &&& stores_nothing(acts)
            &&& acts.contains(c.removal())
        },
        StageView::AbortDestination(e) => {
            &&& deploying(s, first)
            &&& stores_nothing(acts)
            &&& acts.contains(c.removal())
            &&& e matches CycleErrorView::Deploy { step, .. }
            &&& acts.contains(c.destination_removal(step as int))
        },
        StageView::Done(OutcomeView::UpToDate) => {
            &&& only_stops(acts)
            &&& first matches Some(Ok(out))
            &&& version_token(out) == c.config.current_version()
            &&& version_token(out).len() > 0
        },
        StageView::Done(OutcomeView::Deployed) => {
            &&& deploying(s, first)
            &&& all_done(c, acts)
            &&& removes_then_stores(c, acts, s.new_config())
        },
        StageView::Done(OutcomeView::Failed(e)) => match e {
            CycleErrorView::RemoteQuery(_) => {
                &&& only_stops(acts)
                &&& first is Some
                &&& first matches Some(Ok(out)) ==> version_token(out).len() == 0
            },
            CycleErrorView::Clone(_) | CycleErrorView::Build { .. } => {
                deploying(s, first) && stores_nothing(acts) && acts.contains(c.removal())
            },
            CycleErrorView::Deploy { step, .. } => {
                &&& deploying(s, first)
                &&& stores_nothing(acts)
                &&& acts.contains(c.removal())
                &&& step < c.config.mouve.len()
                &&& acts.contains(c.destination_removal(step as int))
            },
            CycleErrorView::Persist(_) => deploying(s, first),
            _ => false,
        },
    }
}

proof fn lemma_push(acts: Seq<ActionView>, a: ActionView)
    ensures
        acts.push(a).contains(a),
        forall|x: ActionView| acts.contains(x) ==> #[trigger] acts.push(a).contains(x),
        stores_nothing(acts) && !(a is SaveConfig) ==> stores_nothing(acts.push(a)),
        only_stops(acts) && a == ActionView::Stop ==> only_stops(acts.push(a)),
{
    let grown = acts.push(a);
    assert(grown[acts.len() as int] == a);
    assert forall|x: ActionView| acts.contains(x) implies #[trigger] grown.contains(x) by {
        let i = choose|i: int| 0 <= i < acts.len() && acts[i] == x;
        assert(grown[i] == x);
    }
}

proof fn lemma_push_steps(c: CycleView, acts: Seq<ActionView>, a: ActionView, m: int)
    ensures
        built(c, acts, m) ==> built(c, acts.push(a), m),
        copied(c, acts, m) ==> copied(c, acts.push(a), m),
        built(c, acts, m) && a == c.build_action(m) ==> built(c, acts.push(a), m + 1),
        copied(c, acts, m) && a == c.copy_action(m) ==> copied(c, acts.push(a), m + 1),
        forall|stored: ConfigView|
            removes_then_stores(c, acts, stored) ==> #[trigger] removes_then_stores(
                c,
                acts.push(a),
                stored,
            ),
        forall|stored: ConfigView|
            acts.len() >= 1 && acts.last() == c.removal() && a == ActionView::SaveConfig(stored)
                ==> #[trigger] removes_then_stores(c, acts.push(a), stored),
{
    lemma_push(acts, a);
    let grown = acts.push(a);
    assert forall|stored: ConfigView| removes_then_stores(c, acts, stored) implies #[trigger] removes_then_stores(
        c,
        grown,
        stored,
    ) by {
        let (i, j) = choose|i: int, j: int|
            0 <= i < j < acts.len() && #[trigger] acts[i] == c.removal() && #[trigger] acts[j]
                == ActionView::SaveConfig(stored);
        assert(grown[i] == c.removal());
        assert(grown[j] == ActionView::SaveConfig(stored));
    }
    assert forall|stored: ConfigView|
        acts.len() >= 1 && acts.last() == c.removal() && a == ActionView::SaveConfig(
            stored,
        ) implies #[trigger] removes_then_stores(c, grown, stored) by {
        assert(grown[acts.len() - 1] == c.removal());
        assert(grown[acts.len() as int] == ActionView::SaveConfig(stored));
    }
}

proof fn lemma_trail_step(
    c: CycleView,
    first: Option<Result<Seq<char>, Seq<char>>>,
    s: CycleView,
    acts: Seq<ActionView>,
    reply: Result<Seq<char>, Seq<char>>,
)
    requires
        trail(c, first, s, acts),
        !(s.stage is FetchVersion),
    ensures
        trail(c, first, next(s, reply).0, acts.push(next(s, reply).1)),
{
    let (t, a) = next(s, reply);
    crate::cycle::next_keeps_wf(s, reply);
    lemma_push(acts, a);
    lemma_push_steps(c, acts, a, 0);
    lemma_push_steps(c, acts, a, c.config.build.len() as int);
    lemma_push_steps(c, acts, a, c.config.mouve.len() as int);
    assert(built(c, acts, 0));
    assert(copied(c, acts, 0));
    match s.stage {
        StageView::Build(i) => {
            lemma_push_steps(c, acts, a, i as int + 1);
            assert(s.build_action(i as int + 1) == c.build_action(i as int + 1));
        },
        StageView::PrepareDeploy(i) => {
            lemma_push_steps(c, acts, a, i as int);
            assert(s.copy_action(i as int) == c.copy_action(i as int));
        },
        StageView::Deploy(i) => {
            lemma_push_steps(c, acts, a, i as int + 1);
        },
        StageView::Clone => {
            assert(s.build_action(0) == c.build_action(0));
        },
        _ => {},
    }
    assert(s.removal() == c.removal());
    assert(s.new_config() == t.new_config());
}

proof fn lemma_trail(c: CycleView, replies: Seq<Result<Seq<char>, Seq<char>>>)
    requires
        fresh(c),
    ensures
        trail(
            c,
            if replies.len() > 0 {
                Some(replies[0])
            } else {
                None
            },
            after(c, replies),
            asked(c, replies),
        ),
        asked(c, replies).len() == replies.len(),
    decreases replies.len(),
{
    if replies.len() > 0 {
        let before = replies.drop_last();
        lemma_trail(c, before);
        let s = after(c, before);
        let acts = asked(c, before);
        let first = Some(replies[0]);
        if before.len() == 0 {
            let (t, a) = next(c, replies.last());
            crate::cycle::next_keeps_wf(c, replies.last());
            lemma_push(acts, a);
            assert(acts.push(a).len() == 1);
            assert(trail(c, first, t, acts.push(a)));
        } else {
            assert(before[0] == replies[0]);
            lemma_trail_step(c, first, s, acts, replies.last());
        }
    }
}

/// Every cycle that [`start`] makes is fresh, works on the descriptor that
/// was loaded, and asks first for the remote ref query of its branch.
pub proof fn started_cycle_is_fresh(work_dir: Seq<char>, loaded: Result<ConfigView, Seq<char>>)
    ensures
        start(work_dir, loaded) matches Ok((c, a)) ==> {
            &&& fresh(c)
            &&& c.work_dir == work_dir
            &&& loaded == Ok::<ConfigView, Seq<char>>(c.config)
            &&& a == ActionView::Run(
                crate::commands::version_query_command(c.owner, c.name, c.branch),
            )
        },
{
}

/// A descriptor whose remote locator cannot be resolved starts no cycle:
/// nothing is asked of the host, so nothing is run, removed or stored.
pub proof fn unresolved_locator_starts_nothing(work_dir: Seq<char>, config: ConfigView)
    requires
        repo_info(config.repo) is None,
    ensures
        start(work_dir, Ok(config)) == Err::<(CycleView, ActionView), CycleErrorView>(
            CycleErrorView::RemoteResolution,
        ),
{
}

/// Where the remote ref query answers with the version that was deployed
/// last, the cycle asks for nothing more: whatever the host goes on to
/// report, every further action is `Stop`, so no command is run and no
/// descriptor is stored. Unless that version is empty, the cycle ends as up
/// to date.
pub proof fn up_to_date_asks_nothing(c: CycleView, replies: Seq<Result<Seq<char>, Seq<char>>>)
    requires
        fresh(c),
        replies.len() > 0,
        replies[0] matches Ok(out) && version_token(out) == c.config.current_version(),
    ensures
        asked(c, replies).len() == replies.len(),
        only_stops(asked(c, replies)),
        replies[0] matches Ok(out) && (version_token(out).len() > 0 ==> after(c, replies).stage
            == StageView::Done(OutcomeView::UpToDate)),
{
    lemma_trail(c, replies);
}

/// A cycle that ends as deployed has fetched a version other than the one
/// deployed last, has run every build step and every copy, and has removed
/// the working copy before it stored the descriptor with the fetched version.
pub proof fn deployed_stores_fetched_version(
    c: CycleView,
    replies: Seq<Result<Seq<char>, Seq<char>>>,
)
    requires
        fresh(c),
        after(c, replies).stage == StageView::Done(OutcomeView::Deployed),
    ensures
        replies.len() > 0,
        replies[0] matches Ok(out) && {
            &&& version_token(out) != c.config.current_version()
            &&& removes_then_stores(c, asked(c, replies), c.config.synced(version_token(out)))
        },
        built(c, asked(c, replies), c.config.build.len() as int),
        copied(c, asked(c, replies), c.config.mouve.len() as int),
{
    lemma_trail(c, replies);
}

/// A cycle that fails before it stores the descriptor never asks to store
/// one: the stored descriptor stays as it was.
pub proof fn failure_keeps_descriptor(c: CycleView, replies: Seq<Result<Seq<char>, Seq<char>>>)
    requires
        fresh(c),
        after(c, replies).stage matches StageView::Done(OutcomeView::Failed(e)) && !(e is Persist),
    ensures
        stores_nothing(asked(c, replies)),
{
    lemma_trail(c, replies);
    let acts = asked(c, replies);
    if only_stops(acts) {
        assert forall|i: int| 0 <= i < acts.len() implies !(#[trigger] acts[i] is SaveConfig) by {
            assert(acts[i] == ActionView::Stop);
        }
    }
}

/// A cycle that fails at the clone, at a build step or at a copy has asked
/// to remove the working copy.
pub proof fn failed_step_removes_clone(c: CycleView, replies: Seq<Result<Seq<char>, Seq<char>>>)
    requires
        fresh(c),
        after(c, replies).stage matches StageView::Done(OutcomeView::Failed(e)) && (e is Clone
            || e is Build || e is Deploy),
    ensures
        asked(c, replies).contains(c.removal()),
{
    lemma_trail(c, replies);
}

/// A cycle that fails at a copy has also asked to remove the destination of
/// that deploy step.
pub proof fn failed_copy_removes_destination(
    c: CycleView,
    replies: Seq<Result<Seq<char>, Seq<char>>>,
)
    requires
        fresh(c),
        after(c, replies).stage matches StageView::Done(OutcomeView::Failed(e)) && e is Deploy,
    ensures
        after(c, replies).stage matches StageView::Done(
            OutcomeView::Failed(CycleErrorView::Deploy { step, .. }),
        ) && step < c.config.mouve.len() && asked(c, replies).contains(
            c.destination_removal(step as int),
        ),
{
    lemma_trail(c, replies);
}

/// When a build step fails, the cycle asks to remove the working copy and
/// then stops as failed, whatever comes of the removal.
pub proof fn failed_build_is_cleaned_up(
    c: CycleView,
    i: nat,
    message: Seq<char>,
    reply: Result<Seq<char>, Seq<char>>,
)
    requires
        c.wf(),
        c.stage == StageView::Build(i),
    ensures
        ({
            let (c1, a1) = next(c, Err(message));
            let (c2, a2) = next(c1, reply);
            &&& a1 == c.removal()
            &&& a2 == ActionView::Stop
            &&& c2.stage == StageView::Done(
                OutcomeView::Failed(CycleErrorView::Build { step: i, message }),
            )
        }),
{
}

/// When a copy fails, the cycle asks to remove the working copy, then the
/// destination of that deploy step, and then stops as failed, whatever comes
/// of the two removals.
pub proof fn failed_copy_is_cleaned_up(
    c: CycleView,
    i: nat,
    message: Seq<char>,
    reply1: Result<Seq<char>, Seq<char>>,
    reply2: Result<Seq<char>, Seq<char>>,
)
    requires
        c.wf(),
        c.stage == StageView::Deploy(i),
    ensures
        ({
            let (c1, a1) = next(c, Err(message));
            let (c2, a2) = next(c1, reply1);
            let (c3, a3) = next(c2, reply2);
            &&& a1 == c.removal()
            &&& a2 == c.destination_removal(i as int)
            &&& a3 == ActionView::Stop
            &&& c3.stage == StageView::Done(
                OutcomeView::Failed(CycleErrorView::Deploy { step: i, message }),
            )
        }),
{
}

/// A cycle that is over stays as it is and asks for nothing.
pub proof fn finished_cycle_rests(c: CycleView, reply: Result<Seq<char>, Seq<char>>)
    requires
        c.stage is Done,
    ensures
        next(c, reply) == (c, ActionView::Stop),
{
}

/// The stage that a fresh cycle is in after `k` replies, where the remote
/// version is new and nothing fails.
pub open spec fn stage_on_course(c: CycleView, k: int) -> StageView {
    let b = c.config.build.len() as int;
    let m = c.config.mouve.len() as int;
    if k <= 0 {
        StageView::FetchVersion
    } else if k == 1 {
        StageView::PrepareWorkDir
    } else if k == 2 {
        StageView::CleanWorkspace
    } else if k == 3 {
        StageView::Clone
    } else if k < 4 + b {
        StageView::Build((k - 4) as nat)
    } else if k < 4 + b + 2 * m {
        if (k - 4 - b) % 2 == 0 {
            StageView::PrepareDeploy(((k - 4 - b) / 2) as nat)
        } else {
            StageView::Deploy(((k - 4 - b) / 2) as nat)
        }
    } else if k == 4 + b + 2 * m {
        StageView::RemoveClone
    } else if k == 5 + b + 2 * m {
        StageView::Persist
    } else {
        StageView::Done(OutcomeView::Deployed)
    }
}

/// Where the remote version is new and every action succeeds, the cycle
/// goes through its stages in order, one reply for each: the remote ref
/// query, the work directory, the old working copy, the clone, each build
/// step, two for each deploy step, the removal of the working copy, and the
/// descriptor.
pub proof fn unfailing_cycle_stays_on_course(
    c: CycleView,
    replies: Seq<Result<Seq<char>, Seq<char>>>,
)
    requires
        fresh(c),
        replies.len() > 0,
        forall|i: int| 0 <= i < replies.len() ==> (#[trigger] replies[i]) is Ok,
        version_token(replies[0]->Ok_0).len() > 0,
        version_token(replies[0]->Ok_0) != c.config.current_version(),
    ensures
        after(c, replies).stage == stage_on_course(c, replies.len() as int),
    decreases replies.len(),
{
    let before = replies.drop_last();
    lemma_trail(c, before);
    assert(replies.last() is Ok);
    if before.len() > 0 {
        assert(before[0] == replies[0]);
        assert forall|i: int| 0 <= i < before.len() implies (#[trigger] before[i]) is Ok by {
            assert(before[i] == replies[i]);
        }
        unfailing_cycle_stays_on_course(c, before);
    }
}

/// A cycle whose remote version is new and whose actions all succeed ends
/// as deployed, with the reply to storing the descriptor.
pub proof fn unfailing_cycle_deploys(c: CycleView, replies: Seq<Result<Seq<char>, Seq<char>>>)
    requires
        fresh(c),
        replies.len() == 6 + c.config.build.len() + 2 * c.config.mouve.len(),
        forall|i: int| 0 <= i < replies.len() ==> (#[trigger] replies[i]) is Ok,
        version_token(replies[0]->Ok_0).len() > 0,
        version_token(replies[0]->Ok_0) != c.config.current_version(),
    ensures
        after(c, replies).stage == StageView::Done(OutcomeView::Deployed),
        !(after(c, replies.drop_last()).stage is Done),
{
    unfailing_cycle_stays_on_course(c, replies);
    let before = replies.drop_last();
    assert forall|i: int| 0 <= i < before.len() implies (#[trigger] before[i]) is Ok by {
        assert(before[i] == replies[i]);
    }
    assert(before[0] == replies[0]);
    unfailing_cycle_stays_on_course(c, before);
}

/// How many replies a cycle can still take before it is over, at most.
pub open spec fn steps_left(c: CycleView) -> int {
    let b = c.config.build.len() as int;
    let m = c.config.mouve.len() as int;
    match c.stage {
        StageView::FetchVersion => 6 + b + 2 * m,
        StageView::PrepareWorkDir => 5 + b + 2 * m,
        StageView::CleanWorkspace => 4 + b + 2 * m,
        StageView::Clone => 3 + b + 2 * m,
        StageView::Build(i) => if i < b {
            3 + (b - 1 - i) + 2 * m
        } else {
            3 + 2 * m
        },
        StageView::PrepareDeploy(i) => if i < m {
            2 + 2 * (m - i)
        } else {
            3
        },
        StageView::Deploy(i) => if i < m {
            1 + 2 * (m - i)
        } else {
            3
        },
        StageView::RemoveClone => 2,
        StageView::Persist => 1,
        StageView::AbortClone(_) => 2,
        StageView::AbortDestination(_) => 1,
        StageView::Done(_) => 0,
    }
}

/// Every reply brings a cycle nearer to its end.
pub proof fn every_step_counts(c: CycleView, reply: Result<Seq<char>, Seq<char>>)
    requires
        !(c.stage is Done),
    ensures
        0 <= steps_left(next(c, reply).0) < steps_left(c),
        next(c, reply).0.config == c.config,
{
}

/// Every cycle ends: once the host has given as many replies as the cycle
/// has steps, the cycle is over, however the replies went.
pub proof fn every_cycle_ends(c: CycleView, replies: Seq<Result<Seq<char>, Seq<char>>>)
    requires
        replies.len() >= steps_left(c),
    ensures
        after(c, replies).stage is Done,
{
    lemma_steps_left(c, replies);
}

proof fn lemma_steps_left(c: CycleView, replies: Seq<Result<Seq<char>, Seq<char>>>)
    ensures
        0 <= steps_left(after(c, replies)),
        after(c, replies).stage is Done || steps_left(after(c, replies)) <= steps_left(c)
            - replies.len(),
    decreases replies.len(),
{
    if replies.len() > 0 {
        let before = replies.drop_last();
        lemma_steps_left(c, before);
        if !(after(c, before).stage is Done) {
            every_step_counts(after(c, before), replies.last());
        }
    }
}

} // verus!
