use fast_flow::config::{ConfigFile, FromTo};
use fast_flow::cycle::{begin, step, Action, CycleError, Outcome, Stage, WatchCycle};

fn widget(version: Option<&str>) -> ConfigFile {
    ConfigFile {
        repo: "git@host:acme/widget.git".to_string(),
        build: vec!["make".to_string()],
        mouve: vec![FromTo { from: "dist".to_string(), to: "/srv/widget".to_string() }],
        branch: Some("main".to_string()),
        version: version.map(|v| v.to_string()),
        entry_point: None,
    }
}

fn two_by_two() -> ConfigFile {
    ConfigFile {
        repo: "https://github.com/acme/widget.git".to_string(),
        build: vec!["make".to_string(), "make test".to_string()],
        mouve: vec![
            FromTo { from: "dist".to_string(), to: "/srv/widget".to_string() },
            FromTo { from: "doc".to_string(), to: "/srv/doc".to_string() },
        ],
        branch: None,
        version: None,
        entry_point: Some("/srv/widget/run.sh".to_string()),
    }
}

fn ok(s: &str) -> Result<String, String> {
    Ok(s.to_string())
}

fn err(s: &str) -> Result<String, String> {
    Err(s.to_string())
}

fn run(s: &str) -> Action {
    Action::Run(s.to_string())
}

/// Starts a cycle and answers its actions with `replies`, in order.
fn drive(config: ConfigFile, replies: Vec<Result<String, String>>) -> (WatchCycle, Vec<Action>) {
    let (mut cycle, first) = begin("/w", Ok(config)).expect("the cycle starts");
    let mut actions = vec![first];
    for reply in replies {
        let (next, action) = step(cycle, reply);
        cycle = next;
        actions.push(action);
    }
    (cycle, actions)
}

#[test]
fn unchanged_version_ends_up_to_date() {
    let (cycle, actions) =
        drive(widget(Some("abc123")), vec![ok("abc123\trefs/heads/main\n")]);
    assert_eq!(
        actions,
        vec![run("git ls-remote git@github.com:git@host:acme/widget.git \"main\""), Action::Stop]
    );
    assert_eq!(cycle.stage, Stage::Done(Outcome::UpToDate));
    assert_eq!(cycle.outcome(), Some(&Outcome::UpToDate));
    assert_eq!(cycle.config, widget(Some("abc123")));
}

#[test]
fn changed_version_is_built_deployed_and_stored() {
    let (cycle, actions) = drive(
        widget(Some("abc123")),
        vec![
            ok("def456\trefs/heads/main\n"),
            ok(""),
            ok(""),
            ok("Cloning into 'widget'..."),
            ok("built"),
            ok(""),
            ok(""),
            ok(""),
            ok(""),
        ],
    );
    assert_eq!(
        actions,
        vec![
            run("git ls-remote git@github.com:git@host:acme/widget.git \"main\""),
            Action::EnsureDir("/w".to_string()),
            run("rm -rf /w/widget"),
            run("cd /w && git clone git@github.com:git@host:acme/widget.git"),
            run("cd /w/widget && make"),
            Action::EnsureParentDir("/srv/widget".to_string()),
            run("cd /w/widget && cp -r dist /srv/widget"),
            run("cd /w && rm -rf widget"),
            Action::SaveConfig(widget(Some("def456"))),
            Action::Stop,
        ]
    );
    assert_eq!(cycle.stage, Stage::Done(Outcome::Deployed));
    assert_eq!(cycle.fetched, "def456");
}

#[test]
fn first_sync_records_the_default_branch() {
    let mut config = two_by_two();
    let (cycle, actions) = drive(
        two_by_two(),
        vec![
            ok("0a1b\trefs/heads/main\n"),
            err("mkdir failed"),
            err("rm failed"),
            ok(""),
            ok(""),
            ok(""),
            err("mkdir failed"),
            ok(""),
            err("mkdir failed"),
            ok(""),
            err("rm failed"),
            ok(""),
        ],
    );
    config.version = Some("0a1b".to_string());
    config.branch = Some("main".to_string());
    assert_eq!(
        actions,
        vec![
            run("git ls-remote git@github.com:acme/widget.git \"main\""),
            Action::EnsureDir("/w".to_string()),
            run("rm -rf /w/widget"),
            run("cd /w && git clone git@github.com:acme/widget.git"),
            run("cd /w/widget && make"),
            run("cd /w/widget && make test"),
            Action::EnsureParentDir("/srv/widget".to_string()),
            run("cd /w/widget && cp -r dist /srv/widget"),
            Action::EnsureParentDir("/srv/doc".to_string()),
            run("cd /w/widget && cp -r doc /srv/doc"),
            run("cd /w && rm -rf widget"),
            Action::SaveConfig(config),
            Action::Stop,
        ]
    );
    assert_eq!(cycle.outcome(), Some(&Outcome::Deployed));
}

#[test]
fn descriptor_without_steps_is_cloned_and_stored() {
    let config = ConfigFile {
        repo: "acme/widget.git".to_string(),
        build: vec![],
        mouve: vec![],
        branch: Some("dev".to_string()),
        version: Some("old".to_string()),
        entry_point: None,
    };
    let mut stored = config.clone();
    stored.version = Some("new".to_string());
    let (cycle, actions) =
        drive(config, vec![ok("new refs/heads/dev"), ok(""), ok(""), ok(""), ok(""), ok("")]);
    assert_eq!(
        actions,
        vec![
            run("git ls-remote git@github.com:acme/widget.git \"dev\""),
            Action::EnsureDir("/w".to_string()),
            run("rm -rf /w/widget"),
            run("cd /w && git clone git@github.com:acme/widget.git"),
            run("cd /w && rm -rf widget"),
            Action::SaveConfig(stored),
            Action::Stop,
        ]
    );
    assert_eq!(cycle.outcome(), Some(&Outcome::Deployed));
}

#[test]
fn failed_query_ends_the_cycle() {
    let (cycle, actions) = drive(widget(Some("abc123")), vec![err("Permission denied")]);
    assert_eq!(actions.len(), 2);
    assert_eq!(actions[1], Action::Stop);
    assert_eq!(
        cycle.outcome(),
        Some(&Outcome::Failed(CycleError::RemoteQuery("Permission denied".to_string())))
    );
}

#[test]
fn query_without_version_ends_the_cycle() {
    for config in [widget(Some("abc123")), widget(None)] {
        let (cycle, actions) = drive(config, vec![ok("\n")]);
        assert_eq!(actions.len(), 2);
        assert_eq!(actions[1], Action::Stop);
        assert_eq!(
            cycle.outcome(),
            Some(&Outcome::Failed(CycleError::RemoteQuery(String::new())))
        );
    }
}

#[test]
fn failed_clone_removes_the_working_copy() {
    let (cycle, actions) = drive(
        widget(None),
        vec![ok("def456 refs/heads/main"), ok(""), ok(""), err("no such repository"), ok("")],
    );
    assert_eq!(actions[4], run("cd /w && rm -rf widget"));
    assert_eq!(actions[5], Action::Stop);
    assert_eq!(actions.len(), 6);
    assert_eq!(
        cycle.outcome(),
        Some(&Outcome::Failed(CycleError::Clone("no such repository".to_string())))
    );
    assert!(actions.iter().all(|a| !matches!(a, Action::SaveConfig(_))));
}

#[test]
fn failed_build_step_skips_the_rest() {
    let (cycle, actions) = drive(
        two_by_two(),
        vec![ok("v1 refs/heads/main"), ok(""), ok(""), ok(""), err("make: error"), err("busy")],
    );
    assert_eq!(
        actions,
        vec![
            run("git ls-remote git@github.com:acme/widget.git \"main\""),
            Action::EnsureDir("/w".to_string()),
            run("rm -rf /w/widget"),
            run("cd /w && git clone git@github.com:acme/widget.git"),
            run("cd /w/widget && make"),
            run("cd /w && rm -rf widget"),
            Action::Stop,
        ]
    );
    assert_eq!(
        cycle.outcome(),
        Some(&Outcome::Failed(CycleError::Build { step: 0, message: "make: error".to_string() }))
    );
    assert_eq!(cycle.config, two_by_two());
}

#[test]
fn failed_second_build_step_names_its_index() {
    let (cycle, actions) = drive(
        two_by_two(),
        vec![ok("v1 refs/heads/main"), ok(""), ok(""), ok(""), ok(""), err("tests failed"), ok("")],
    );
    assert_eq!(actions[5], run("cd /w/widget && make test"));
    assert_eq!(actions[6], run("cd /w && rm -rf widget"));
    assert_eq!(actions[7], Action::Stop);
    assert_eq!(
        cycle.outcome(),
        Some(&Outcome::Failed(CycleError::Build { step: 1, message: "tests failed".to_string() }))
    );
}

#[test]
fn failed_copy_removes_clone_and_destination() {
    let (cycle, actions) = drive(
        two_by_two(),
        vec![
            ok("v1 refs/heads/main"),
            ok(""),
            ok(""),
            ok(""),
            ok(""),
            ok(""),
            ok(""),
            ok(""),
            ok(""),
            err("cp: cannot stat 'doc'"),
            ok(""),
            ok(""),
        ],
    );
    assert_eq!(actions[9], run("cd /w/widget && cp -r doc /srv/doc"));
    assert_eq!(actions[10], run("cd /w && rm -rf widget"));
    assert_eq!(actions[11], run("rm -rf /srv/doc"));
    assert_eq!(actions[12], Action::Stop);
    assert_eq!(actions.len(), 13);
    assert_eq!(
        cycle.outcome(),
        Some(&Outcome::Failed(CycleError::Deploy {
            step: 1,
            message: "cp: cannot stat 'doc'".to_string()
        }))
    );
    assert!(actions.iter().all(|a| !matches!(a, Action::SaveConfig(_))));
}

#[test]
fn failed_first_copy_leaves_later_steps_alone() {
    let (cycle, actions) = drive(
        two_by_two(),
        vec![
            ok("v1 refs/heads/main"),
            ok(""),
            ok(""),
            ok(""),
            ok(""),
            ok(""),
            ok(""),
            err("cp failed"),
            err("rm failed"),
            err("rm failed"),
        ],
    );
    assert_eq!(actions[8], run("cd /w && rm -rf widget"));
    assert_eq!(actions[9], run("rm -rf /srv/widget"));
    assert_eq!(actions[10], Action::Stop);
    assert_eq!(
        cycle.outcome(),
        Some(&Outcome::Failed(CycleError::Deploy { step: 0, message: "cp failed".to_string() }))
    );
}

#[test]
fn failed_store_ends_as_failed() {
    let (cycle, actions) = drive(
        widget(None),
        vec![
            ok("v1 refs/heads/main"),
            ok(""),
            ok(""),
            ok(""),
            ok(""),
            ok(""),
            ok(""),
            ok(""),
            err("disk full"),
        ],
    );
    assert_eq!(actions[8], Action::SaveConfig(widget(Some("v1"))));
    assert_eq!(actions[9], Action::Stop);
    assert_eq!(
        cycle.outcome(),
        Some(&Outcome::Failed(CycleError::Persist("disk full".to_string())))
    );
}

#[test]
fn finished_cycle_rests() {
    let (cycle, _) = drive(widget(Some("abc123")), vec![ok("abc123 refs/heads/main")]);
    let before = cycle.clone();
    let (cycle, action) = step(cycle, ok("def456 refs/heads/main"));
    assert_eq!(action, Action::Stop);
    assert_eq!(cycle, before);
    let (cycle, action) = step(cycle, err("late"));
    assert_eq!(action, Action::Stop);
    assert_eq!(cycle, before);
}

#[test]
fn cycle_in_progress_has_no_outcome() {
    let (cycle, _) = begin("/w", Ok(widget(None))).unwrap();
    assert_eq!(cycle.outcome(), None);
    assert_eq!(cycle.stage, Stage::FetchVersion);
    assert_eq!(cycle.owner, "git@host:acme");
    assert_eq!(cycle.name, "widget");
    assert_eq!(cycle.branch, "main");
    assert_eq!(cycle.work_dir, "/w");
    assert_eq!(cycle.fetched, "");
}

#[test]
fn missing_descriptor_starts_no_cycle() {
    assert_eq!(
        begin("/w", Err("No such file or directory (os error 2)".to_string())),
        Err(CycleError::Config("No such file or directory (os error 2)".to_string()))
    );
}

#[test]
fn malformed_locator_starts_no_cycle() {
    for repo in ["not-a-url", "", "/", "https://github.com/acme/widget"] {
        let mut config = widget(None);
        config.repo = repo.to_string();
        assert_eq!(begin("/w", Ok(config)), Err(CycleError::RemoteResolution));
    }
}

#[test]
fn version_is_compared_as_text() {
    let (cycle, _) = drive(widget(Some("abc123")), vec![ok("ABC123 refs/heads/main")]);
    assert_eq!(cycle.stage, Stage::PrepareWorkDir);
    let (cycle, _) = drive(widget(Some("abc123")), vec![ok("abc1234 refs/heads/main")]);
    assert_eq!(cycle.stage, Stage::PrepareWorkDir);
    let (cycle, _) = drive(widget(Some("abc123")), vec![ok(" abc123 ")]);
    assert_eq!(cycle.stage, Stage::Done(Outcome::UpToDate));
}

#[test]
fn out_of_range_stage_does_not_panic() {
    let (mut cycle, _) = begin("/w", Ok(two_by_two())).unwrap();
    cycle.stage = Stage::Build(usize::MAX);
    let (cycle, action) = step(cycle, ok(""));
    assert_eq!(action, Action::EnsureParentDir("/srv/widget".to_string()));
    let mut cycle = cycle;
    cycle.stage = Stage::Deploy(usize::MAX);
    let (cycle, action) = step(cycle, ok(""));
    assert_eq!(action, run("cd /w && rm -rf widget"));
    let mut cycle = cycle;
    cycle.stage = Stage::PrepareDeploy(7);
    let (cycle, action) = step(cycle, ok(""));
    assert_eq!(action, run("cd /w && rm -rf widget"));
    let mut cycle = cycle;
    cycle.stage =
        Stage::AbortClone(CycleError::Deploy { step: 9, message: "x".to_string() });
    let (cycle, action) = step(cycle, ok(""));
    assert_eq!(action, Action::Stop);
    assert_eq!(
        cycle.outcome(),
        Some(&Outcome::Failed(CycleError::Deploy { step: 9, message: "x".to_string() }))
    );
}

#[test]
fn error_messages_are_what_came_with_them() {
    assert_eq!(CycleError::Config("no file".to_string()).message(), "no file");
    assert_eq!(
        CycleError::RemoteResolution.message(),
        "error while parsing your github repo to extract the name, check it"
    );
    assert_eq!(CycleError::RemoteQuery("denied".to_string()).message(), "denied");
    assert_eq!(CycleError::Clone("gone".to_string()).message(), "gone");
    assert_eq!(CycleError::Build { step: 1, message: "b".to_string() }.message(), "b");
    assert_eq!(CycleError::Deploy { step: 0, message: "d".to_string() }.message(), "d");
    assert_eq!(CycleError::Persist("full".to_string()).message(), "full");
    assert_eq!(
        CycleError::Deploy { step: 0, message: "d".to_string() }.duplicate(),
        CycleError::Deploy { step: 0, message: "d".to_string() }
    );
}

#[test]
fn every_cycle_ends_within_its_steps() {
    // two build steps and two deploy steps: at most 6 + 2 + 4 replies
    let answers = [ok("v1 refs/heads/main"), ok(""), err("failed")];
    let mut pattern: usize = 0;
    while pattern < 2187 {
        let (mut cycle, _) = begin("/w", Ok(two_by_two())).unwrap();
        let mut digits = pattern;
        let mut replies = 0;
        while cycle.outcome().is_none() {
            let reply = if replies == 0 { answers[0].clone() } else { answers[1 + digits % 2].clone() };
            digits /= 2;
            let (next, _) = step(cycle, reply);
            cycle = next;
            replies += 1;
            assert!(replies <= 12);
        }
        pattern += 1;
    }
}
