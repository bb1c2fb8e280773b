use fast_flow::content::CONFIG_EXAMPLE;
use fast_flow::control::{
    config_file_path, directories, init_config, launch_plan, log_file_path, pid_file_path,
    resolve_names, run_flow,
    stop_all_track, stop_commands, tracked_name, ConfigCreation, Directories, StopNotice, StopPlan,
};
use fast_flow::supervisor::LaunchPlan;

fn dirs() -> Directories {
    directories("fast_flow")
}

fn widget_plan() -> LaunchPlan {
    LaunchPlan {
        name: "widget".to_string(),
        work_dir: "/etc/fast_flow/tmp".to_string(),
        config_file: "/etc/fast_flow/config/widget.config.json".to_string(),
        pid_file: "/etc/fast_flow/process/widget.watch.pid".to_string(),
        log_file: "/etc/fast_flow/logs/widget.watch.log".to_string(),
    }
}

#[test]
fn directories_live_under_etc() {
    assert_eq!(
        dirs(),
        Directories {
            config_dir: "/etc/fast_flow/config".to_string(),
            work_dir: "/etc/fast_flow/tmp".to_string(),
            process_dir: "/etc/fast_flow/process".to_string(),
            logs_dir: "/etc/fast_flow/logs".to_string(),
        }
    );
}

#[test]
fn file_paths_carry_their_suffixes() {
    assert_eq!(config_file_path("/c", "widget"), "/c/widget.config.json");
    assert_eq!(pid_file_path("/p", "widget"), "/p/widget.watch.pid");
    assert_eq!(log_file_path("/l", "widget"), "/l/widget.watch.log");
}

#[test]
fn tracked_name_is_the_file_without_its_suffix() {
    assert_eq!(tracked_name("widget.config.json"), "widget");
    assert_eq!(tracked_name("my.app.config.json"), "my.app");
    assert_eq!(tracked_name(".config.json"), "");
}

#[test]
fn other_files_are_named_by_what_precedes_the_first_dot() {
    assert_eq!(tracked_name("notes.txt"), "notes");
    assert_eq!(tracked_name("README"), "README");
    assert_eq!(tracked_name("a.b.c"), "a");
    assert_eq!(tracked_name("widget.config.json.bak"), "widget");
    assert_eq!(tracked_name(""), "");
}

#[test]
fn launch_plan_holds_the_files_of_one_name() {
    assert_eq!(launch_plan(&dirs(), "widget"), widget_plan());
}

#[test]
fn named_run_launches_one_daemon() {
    let listed = vec!["other.config.json".to_string()];
    assert_eq!(run_flow(&dirs(), &listed, Some("widget")), vec![widget_plan()]);
}

#[test]
fn unnamed_run_launches_one_daemon_per_file() {
    let listed = vec!["widget.config.json".to_string(), "gadget.config.json".to_string()];
    let plans = run_flow(&dirs(), &listed, None);
    assert_eq!(plans.len(), 2);
    assert_eq!(plans[0], widget_plan());
    assert_eq!(plans[1], launch_plan(&dirs(), "gadget"));
    assert_eq!(plans[1].pid_file, "/etc/fast_flow/process/gadget.watch.pid");
}

#[test]
fn unnamed_run_of_empty_directory_launches_nothing() {
    assert_eq!(run_flow(&dirs(), &vec![], None), Vec::<LaunchPlan>::new());
}

#[test]
fn named_stop_targets_one_pid_file() {
    let listed = vec!["gadget.watch.pid".to_string()];
    assert_eq!(
        stop_all_track(&listed, Some("widget"), false),
        StopPlan {
            pid_files: vec!["widget.watch.pid".to_string()],
            notice: Some(StopNotice::ShuttingDown(1)),
            confirm: true,
        }
    );
}

#[test]
fn unnamed_stop_targets_every_listed_file() {
    let listed = vec!["widget.watch.pid".to_string(), "gadget.watch.pid".to_string()];
    assert_eq!(
        stop_all_track(&listed, None, false),
        StopPlan {
            pid_files: listed.clone(),
            notice: Some(StopNotice::ShuttingDown(2)),
            confirm: true,
        }
    );
}

#[test]
fn nothing_to_stop_is_said_unless_silent() {
    assert_eq!(
        stop_all_track(&vec![], None, false),
        StopPlan { pid_files: vec![], notice: Some(StopNotice::NothingToStop), confirm: false }
    );
    assert_eq!(
        stop_all_track(&vec![], None, true),
        StopPlan { pid_files: vec![], notice: None, confirm: false }
    );
}

#[test]
fn silent_stop_says_nothing() {
    let listed = vec!["widget.watch.pid".to_string()];
    assert_eq!(
        stop_all_track(&listed, None, true),
        StopPlan { pid_files: listed.clone(), notice: None, confirm: false }
    );
}

#[test]
fn stopping_kills_and_then_removes_the_pid_file() {
    assert_eq!(
        stop_commands("/p", "widget.watch.pid", "4242\n"),
        ("kill 4242".to_string(), "rm -rf /p/widget.watch.pid".to_string())
    );
}

#[test]
fn new_descriptor_starts_from_the_boilerplate() {
    assert_eq!(
        init_config("widget", "/etc/fast_flow/config", false),
        ConfigCreation::Create {
            path: "/etc/fast_flow/config/widget.config.json".to_string(),
            content: CONFIG_EXAMPLE.to_string(),
        }
    );
}

#[test]
fn existing_descriptor_is_not_overwritten() {
    assert_eq!(
        init_config("widget", "/etc/fast_flow/config", true),
        ConfigCreation::AlreadyExists {
            path: "/etc/fast_flow/config/widget.config.json".to_string()
        }
    );
}

#[test]
fn names_come_from_the_listing_unless_one_is_given() {
    let listed = vec![
        "widget.config.json".to_string(),
        "my.app.config.json".to_string(),
        "notes.txt".to_string(),
    ];
    assert_eq!(resolve_names(&listed, None), vec!["widget", "my.app", "notes"]);
    assert_eq!(resolve_names(&listed, Some("gadget")), vec!["gadget"]);
    assert_eq!(resolve_names(&vec![], None), Vec::<String>::new());
}
