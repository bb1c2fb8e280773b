use fast_flow::supervisor::{
    launch, log_line, proceed, LaunchPlan, Order, Phase, Supervisor, POLL_SECONDS,
};

fn plan() -> LaunchPlan {
    LaunchPlan {
        name: "widget".to_string(),
        work_dir: "/etc/fast_flow/tmp".to_string(),
        config_file: "/etc/fast_flow/config/widget.config.json".to_string(),
        pid_file: "/etc/fast_flow/process/widget.watch.pid".to_string(),
        log_file: "/etc/fast_flow/logs/widget.watch.log".to_string(),
    }
}

fn detach() -> Order {
    Order::Detach {
        pid_file: "/etc/fast_flow/process/widget.watch.pid".to_string(),
        log_file: "/etc/fast_flow/logs/widget.watch.log".to_string(),
    }
}

fn cycle() -> Order {
    Order::RunCycle {
        work_dir: "/etc/fast_flow/tmp".to_string(),
        config_file: "/etc/fast_flow/config/widget.config.json".to_string(),
    }
}

fn follow(replies: Vec<Result<String, String>>) -> (Supervisor, Vec<Order>) {
    let (mut supervisor, first) = launch(plan());
    let mut orders = vec![first];
    for reply in replies {
        let (next, order) = proceed(supervisor, reply);
        supervisor = next;
        orders.push(order);
    }
    (supervisor, orders)
}

#[test]
fn poll_interval_is_five_seconds() {
    assert_eq!(POLL_SECONDS, 5);
}

#[test]
fn daemon_starts_by_reading_its_pid_file() {
    let (supervisor, orders) = follow(vec![]);
    assert_eq!(
        orders,
        vec![Order::ReadPidFile("/etc/fast_flow/process/widget.watch.pid".to_string())]
    );
    assert_eq!(supervisor.phase, Phase::ReadingPidFile);
    assert_eq!(supervisor.plan, plan());
}

#[test]
fn earlier_daemon_is_terminated_before_detaching() {
    let (supervisor, orders) = follow(vec![Ok(" 4242\n".to_string()), Err("No such process".to_string())]);
    assert_eq!(orders[1], Order::Run("kill 4242".to_string()));
    assert_eq!(orders[2], detach());
    assert_eq!(supervisor.phase, Phase::Detaching);
}

#[test]
fn first_daemon_detaches_at_once() {
    let (supervisor, orders) = follow(vec![Err("No such file or directory".to_string())]);
    assert_eq!(orders[1], detach());
    assert_eq!(orders.len(), 2);
    assert_eq!(supervisor.phase, Phase::Detaching);
}

#[test]
fn detached_daemon_alternates_cycle_and_sleep() {
    let (supervisor, orders) = follow(vec![
        Err("absent".to_string()),
        Ok(String::new()),
        Err("cycle failed".to_string()),
        Ok(String::new()),
        Ok(String::new()),
        Err("interrupted".to_string()),
        Err("cycle failed".to_string()),
    ]);
    assert_eq!(
        orders[2..],
        [
            cycle(),
            Order::Sleep(5),
            cycle(),
            Order::Sleep(5),
            cycle(),
            Order::Sleep(5),
        ]
    );
    assert_eq!(supervisor.phase, Phase::Sleeping);
}

#[test]
fn daemon_that_cannot_detach_gives_up() {
    let (supervisor, orders) =
        follow(vec![Ok("17".to_string()), Ok(String::new()), Err("unable to fork".to_string())]);
    assert_eq!(orders[3], Order::GiveUp("unable to fork".to_string()));
    assert_eq!(supervisor.phase, Phase::Failed("unable to fork".to_string()));
    let (supervisor, order) = proceed(supervisor, Ok(String::new()));
    assert_eq!(order, Order::GiveUp("unable to fork".to_string()));
    assert_eq!(supervisor.phase, Phase::Failed("unable to fork".to_string()));
}

#[test]
fn log_line_has_time_level_and_message() {
    assert_eq!(
        log_line("2026-01-02 03:04:05", "INFO", "Reading config"),
        "[2026-01-02 03:04:05][INFO] Reading config"
    );
    assert_eq!(log_line("", "", ""), "[][] ");
}
