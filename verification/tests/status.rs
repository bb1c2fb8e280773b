use fast_flow::config::{ConfigFile, FromTo};
use fast_flow::status::{
    marks_watched, parse_pid, show_status, status_line, StatusLine, StatusProbe, SysInfo,
    WatchStats,
};

fn config(repo: &str, branch: Option<&str>) -> ConfigFile {
    ConfigFile {
        repo: repo.to_string(),
        build: vec!["make".to_string()],
        mouve: vec![FromTo { from: "dist".to_string(), to: "/srv/widget".to_string() }],
        branch: branch.map(|b| b.to_string()),
        version: None,
        entry_point: None,
    }
}

fn sample() -> SysInfo {
    SysInfo {
        name: "\"flow\"".to_string(),
        cpu_usage: "1.5%".to_string(),
        memory: "12.34mb".to_string(),
        status: "Sleep".to_string(),
    }
}

fn unwatched(name: &str, repo: &str, branch: &str) -> WatchStats {
    WatchStats {
        pid: "N/A".to_string(),
        name: name.to_string(),
        repo: repo.to_string(),
        branch: branch.to_string(),
        cpu: "N/A".to_string(),
        memory: "N/A".to_string(),
        status: "unwatched".to_string(),
    }
}

#[test]
fn no_pid_file_means_unwatched() {
    let probe = StatusProbe {
        file_name: "widget.config.json".to_string(),
        config: Ok(config("https://github.com/acme/widget.git", None)),
        pid: None,
        sample: None,
    };
    assert_eq!(
        status_line(&probe),
        StatusLine::Row(unwatched("widget", "acme/widget.git", "main"))
    );
}

#[test]
fn unwatched_row_ignores_a_stray_sample() {
    let probe = StatusProbe {
        file_name: "widget.config.json".to_string(),
        config: Ok(config("https://github.com/acme/widget.git", Some("dev"))),
        pid: None,
        sample: Some(sample()),
    };
    assert_eq!(
        status_line(&probe),
        StatusLine::Row(unwatched("widget", "acme/widget.git", "dev"))
    );
}

#[test]
fn live_daemon_is_watched_with_its_statistics() {
    let probe = StatusProbe {
        file_name: "widget.config.json".to_string(),
        config: Ok(config("git@host:acme/widget.git", Some("dev"))),
        pid: Some("4242\n".to_string()),
        sample: Some(sample()),
    };
    assert_eq!(
        status_line(&probe),
        StatusLine::Row(WatchStats {
            pid: "4242".to_string(),
            name: "widget".to_string(),
            repo: "git@host:acme/widget.git".to_string(),
            branch: "dev".to_string(),
            cpu: "1.5%".to_string(),
            memory: "12.34mb".to_string(),
            status: "watched".to_string(),
        })
    );
}

#[test]
fn pid_file_without_process_is_stale() {
    let probe = StatusProbe {
        file_name: "widget.config.json".to_string(),
        config: Ok(config("https://github.com/acme/widget.git", None)),
        pid: Some(" 4242 ".to_string()),
        sample: None,
    };
    assert_eq!(
        status_line(&probe),
        StatusLine::Stale { name: "widget".to_string(), pid: "4242".to_string() }
    );
}

#[test]
fn unreadable_descriptor_gives_no_row() {
    let probe = StatusProbe {
        file_name: "broken.config.json".to_string(),
        config: Err("expected value at line 1 column 1".to_string()),
        pid: Some("1".to_string()),
        sample: Some(sample()),
    };
    assert_eq!(
        status_line(&probe),
        StatusLine::Unreadable {
            file_name: "broken.config.json".to_string(),
            message: "expected value at line 1 column 1".to_string(),
        }
    );
}

#[test]
fn unresolved_locator_gives_no_row() {
    let probe = StatusProbe {
        file_name: "widget.config.json".to_string(),
        config: Ok(config("not-a-url", None)),
        pid: None,
        sample: None,
    };
    assert_eq!(
        status_line(&probe),
        StatusLine::Unresolved { file_name: "widget.config.json".to_string() }
    );
}

#[test]
fn listing_keeps_the_order_and_goes_on_after_an_error() {
    let probes = vec![
        StatusProbe {
            file_name: "broken.config.json".to_string(),
            config: Err("eof".to_string()),
            pid: None,
            sample: None,
        },
        StatusProbe {
            file_name: "bad.config.json".to_string(),
            config: Ok(config("nowhere", None)),
            pid: None,
            sample: None,
        },
        StatusProbe {
            file_name: "widget.config.json".to_string(),
            config: Ok(config("acme/widget.git", None)),
            pid: None,
            sample: None,
        },
    ];
    let lines = show_status(&probes);
    assert_eq!(lines.len(), 3);
    assert_eq!(
        lines[0],
        StatusLine::Unreadable {
            file_name: "broken.config.json".to_string(),
            message: "eof".to_string()
        }
    );
    assert_eq!(lines[1], StatusLine::Unresolved { file_name: "bad.config.json".to_string() });
    assert_eq!(lines[2], StatusLine::Row(unwatched("widget", "acme/widget.git", "main")));
    assert_eq!(show_status(&vec![]), vec![]);
}

#[test]
fn pid_is_read_as_std_reads_it() {
    for text in [
        "0", "7", "4242", "+17", "007", "", "+", "-1", " 1", "1 ", "12a", "a12", "++1", "1+",
        "18446744073709551615", "18446744073709551616", "99999999999999999999999",
        "4294967295", "4294967296", "\u{661}\u{662}",
    ] {
        assert_eq!(parse_pid(text), text.parse::<usize>().ok(), "{:?}", text);
    }
}

#[test]
fn pid_values_are_exact() {
    assert_eq!(parse_pid("4242"), Some(4242));
    assert_eq!(parse_pid("+0"), Some(0));
    assert_eq!(parse_pid("x"), None);
}

#[test]
fn only_the_watched_status_is_marked() {
    assert!(marks_watched("watched"));
    assert!(!marks_watched("unwatched"));
    assert!(!marks_watched("Watched"));
    assert!(!marks_watched(""));
}
