use fast_flow::commands::{
    build_step, clean_workspace, clone_repo, copy_step, kill, remove_clone, remove_destination,
    remove_file, version_query,
};
use fast_flow::remote::{extract_repo_info, read_version_token};

#[test]
fn resolves_https_locator() {
    assert_eq!(
        extract_repo_info("https://github.com/MyUser/myapp.git"),
        Some(("MyUser", "myapp"))
    );
}

#[test]
fn resolves_ssh_locator_by_its_slashes() {
    assert_eq!(
        extract_repo_info("git@host:acme/widget.git"),
        Some(("git@host:acme", "widget"))
    );
}

#[test]
fn resolves_bare_owner_and_repo() {
    assert_eq!(extract_repo_info("acme/widget.git"), Some(("acme", "widget")));
}

#[test]
fn locator_without_slash_is_malformed() {
    assert_eq!(extract_repo_info("not-a-url"), None);
    assert_eq!(extract_repo_info("widget.git"), None);
}

#[test]
fn empty_locator_is_malformed() {
    assert_eq!(extract_repo_info(""), None);
    assert_eq!(extract_repo_info("/"), None);
    assert_eq!(extract_repo_info("///"), None);
}

#[test]
fn single_segment_is_malformed() {
    assert_eq!(extract_repo_info("/etc"), None);
    assert_eq!(extract_repo_info("/widget.git/"), None);
}

#[test]
fn locator_without_git_suffix_is_malformed() {
    assert_eq!(extract_repo_info("https://github.com/acme/widget"), None);
    assert_eq!(extract_repo_info("https://github.com/acme/widget.gi"), None);
    assert_eq!(extract_repo_info("https://github.com/acme/git"), None);
}

#[test]
fn trailing_slashes_are_no_segment() {
    assert_eq!(
        extract_repo_info("https://github.com/acme/widget.git/"),
        Some(("acme", "widget"))
    );
    assert_eq!(
        extract_repo_info("https://github.com/acme/widget.git///"),
        Some(("acme", "widget"))
    );
}

#[test]
fn empty_segments_are_skipped() {
    assert_eq!(
        extract_repo_info("https://github.com//widget.git"),
        Some(("github.com", "widget"))
    );
    assert_eq!(extract_repo_info("acme///widget.git"), Some(("acme", "widget")));
}

#[test]
fn only_the_last_git_suffix_is_cut() {
    assert_eq!(extract_repo_info("acme/widget.git.git"), Some(("acme", "widget.git")));
    assert_eq!(extract_repo_info("acme/.git"), Some(("acme", "")));
}

#[test]
fn locator_with_wide_characters() {
    assert_eq!(
        extract_repo_info("https://h\u{f4}te/caf\u{e9}/d\u{e9}p\u{f4}t.git"),
        Some(("caf\u{e9}", "d\u{e9}p\u{f4}t"))
    );
}

#[test]
fn token_is_what_stands_before_the_ref_path() {
    assert_eq!(read_version_token("abc123\trefs/heads/main\n"), "abc123");
    assert_eq!(read_version_token("abc123 refs/heads/main"), "abc123");
}

#[test]
fn token_of_several_lines_is_the_first() {
    assert_eq!(
        read_version_token("abc123\trefs/heads/main\ndef456\trefs/remotes/origin/main\n"),
        "abc123"
    );
}

#[test]
fn token_without_ref_path_is_the_trimmed_output() {
    assert_eq!(read_version_token("  def456 \n"), "def456");
}

#[test]
fn token_of_empty_output_is_empty() {
    assert_eq!(read_version_token(""), "");
    assert_eq!(read_version_token(" \n\t"), "");
    assert_eq!(read_version_token("refs/heads/main"), "");
}

#[test]
fn version_query_quotes_the_branch() {
    assert_eq!(
        version_query("acme", "widget", "main"),
        "git ls-remote git@github.com:acme/widget.git \"main\""
    );
}

#[test]
fn version_query_escapes_inside_the_branch() {
    assert_eq!(
        version_query("acme", "widget", "a\"b"),
        "git ls-remote git@github.com:acme/widget.git \"a\\\"b\""
    );
}

#[test]
fn command_lines_are_exact() {
    assert_eq!(clean_workspace("/w", "widget"), "rm -rf /w/widget");
    assert_eq!(
        clone_repo("/w", "acme", "widget"),
        "cd /w && git clone git@github.com:acme/widget.git"
    );
    assert_eq!(build_step("/w", "widget", "make all"), "cd /w/widget && make all");
    assert_eq!(
        copy_step("/w", "widget", "dist", "/srv/widget"),
        "cd /w/widget && cp -r dist /srv/widget"
    );
    assert_eq!(remove_clone("/w", "widget"), "cd /w && rm -rf widget");
    assert_eq!(remove_destination("/srv/widget"), "rm -rf /srv/widget");
    assert_eq!(kill("4242"), "kill 4242");
    assert_eq!(remove_file("/p", "widget.watch.pid"), "rm -rf /p/widget.watch.pid");
}

/// Every string over `alphabet` of at most `max` characters.
fn words(alphabet: &[char], max: usize) -> Vec<String> {
    let mut all = vec![String::new()];
    let mut last = vec![String::new()];
    for _ in 0..max {
        let mut grown = Vec::new();
        for w in &last {
            for c in alphabet {
                let mut g = w.clone();
                g.push(*c);
                grown.push(g);
            }
        }
        all.extend(grown.iter().cloned());
        last = grown;
    }
    all
}

#[test]
fn locators_resolve_as_their_nonempty_segments_say() {
    for url in words(&['a', '/', '.', 'g', 'i', 't'], 6) {
        let segments: Vec<&str> = url.split('/').filter(|s| !s.is_empty()).collect();
        let expected = if segments.len() < 2 {
            None
        } else {
            segments[segments.len() - 1]
                .strip_suffix(".git")
                .map(|name| (segments[segments.len() - 2], name))
        };
        assert_eq!(extract_repo_info(&url), expected, "{:?}", url);
    }
}

#[test]
fn long_locators_resolve() {
    for url in ["a/b.git", "x/a/b.git", "/a/b.git/", "//a//b.git//", "a/b.git/c", "a/b.gitx"] {
        for lead in ["", "https://github.com/", "git@github.com:"] {
            let whole = format!("{}{}", lead, url);
            let segments: Vec<&str> = whole.split('/').filter(|s| !s.is_empty()).collect();
            let expected = if segments.len() < 2 {
                None
            } else {
                segments[segments.len() - 1]
                    .strip_suffix(".git")
                    .map(|name| (segments[segments.len() - 2], name))
            };
            assert_eq!(extract_repo_info(&whole), expected, "{:?}", whole);
        }
    }
}

#[test]
fn tokens_are_cut_as_trim_and_split_say() {
    for output in words(&[' ', '\n', 'r', 'e', 'f', 's', 'a'], 6) {
        let expected = output.trim().split("refs").next().unwrap().trim();
        assert_eq!(read_version_token(&output), expected, "{:?}", output);
    }
}
