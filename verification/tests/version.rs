use vollibrespot::version::{
    commit_date, now, pipe_version, semver, sha, short_now, short_sha, target, version, version_text,
    BuildInfo,
};

fn build() -> BuildInfo {
    BuildInfo {
        timestamp: "2020-05-01T10:20:30Z".to_string(),
        date: "2020-05-01".to_string(),
        sha: "0123456789abcdef0123456789abcdef01234567".to_string(),
        short_sha: "0123456".to_string(),
        commit_date: "2020-04-30".to_string(),
        target: "armv7-unknown-linux-gnueabihf".to_string(),
        semver: "0.2.0".to_string(),
    }
}

#[test]
fn the_facts_of_a_build() {
    let b = build();
    assert_eq!(now(&b), "2020-05-01T10:20:30Z");
    assert_eq!(short_now(&b), "2020-05-01");
    assert_eq!(sha(&b), "0123456789abcdef0123456789abcdef01234567");
    assert_eq!(short_sha(&b), "0123456");
    assert_eq!(commit_date(&b), "2020-04-30");
    assert_eq!(target(&b), "armv7-unknown-linux-gnueabihf");
    assert_eq!(semver(&b), "0.2.0");
}

#[test]
fn the_version_line() {
    assert_eq!(
        version_text(&build(), "abcdef0", "2021-05-26"),
        "vollibrespot v0.2.0 0123456 2020-04-30 (librespot abcdef0 2021-05-26) -- Built On 2020-05-01"
    );
}

#[test]
fn the_version_line_names_the_protocol_library() {
    let line = version(&build());
    assert!(line.starts_with("vollibrespot v0.2.0 0123456 2020-04-30 (librespot "));
    assert!(line.ends_with(") -- Built On 2020-05-01"));
}

#[test]
fn the_name_of_the_pipe() {
    assert_eq!(pipe_version(&build()), "vollibrespot v0.2.0");
}
