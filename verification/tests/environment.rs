use gennaker::endpoint::allocate;
use gennaker::version::{is_environment_valid, parse_semver, semver_in_output, version_gt, SemVer};

fn v(major: u64, minor: u64, patch: u64) -> SemVer {
    SemVer {
        major,
        minor,
        patch,
    }
}

#[test]
fn parses_plain_semver() {
    assert_eq!(parse_semver("3.11.4"), Some(v(3, 11, 4)));
    assert_eq!(parse_semver("0.0.0"), Some(v(0, 0, 0)));
    assert_eq!(parse_semver("10.0.1"), Some(v(10, 0, 1)));
    assert_eq!(parse_semver("03.1.4"), Some(v(3, 1, 4)));
}

#[test]
fn rejects_malformed_versions() {
    assert_eq!(parse_semver(""), None);
    assert_eq!(parse_semver("3.11"), None);
    assert_eq!(parse_semver("3.11."), None);
    assert_eq!(parse_semver(".11.4"), None);
    assert_eq!(parse_semver("3..4"), None);
    assert_eq!(parse_semver("3.1.4.1"), None);
    assert_eq!(parse_semver("a.b.c"), None);
    assert_eq!(parse_semver("3.11.4rc1"), None);
    assert_eq!(parse_semver("3.1 1.4"), None);
}

#[test]
fn rejects_component_over_a_machine_word() {
    assert_eq!(parse_semver("3.11.12345678901234567890"), None);
    assert_eq!(parse_semver("3.11.1234567890123456789"), Some(v(3, 11, 1234567890123456789)));
}

#[test]
fn finds_version_token_in_output() {
    assert_eq!(semver_in_output("Python 3.11.4"), Some(v(3, 11, 4)));
    assert_eq!(semver_in_output("3.11.4"), Some(v(3, 11, 4)));
    assert_eq!(semver_in_output("Python 3.11.4 (main)"), Some(v(3, 11, 4)));
    assert_eq!(semver_in_output("no version here"), None);
    assert_eq!(semver_in_output(""), None);
    assert_eq!(semver_in_output("   "), None);
}

#[test]
fn first_version_token_wins() {
    assert_eq!(semver_in_output("1.2.3 9.9.9"), Some(v(1, 2, 3)));
    assert_eq!(semver_in_output("rc 0.0.1 then 2.0.0"), Some(v(0, 0, 1)));
}

#[test]
fn version_comparison_is_strict_lexicographic() {
    assert!(version_gt(&v(4, 0, 0), &v(3, 99, 99)));
    assert!(version_gt(&v(3, 12, 0), &v(3, 11, 9)));
    assert!(version_gt(&v(3, 11, 5), &v(3, 11, 4)));
    assert!(!version_gt(&v(3, 11, 4), &v(3, 11, 4)));
    assert!(!version_gt(&v(3, 10, 9), &v(3, 11, 0)));
    assert!(!version_gt(&v(2, 99, 99), &v(3, 0, 0)));
}

#[test]
fn environment_validity() {
    let min = v(3, 8, 0);
    assert!(is_environment_valid(Some("Python 3.11.4"), &min));
    assert!(!is_environment_valid(Some("Python 3.8.0"), &min));
    assert!(!is_environment_valid(Some("Python 2.7.18"), &min));
    assert!(!is_environment_valid(Some("command not found"), &min));
    assert!(!is_environment_valid(None, &min));
}

#[test]
fn allocate_produces_decimal_token() {
    let endpoint = allocate().expect("a loopback port should be free");
    assert!(!endpoint.token.is_empty());
    assert!(endpoint.token.len() <= 20);
    assert!(endpoint.token.chars().all(|c| c.is_ascii_digit()));
}

#[test]
fn allocate_gives_distinct_tokens() {
    let a = allocate().unwrap();
    let b = allocate().unwrap();
    // one collision in 2^64 is possible but would fail this run only
    assert_ne!((a.port, a.token.clone()), (b.port, b.token.clone()));
}
