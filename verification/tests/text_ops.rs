use gennaker::command::LaunchCommand;
use gennaker::python_env::{path_with_python_env, path_with_python_env_windows, PythonEnvCommand};
use gennaker::text::{contains_substr, ends_with, i32_to_string, parse_u64, str_eq, u64_to_string};

#[test]
fn decimal_rendering() {
    assert_eq!(u64_to_string(0), "0");
    assert_eq!(u64_to_string(7), "7");
    assert_eq!(u64_to_string(54321), "54321");
    assert_eq!(u64_to_string(u64::MAX), "18446744073709551615");
}

#[test]
fn signed_decimal_rendering() {
    assert_eq!(i32_to_string(0), "0");
    assert_eq!(i32_to_string(137), "137");
    assert_eq!(i32_to_string(-1), "-1");
    assert_eq!(i32_to_string(i32::MIN), "-2147483648");
    assert_eq!(i32_to_string(i32::MAX), "2147483647");
}

#[test]
fn decimal_parsing() {
    assert_eq!(parse_u64("0"), Some(0));
    assert_eq!(parse_u64("054321"), Some(54321));
    assert_eq!(parse_u64("1234567890123456789"), Some(1234567890123456789));
    assert_eq!(parse_u64(""), None);
    assert_eq!(parse_u64("12a"), None);
    assert_eq!(parse_u64("12345678901234567890"), None);
}

#[test]
fn substring_search() {
    assert!(contains_substr("abcdef", "cde"));
    assert!(contains_substr("abcdef", ""));
    assert!(contains_substr("abcdef", "abcdef"));
    assert!(!contains_substr("abcdef", "cdf"));
    assert!(!contains_substr("ab", "abc"));
    assert!(contains_substr("aaab", "aab"));
}

#[test]
fn suffix_search() {
    assert!(ends_with("target/debug", "/debug"));
    assert!(ends_with("x", ""));
    assert!(!ends_with("debug", "target/debug"));
    assert!(!ends_with("target/debugx", "/debug"));
}

#[test]
fn string_equality() {
    assert!(str_eq("init", "init"));
    assert!(!str_eq("init", "main"));
    assert!(!str_eq("init", "init "));
}

#[test]
fn python_env_prepends_in_order() {
    let existing = vec![String::from("/usr/bin")];
    assert_eq!(
        path_with_python_env(existing, "/env"),
        vec![
            String::from("/env"),
            String::from("/env/bin"),
            String::from("/usr/bin"),
        ]
    );
}

#[test]
fn add_env_to_path_prepends_to_command() {
    let mut c = LaunchCommand {
        program: String::from("python"),
        args: Vec::new(),
        cwd: None,
        env: Vec::new(),
        path_entries: vec![String::from("/usr/bin")],
    };
    c.add_env_to_path("/env");
    assert_eq!(
        c.path_entries,
        vec![
            String::from("/env"),
            String::from("/env/bin"),
            String::from("/usr/bin"),
        ]
    );
    assert_eq!(c.program, "python");
}

#[test]
fn python_env_windows_layout() {
    let existing = vec![String::from("C:/old")];
    assert_eq!(
        path_with_python_env_windows(existing, "C:/env"),
        vec![
            String::from("C:/env"),
            String::from("C:/env/Library\\mingw-w64\\bin"),
            String::from("C:/env/Library\\usr\\bin"),
            String::from("C:/env/Library\\bin"),
            String::from("C:/env/Scripts"),
            String::from("C:/env/bin"),
            String::from("C:/old"),
        ]
    );
}
