use predicate_eval::eval::{decide, probe_for};
use predicate_eval::files::{FileInfo, FileKind, GlobEntry};
use predicate_eval::request::{Evidence, FileReq, Probe, Request, StrReq, UsageError};
use predicate_eval::resolver::parse;
use predicate_eval::{usage_exit_code, Outcome};

fn args(words: &[&str]) -> Vec<String> {
    words.iter().map(|w| w.to_string()).collect()
}

fn info(kind: FileKind, size: u64) -> FileInfo {
    FileInfo {
        kind,
        size,
        mode: 0o644,
        uid: 1000,
        gid: 1000,
        dev: 1,
        ino: 42,
        mtime_s: 1_700_000_000,
        mtime_ns: 0,
    }
}

#[test]
fn test_unknown_family_is_usage_error() {
    let r = parse(&args(&["foo", "bar"]));
    assert!(matches!(r, Err(UsageError::UnknownFamily { .. })));
    assert_eq!(usage_exit_code(), 2);
    assert_ne!(usage_exit_code(), Outcome::True.exit_code());
    assert_ne!(usage_exit_code(), Outcome::False.exit_code());
}

#[test]
fn test_unknown_verb_is_usage_error() {
    let r = parse(&args(&["file", "frobnicate", "/tmp"]));
    assert!(matches!(r, Err(UsageError::UnknownVerb { .. })));
    let r2 = parse(&args(&["string", "equalish", "a", "b"]));
    assert!(matches!(r2, Err(UsageError::UnknownVerb { .. })));
}

#[test]
fn test_missing_pieces_are_usage_errors() {
    assert!(matches!(parse(&args(&[])), Err(UsageError::MissingCommand)));
    assert!(matches!(parse(&args(&["env"])), Err(UsageError::MissingVerb { .. })));
    assert!(matches!(
        parse(&args(&["int", "eq", "5"])),
        Err(UsageError::WrongArity { .. })
    ));
    assert!(matches!(
        parse(&args(&["int", "eq", "5", "x"])),
        Err(UsageError::BadArgument { .. })
    ));
    assert!(matches!(
        parse(&args(&["net", "port-open", "h", "70000"])),
        Err(UsageError::BadArgument { .. })
    ));
    assert!(matches!(
        parse(&args(&["float", "eq", "1.0", "nope"])),
        Err(UsageError::BadArgument { .. })
    ));
    assert!(matches!(
        parse(&args(&["system", "fd-tty", "many"])),
        Err(UsageError::BadArgument { .. })
    ));
}

#[test]
fn test_port_open_flag_must_be_spelled_out() {
    assert!(matches!(
        parse(&args(&["net", "port-open", "h", "80", "--wait-ms", "250"])),
        Err(UsageError::WrongArity { .. })
    ));
    assert!(matches!(
        parse(&args(&["net", "port-open", "h", "80", "--timeout-ms"])),
        Err(UsageError::WrongArity { .. })
    ));
}

#[test]
fn test_int_predicates_decide() {
    let req = parse(&args(&["int", "gt", "5", "3"])).ok().unwrap();
    assert!(matches!(probe_for(&req), Probe::Nothing));
    assert_eq!(decide(&req, &Evidence::Nothing).0, Outcome::True);

    let req = parse(&args(&["int", "le", "-2", "-3"])).ok().unwrap();
    assert_eq!(decide(&req, &Evidence::Nothing).0, Outcome::False);

    let req = parse(&args(&["int", "in-range", "5", "1", "10"])).ok().unwrap();
    assert_eq!(decide(&req, &Evidence::Nothing).0, Outcome::True);

    let req = parse(&args(&["int", "in-range", "11", "1", "10"])).ok().unwrap();
    assert_eq!(decide(&req, &Evidence::Nothing).0, Outcome::False);
}

#[test]
fn test_string_predicates_decide() {
    let req = parse(&args(&["string", "equal", "a", "a"])).ok().unwrap();
    assert_eq!(decide(&req, &Evidence::Nothing).0, Outcome::True);

    let req = parse(&args(&["string", "equal-ci", "A", "a"])).ok().unwrap();
    assert_eq!(decide(&req, &Evidence::Nothing).0, Outcome::True);

    let req = parse(&args(&["string", "len-eq", "n\u{e9}e", "3"])).ok().unwrap();
    assert_eq!(decide(&req, &Evidence::Nothing).0, Outcome::True);

    let req = parse(&args(&["string", "uuid", "123e4567-e89b-12d3-a456-426614174000"]))
        .ok()
        .unwrap();
    assert_eq!(decide(&req, &Evidence::Nothing).0, Outcome::True);

    let req = parse(&args(&["string", "uuid", "not-a-uuid"])).ok().unwrap();
    assert_eq!(decide(&req, &Evidence::Nothing).0, Outcome::False);
}

#[test]
fn test_advise_quote_note() {
    let req = Request::Str(StrReq::AdviseQuote { value: "-v".to_string() });
    let (outcome, note) = decide(&req, &Evidence::Nothing);
    assert_eq!(outcome, Outcome::False);
    assert_eq!(
        note.unwrap(),
        "Value '-v' may need quoting. Consider using \"$VAR\" in your shell."
    );
    let req = Request::Str(StrReq::AdviseQuote { value: "safe".to_string() });
    let (outcome, note) = decide(&req, &Evidence::Nothing);
    assert_eq!(outcome, Outcome::True);
    assert!(note.is_none());
}

#[test]
fn test_missing_path_is_false_not_error() {
    let req = parse(&args(&["file", "directory", "/nonexistent/xyz"])).ok().unwrap();
    let ev = Evidence::Stat { info: None, euid: 0, egid: 0 };
    assert_eq!(decide(&req, &ev).0, Outcome::False);
    let req = parse(&args(&["file", "exists", "/nonexistent/xyz"])).ok().unwrap();
    assert_eq!(decide(&req, &ev).0, Outcome::False);
}

#[test]
fn test_file_predicates_decide() {
    let req = parse(&args(&["file", "directory", "/tmp"])).ok().unwrap();
    let ev = Evidence::Stat { info: Some(info(FileKind::Directory, 0)), euid: 0, egid: 0 };
    assert_eq!(decide(&req, &ev).0, Outcome::True);

    let req = parse(&args(&["file", "size-gt", "/f", "100"])).ok().unwrap();
    let ev = Evidence::Stat { info: Some(info(FileKind::Regular, 150)), euid: 0, egid: 0 };
    assert_eq!(decide(&req, &ev).0, Outcome::True);
    let ev = Evidence::Stat { info: Some(info(FileKind::Regular, 100)), euid: 0, egid: 0 };
    assert_eq!(decide(&req, &ev).0, Outcome::False);

    let req = parse(&args(&["file", "has-same-inode", "/a", "/b"])).ok().unwrap();
    let ev = Evidence::Stat2 {
        a: Some(info(FileKind::Regular, 1)),
        b: Some(info(FileKind::Regular, 2)),
    };
    assert_eq!(decide(&req, &ev).0, Outcome::True);
    let ev = Evidence::Stat2 { a: Some(info(FileKind::Regular, 1)), b: None };
    assert_eq!(decide(&req, &ev).0, Outcome::False);

    let req = parse(&args(&["file", "newer-than", "/a", "/b"])).ok().unwrap();
    let mut older = info(FileKind::Regular, 1);
    older.mtime_s -= 10;
    let ev = Evidence::Stat2 { a: Some(info(FileKind::Regular, 1)), b: Some(older) };
    assert_eq!(decide(&req, &ev).0, Outcome::True);

    let req = parse(&args(&["file", "mtime-older-than", "/a", "60"])).ok().unwrap();
    assert_eq!(decide(&req, &Evidence::Age { seconds: Some(61) }).0, Outcome::True);
    assert_eq!(decide(&req, &Evidence::Age { seconds: Some(60) }).0, Outcome::False);
    assert_eq!(decide(&req, &Evidence::Age { seconds: None }).0, Outcome::False);
}

#[test]
fn test_glob_outcomes() {
    let req = parse(&args(&["file", "exists-glob", "*.zzz"])).ok().unwrap();
    assert_eq!(decide(&req, &Evidence::Glob { matches: None }).0, Outcome::False);
    assert_eq!(decide(&req, &Evidence::Glob { matches: Some(vec![]) }).0, Outcome::False);
    let hit = GlobEntry { exists: true, size: None };
    let miss = GlobEntry { exists: false, size: None };
    assert_eq!(
        decide(&req, &Evidence::Glob { matches: Some(vec![miss, hit]) }).0,
        Outcome::True
    );

    let req = parse(&args(&["file", "non-empty-glob", "*.zzz"])).ok().unwrap();
    let empty = GlobEntry { exists: true, size: Some(0) };
    let full = GlobEntry { exists: true, size: Some(5) };
    assert_eq!(
        decide(&req, &Evidence::Glob { matches: Some(vec![empty]) }).0,
        Outcome::False
    );
    assert_eq!(
        decide(&req, &Evidence::Glob { matches: Some(vec![empty, full]) }).0,
        Outcome::True
    );
    assert_eq!(decide(&req, &Evidence::Glob { matches: None }).0, Outcome::False);
}

#[test]
fn test_env_set_treats_empty_as_unset() {
    let req = parse(&args(&["env", "set", "FOO"])).ok().unwrap();
    let ev = Evidence::EnvVal { value: Some("".to_string()) };
    assert_eq!(decide(&req, &ev).0, Outcome::False);
    let ev = Evidence::EnvVal { value: Some("x".to_string()) };
    assert_eq!(decide(&req, &ev).0, Outcome::True);
    let ev = Evidence::EnvVal { value: None };
    assert_eq!(decide(&req, &ev).0, Outcome::False);

    let req = parse(&args(&["env", "equal-to", "FOO", "bar"])).ok().unwrap();
    let ev = Evidence::EnvVal { value: Some("bar".to_string()) };
    assert_eq!(decide(&req, &ev).0, Outcome::True);
    let ev = Evidence::EnvVal { value: Some("baz".to_string()) };
    assert_eq!(decide(&req, &ev).0, Outcome::False);
}

#[test]
fn test_system_predicates_decide() {
    let req = parse(&args(&["system", "os", "LINUX"])).ok().unwrap();
    let ev = Evidence::Text { value: "linux".to_string() };
    assert_eq!(decide(&req, &ev).0, Outcome::True);

    let req = parse(&args(&["system", "arch", "riscv64"])).ok().unwrap();
    let ev = Evidence::Text { value: "x86_64".to_string() };
    assert_eq!(decide(&req, &ev).0, Outcome::False);

    let req = parse(&args(&["system", "fd-tty", "0"])).ok().unwrap();
    assert_eq!(decide(&req, &Evidence::Truth { value: false }).0, Outcome::False);
    assert_eq!(decide(&req, &Evidence::Truth { value: true }).0, Outcome::True);
}

#[test]
fn test_semver_requests_decide() {
    let req = parse(&args(&["semver", "gt", "1.2.3", "1.2.3-alpha"])).ok().unwrap();
    assert_eq!(decide(&req, &Evidence::Nothing).0, Outcome::True);
    let req = parse(&args(&["semver", "lt", "1.0.0", "1.0.1"])).ok().unwrap();
    assert_eq!(decide(&req, &Evidence::Nothing).0, Outcome::True);
    let req = parse(&args(&["semver", "eq", "junk", "1.0.0"])).ok().unwrap();
    assert_eq!(decide(&req, &Evidence::Nothing).0, Outcome::False);
}

#[test]
fn test_net_parse_and_probe() {
    let req = parse(&args(&["net", "online"])).ok().unwrap();
    match probe_for(&req) {
        Probe::Connect { host, port, timeout_ms } => {
            assert_eq!(host, "1.1.1.1");
            assert_eq!(port, 53);
            assert_eq!(timeout_ms, 800);
        },
        _ => panic!("online must probe a connection"),
    }
    let req = parse(&args(&["net", "port-open", "example.com", "443"])).ok().unwrap();
    match probe_for(&req) {
        Probe::Connect { host, port, timeout_ms } => {
            assert_eq!(host, "example.com");
            assert_eq!(port, 443);
            assert_eq!(timeout_ms, 1000);
        },
        _ => panic!("port-open must probe a connection"),
    }
    let req = parse(&args(&["net", "port-open", "h", "80", "--timeout-ms", "250"]))
        .ok()
        .unwrap();
    match probe_for(&req) {
        Probe::Connect { timeout_ms, .. } => assert_eq!(timeout_ms, 250),
        _ => panic!("port-open must probe a connection"),
    }
    assert_eq!(decide(&req, &Evidence::Truth { value: true }).0, Outcome::True);
    assert_eq!(decide(&req, &Evidence::Truth { value: false }).0, Outcome::False);
}

#[test]
fn test_probe_expands_tilde_free_paths() {
    let req = Request::File(FileReq::Exists { path: "/tmp/x".to_string() });
    match probe_for(&req) {
        Probe::Stat { path } => assert_eq!(path, "/tmp/x"),
        _ => panic!("exists must stat"),
    }
}

#[test]
fn test_repeat_decide_is_identical() {
    let req = parse(&args(&["string", "contains", "hello world", "lo w"])).ok().unwrap();
    let first = decide(&req, &Evidence::Nothing).0;
    let second = decide(&req, &Evidence::Nothing).0;
    assert_eq!(first, second);
    assert_eq!(first, Outcome::True);
}

#[test]
fn test_float_requests_carry_truth_from_outside() {
    let req = parse(&args(&["float", "approx-eq", "0.1", "0.3", "1e-9"])).ok().unwrap();
    assert!(matches!(probe_for(&req), Probe::FloatEval));
    assert_eq!(decide(&req, &Evidence::Truth { value: true }).0, Outcome::True);
    assert_eq!(decide(&req, &Evidence::Truth { value: false }).0, Outcome::False);
    assert!(matches!(
        parse(&args(&["float", "eq", "0.1", "0.2", "0.3"])),
        Err(UsageError::WrongArity { .. })
    ));
}
