//! PathSet resolution: literal paths, best-effort filtering of expansion
//! entries, and glob expansion against the filesystem.

use maker::ResultHelper;
use maker::Target;
use maker::glob;
use maker::resolve::collect_resolved;

#[test]
fn literal_path_resolves_to_exactly_itself() {
    let v = Target::into_iter("src/lib.rs");
    assert_eq!(v, vec!["src/lib.rs".to_string()]);
}

#[test]
fn literal_path_need_not_exist() {
    let v = Target::into_iter("no/such/file.bin");
    assert_eq!(v, vec!["no/such/file.bin".to_string()]);
}

#[test]
fn unreadable_entries_are_dropped_in_order() {
    let entries = vec![
        Some("a".to_string()),
        None,
        Some("b".to_string()),
        None,
        None,
        Some("c".to_string()),
    ];
    assert_eq!(
        collect_resolved(entries),
        vec!["a".to_string(), "b".to_string(), "c".to_string()]
    );
}

#[test]
fn all_entries_unreadable_yields_empty() {
    let entries: Vec<Option<String>> = vec![None, None];
    assert_eq!(collect_resolved(entries), Vec::<String>::new());
}

#[test]
fn glob_with_no_matches_is_an_empty_set() {
    let set = glob("no_such_directory_here/*.nothing").expect("pattern is well-formed");
    assert!(set.paths().is_empty());
    assert_eq!(Target::into_iter(set), Vec::<String>::new());
}

#[test]
fn glob_finds_entries_under_the_root() {
    let set = glob("/*").expect("pattern is well-formed");
    let paths = set.paths();
    assert!(!paths.is_empty());
    for p in paths {
        assert!(p.starts_with('/'));
        assert_ne!(p, "/*");
    }
}

#[test]
fn ill_formed_pattern_is_rejected_up_front() {
    let r = glob("a/***");
    assert!(r.is_err());
    let e = r.err().unwrap();
    assert!(!e.msg.is_empty());
}

#[test]
fn ignore_keeps_success_and_error() {
    let ok: Result<u32, &str> = Ok(5);
    assert_eq!(ok.ignore(), Ok(()));
    let err: Result<u32, &str> = Err("boom");
    assert_eq!(err.ignore(), Err("boom"));
}
