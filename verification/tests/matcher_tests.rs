use btmeister::defs::BuildToolDef;
use btmeister::matcher::{
    build_matcher, Matcher, MultipleMatcher, PartialMatcher, PathGlobMatcher,
};

#[test]
fn lib_test_matches1() {
    let def = BuildToolDef::new(
        "test".to_string(),
        vec!["*.rs".to_string()],
        "http://example.com".to_string(),
    );
    let matcher = build_matcher(def);
    assert!(matcher.is_ok());
    if let Ok(d) = matcher {
        assert_eq!(true, d.matches("testdata/file1.rs"));
        assert_eq!(true, d.matches("file2.rs"));
    }
}

#[test]
fn lib_test_matches2() {
    let def = BuildToolDef::new(
        "test2".to_string(),
        vec!["some/dir/*.yaml".to_string()],
        "http://example.com".to_string(),
    );
    let matcher = build_matcher(def);
    assert!(matcher.is_ok());
    if let Ok(d) = matcher {
        assert_eq!(false, d.matches("hoge.yaml"));
        assert_eq!(true, d.matches("some/dir/file2.yaml"));
        assert_eq!(false, d.matches("not/some/dir/file3.yaml"));
    }
}

#[test]
fn lib_test_matches3() {
    let def = BuildToolDef::new(
        "test2".to_string(),
        vec!["Somefile".to_string()],
        "http://example.com".to_string(),
    );
    let matcher = build_matcher(def);
    assert!(matcher.is_ok());
    if let Ok(d) = matcher {
        assert_eq!(true, d.matches("Somefile"));
        assert_eq!(true, d.matches("some/dir/Somefile"));
    }
}

#[test]
fn btmeister_test_matches1() {
    let def = BuildToolDef::new(
        "test".to_string(),
        vec!["*.rs".to_string()],
        "http://example.com".to_string(),
    );
    let matcher = build_matcher(def);
    assert!(matcher.is_ok());
    if let Ok(d) = matcher {
        assert_eq!(true, d.matches("testdata/file1.rs"));
        assert_eq!(true, d.matches("file2.rs"));
    }
}

#[test]
fn btmeister_test_matches2() {
    let def = BuildToolDef::new(
        "test2".to_string(),
        vec!["some/dir/*.yaml".to_string()],
        "http://example.com".to_string(),
    );
    let matcher = build_matcher(def);
    assert!(matcher.is_ok());
    if let Ok(d) = matcher {
        assert_eq!(false, d.matches("hoge.yaml"));
        assert_eq!(true, d.matches("some/dir/file2.yaml"));
        assert_eq!(false, d.matches("not/some/dir/file3.yaml"));
    }
}

#[test]
fn btmeister_test_matches3() {
    let def = BuildToolDef::new(
        "test2".to_string(),
        vec!["Somefile".to_string()],
        "http://example.com".to_string(),
    );
    let matcher = build_matcher(def);
    assert!(matcher.is_ok());
    if let Ok(d) = matcher {
        assert_eq!(true, d.matches("Somefile"));
        assert_eq!(true, d.matches("some/dir/Somefile"));
    }
}

#[test]
fn test_matches1() {
    let def = BuildToolDef::new(
        "test".to_string(),
        vec!["*.rs".to_string()],
        "http://example.com".to_string(),
    );
    let matcher = build_matcher(def);
    assert!(matcher.is_ok());
    if let Ok(d) = matcher {
        assert_eq!(true, d.matches("testdata/file1.rs"));
        assert_eq!(true, d.matches("file2.rs"));
    }
}

#[test]
fn test_matches2() {
    let def = BuildToolDef::new(
        "test2".to_string(),
        vec!["some/dir/*.yaml".to_string()],
        "http://example.com".to_string(),
    );
    let matcher = build_matcher(def);
    assert!(matcher.is_ok());
    if let Ok(d) = matcher {
        assert_eq!(false, d.matches("hoge.yaml"));
        assert_eq!(true, d.matches("some/dir/file2.yaml"));
        assert_eq!(false, d.matches("not/some/dir/file3.yaml"));
    }
}

#[test]
fn test_matches3() {
    let def = BuildToolDef::new(
        "test2".to_string(),
        vec!["Somefile".to_string()],
        "http://example.com".to_string(),
    );
    let matcher = build_matcher(def);
    assert!(matcher.is_ok());
    if let Ok(d) = matcher {
        assert_eq!(true, d.matches("Somefile"));
        assert_eq!(true, d.matches("some/dir/Somefile"));
    }
}

#[test]
fn test_path() {
    let path = std::path::PathBuf::from(".github/workflows/*.yml");
    let items = path.iter().collect::<Vec<_>>();
    assert_eq!(3, items.len());
    assert_eq!(".github", items[0]);
    assert_eq!("workflows", items[1]);
    assert_eq!("*.yml", items[2]);
}

#[test]
fn test_partial_matcher() {
    let matcher = PartialMatcher {
        pattern: "testdata".to_string(),
    };
    assert!(matcher.matches("testdata/hello.txt"));
    assert!(matcher.matches("target/testdata/hello.txt"));
    assert!(matcher.matches("./testdata"));
    assert!(matcher.matches("testdata"));
}

#[test]
fn test_multiple_partial_matcher() {
    let matcher = MultipleMatcher {
        matchers: vec![Matcher::Partial(PartialMatcher {
            pattern: "testdata".to_string(),
        })],
    };
    assert!(matcher.matches("testdata/hello.txt"));
    assert!(matcher.matches("target/testdata/hello.txt"));
    assert!(matcher.matches("./testdata"));
    assert!(matcher.matches("testdata"));
}

#[test]
fn test_exact_name_never_matches_deeper_suffix() {
    let def = BuildToolDef::new(
        "test".to_string(),
        vec!["Somefile".to_string()],
        "http://example.com".to_string(),
    );
    let matcher = build_matcher(def).unwrap();
    assert!(!matcher.matches("NotSomefile"));
    assert!(!matcher.matches("Somefile/other"));
    assert!(!matcher.matches("somefile"));
}

#[test]
fn test_exact_name_ignores_trailing_slash() {
    let def = BuildToolDef::new(
        "test".to_string(),
        vec!["dir".to_string()],
        "http://example.com".to_string(),
    );
    let matcher = build_matcher(def).unwrap();
    assert!(matcher.matches("some/dir/"));
    assert!(matcher.matches("dir/"));
    assert!(matcher.matches("some/dir"));
    assert!(!matcher.matches("some/dir/x"));
}

#[test]
fn test_invalid_glob_pattern_is_refused() {
    let r = PathGlobMatcher::new("a/[".to_string());
    assert!(r.is_err());
    if let Err(e) = r {
        assert!(matches!(e, btmeister::MeisterError::Fatal(_)));
    }
}

#[test]
fn test_glob_matcher_anchored_at_start() {
    let matcher = PathGlobMatcher::new(".github/workflows/*.yml".to_string()).unwrap();
    assert!(matcher.matches(".github/workflows/test.yml"));
    assert!(!matcher.matches("/home/tamada/btmeister/.github/workflows/test.yml"));
}
