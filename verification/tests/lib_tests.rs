use btmeister::meister::normalize_ignore_types;
use btmeister::MeisterError::{
    Array, Fatal, Json, NoProjectSpecified, NotImplemented, ProjectNotFound,
    UnsupportedArchiveFormat, Warning, IO,
};
use btmeister::{BuildToolDefs, IgnoreType, LogLevel, Meister};

#[test]
fn test_loglevel_to_string() {
    assert_eq!(LogLevel::ERROR.to_string(), "error");
    assert_eq!(LogLevel::WARN.to_string(), "warn");
    assert_eq!(LogLevel::DEBUG.to_string(), "debug");
    assert_eq!(LogLevel::INFO.to_string(), "info");
    assert_eq!(LogLevel::TRACE.to_string(), "trace");
}

#[test]
fn test_ignoretype_to_string() {
    assert_eq!(IgnoreType::Default.to_string(), "default");
    assert_eq!(IgnoreType::Hidden.to_string(), "hidden");
    assert_eq!(IgnoreType::Ignore.to_string(), "ignore");
    assert_eq!(IgnoreType::GitIgnore.to_string(), "gitignore");
    assert_eq!(IgnoreType::GitGlobal.to_string(), "gitglobal");
    assert_eq!(IgnoreType::GitExclude.to_string(), "gitexclude");
}

#[test]
fn test_normalize_ignore_types() {
    let its = normalize_ignore_types(&vec![IgnoreType::Default]);
    assert_eq!(its.len(), 4);
    assert!(its.contains(&IgnoreType::Ignore));
    assert!(its.contains(&IgnoreType::GitGlobal));
    assert!(its.contains(&IgnoreType::GitIgnore));
    assert!(its.contains(&IgnoreType::GitExclude));

    let its = normalize_ignore_types(&vec![
        IgnoreType::Default,
        IgnoreType::Hidden,
        IgnoreType::GitIgnore,
    ]);
    assert_eq!(its.len(), 5);
    assert!(its.contains(&IgnoreType::Hidden));
    assert!(its.contains(&IgnoreType::Ignore));
    assert!(its.contains(&IgnoreType::GitGlobal));
    assert!(its.contains(&IgnoreType::GitIgnore));
    assert!(its.contains(&IgnoreType::GitExclude));
}

#[test]
fn test_empty_flags_mean_default() {
    let defs = BuildToolDefs::parse_from_asset().unwrap();
    let m1 = Meister::new(defs, vec![]).unwrap();
    assert_eq!(m1.its, vec![IgnoreType::Default]);
    let defs = BuildToolDefs::parse_from_asset().unwrap();
    let m2 = Meister::new(defs, vec![IgnoreType::Default]).unwrap();
    assert_eq!(m1.its, m2.its);
    assert_eq!(
        normalize_ignore_types(&m1.its),
        normalize_ignore_types(&m2.its)
    );
}

#[test]
fn test_error_message() {
    assert_eq!("fatal: test", Fatal("test".to_string()).message());
    assert_eq!("io error: test", IO("test".to_string()).message());
    assert_eq!(
        "parse error: missing field `test`",
        Json("missing field `test`".to_string()).message()
    );
    assert_eq!("not implemented yet.", NotImplemented.message());
    assert_eq!("no project specified.", NoProjectSpecified.message());
    assert_eq!(
        "test: project not found",
        ProjectNotFound("test".to_string()).message()
    );
    assert_eq!(
        "test: unsupported archive format",
        UnsupportedArchiveFormat("test".to_string()).message(),
    );
    assert_eq!("warning: test", Warning("test".to_string()).message());
    assert_eq!(
        "fatal: test\nfatal: test2",
        Array(vec![Fatal("test".to_string()), Fatal("test2".to_string())]).message()
    );
}

#[test]
fn test_verbose_out() {
    let verbose = btmeister::verbose::new(true);
    assert_eq!(verbose.name(), "VerboseImpl".to_string())
}

#[test]
fn test_verbose_none() {
    let verbose = btmeister::verbose::new(false);
    assert_eq!(verbose.name(), "NoVerbose".to_string())
}
