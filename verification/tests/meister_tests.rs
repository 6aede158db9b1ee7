use std::io::Write;
use std::path::{Path, PathBuf};

use btmeister::cli::InputOpts;
use btmeister::fmt::Format;
use btmeister::{BuildTool, BuildToolDef, BuildToolDefs, BuildTools, Meister};

fn named_dir(parent: &Path, name: &str) -> PathBuf {
    tempfile::Builder::new()
        .prefix(name)
        .rand_bytes(0)
        .tempdir_in(parent)
        .unwrap()
        .keep()
}

fn write_file(dir: &Path, name: &str, content: &[u8]) -> PathBuf {
    let target = dir.join(name);
    let mut f = tempfile::NamedTempFile::new_in(dir).unwrap();
    f.write_all(content).unwrap();
    f.persist(&target).unwrap();
    target
}

fn append(b: &mut tar::Builder<Vec<u8>>, name: &str, data: &[u8]) {
    let mut h = tar::Header::new_gnu();
    h.set_size(data.len() as u64);
    h.set_mode(0o644);
    h.set_cksum();
    b.append_data(&mut h, name, data).unwrap();
}

/// A directory shaped like the original fibonacci fixture: it holds one
/// `build.gradle` file.  Returns the kept root and the project path.
fn fibonacci_fixture() -> (tempfile::TempDir, String) {
    let root = tempfile::tempdir().unwrap();
    let testdata = named_dir(root.path(), "testdata");
    let fibonacci = named_dir(&testdata, "fibonacci");
    write_file(&fibonacci, "build.gradle", b"apply plugin: 'java'\n");
    let project = fibonacci.display().to_string();
    (root, project)
}

/// An archive shaped like the original hello.tar fixture: members
/// `hello/Cargo.toml` and `hello/src/main.rs`.
fn hello_tar_fixture() -> (tempfile::TempDir, String) {
    let root = tempfile::tempdir().unwrap();
    let testdata = named_dir(root.path(), "testdata");
    let mut b = tar::Builder::new(Vec::new());
    append(&mut b, "hello/Cargo.toml", b"[package]\nname = \"hello\"\n");
    append(&mut b, "hello/src/main.rs", b"fn main() {}\n");
    let target = write_file(&testdata, "hello.tar", &b.into_inner().unwrap());
    (root, target.display().to_string())
}

#[test]
fn lib_test_build_walker() {
    let (_root, project) = fibonacci_fixture();
    let meister = Meister::new_as_default().unwrap();
    let r = meister.find(project);
    assert!(r.is_ok());
    if let Ok(r) = r {
        assert_eq!(1, r.tools.len());
        assert_eq!("Gradle", r.tools[0].def.name);
        if let Ok(p) = r.path_of(0) {
            assert_eq!("build.gradle".to_string(), p);
        }
    }
}

#[test]
fn test_build_walker() {
    let (_root, project) = fibonacci_fixture();
    let meister = Meister::new_as_default().unwrap();
    let r = meister.find(project);
    assert!(r.is_ok());
    if let Ok(r) = r {
        assert_eq!(1, r.tools.len());
        assert_eq!("Gradle", r.tools[0].def.name);
        if let Ok(p) = r.path_of(0) {
            assert_eq!("build.gradle".to_string(), p);
        }
    }
}

#[test]
fn btmeister_test_build_walker() {
    let (_root, project) = fibonacci_fixture();
    let meister = Meister::new_as_default().unwrap();
    let r = meister.find(project);
    assert!(r.is_ok());
    if let Ok(r) = r {
        assert_eq!(1, r.tools.len());
        assert_eq!("Gradle", r.tools[0].def.name);
        if let Ok(p) = r.path_of(0) {
            assert_eq!("build.gradle".to_string(), p);
        }
    }
}

#[test]
fn lib_test_archive_file() {
    let (_root, archive) = hello_tar_fixture();
    let meister = Meister::new_as_default().unwrap();
    let r = meister.find(archive);
    assert!(r.is_ok());
    if let Ok(r) = r {
        assert_eq!(1, r.tools.len());
        assert_eq!("Cargo", r.tools[0].def.name);
        if let Ok(p) = r.path_of(0) {
            assert_eq!("hello/Cargo.toml".to_string(), p);
        }
    }
}

#[test]
fn test_archive_file() {
    let (_root, archive) = hello_tar_fixture();
    let meister = Meister::new_as_default().unwrap();
    let r = meister.find(archive);
    assert!(r.is_ok());
    if let Ok(r) = r {
        assert_eq!(1, r.tools.len());
        assert_eq!("Cargo", r.tools[0].def.name);
        if let Ok(p) = r.path_of(0) {
            assert_eq!("hello/Cargo.toml".to_string(), p);
        }
    }
}

#[test]
fn test_find_gradle_only_catalog() {
    let (_root, project) = fibonacci_fixture();
    let defs = BuildToolDefs::new(vec![BuildToolDef::new(
        "Gradle".to_string(),
        vec!["build.gradle".to_string()],
        "https://gradle.org/".to_string(),
    )]);
    let meister = Meister::new(defs, vec![]).unwrap();
    let r = meister.find(project).unwrap();
    assert_eq!(1, r.tools.len());
    assert_eq!("Gradle", r.tools[0].def.name);
    assert_eq!("build.gradle", r.path_of(0).unwrap());
}

#[test]
fn test_exclude_skips_before_matching() {
    let root = tempfile::tempdir().unwrap();
    let project = named_dir(root.path(), "proj");
    let sub = named_dir(&project, "exc");
    write_file(&sub, "build.gradle", b"apply plugin: 'java'\n");
    let base = project.display().to_string();

    let defs = BuildToolDefs::new(vec![BuildToolDef::new(
        "Gradle".to_string(),
        vec!["build.gradle".to_string()],
        "https://gradle.org/".to_string(),
    )]);
    let with_excl = Meister::new_with_excludes(defs, vec![], vec!["exc".to_string()]).unwrap();
    let r = with_excl.find(base.clone()).unwrap();
    assert_eq!(0, r.tools.len());

    let defs = BuildToolDefs::new(vec![BuildToolDef::new(
        "Gradle".to_string(),
        vec!["build.gradle".to_string()],
        "https://gradle.org/".to_string(),
    )]);
    let without = Meister::new(defs, vec![]).unwrap();
    let r = without.find(base).unwrap();
    assert_eq!(1, r.tools.len());
}

#[test]
fn test_find_unsupported_file() {
    let root = tempfile::tempdir().unwrap();
    let testdata = named_dir(root.path(), "testdata");
    let target = write_file(&testdata, "hello.txt", b"hi\n");
    let meister = Meister::new_as_default().unwrap();
    let r = meister.find(target.display().to_string());
    assert!(r.is_err());
    if let Err(e) = r {
        assert!(matches!(
            e,
            btmeister::MeisterError::UnsupportedArchiveFormat(_)
        ));
    }
}

#[test]
fn test_first_definition_wins() {
    let defs = BuildToolDefs::new(vec![
        BuildToolDef::new(
            "First".to_string(),
            vec!["Marker".to_string()],
            "https://example.com/1".to_string(),
        ),
        BuildToolDef::new(
            "Second".to_string(),
            vec!["Marker".to_string()],
            "https://example.com/2".to_string(),
        ),
    ]);
    let meister = Meister::new(defs, vec![]).unwrap();
    let bt = btmeister::find_build_tool(&meister, "dir/Marker").unwrap();
    assert_eq!("First", bt.def.name);
    assert!(btmeister::find_build_tool(&meister, "dir/Other").is_none());
}

#[test]
fn test_path_of_out_of_range() {
    let tools = BuildTools {
        base: "base".to_string(),
        tools: vec![],
    };
    let r = tools.path_of(0);
    assert!(r.is_err());
    if let Err(e) = r {
        assert!(matches!(e, btmeister::MeisterError::Fatal(_)));
    }
}

#[test]
fn test_path_of_foreign_path_stays() {
    let tools = BuildTools {
        base: "some/base".to_string(),
        tools: vec![BuildTool {
            path: "/absolute/other/Cargo.toml".to_string(),
            def: BuildToolDef::new(
                "Cargo".to_string(),
                vec!["Cargo.toml".to_string()],
                "https://doc.rust-lang.org/cargo/".to_string(),
            ),
        }],
    };
    assert_eq!("/absolute/other/Cargo.toml", tools.path_of(0).unwrap());
}

#[test]
fn cli_test_projects1() {
    let root = tempfile::tempdir().unwrap();
    let testdata = named_dir(root.path(), "testdata");
    let fibonacci = named_dir(&testdata, "fibonacci").display().to_string();
    let hello = named_dir(&testdata, "hello").display().to_string();
    let opts = InputOpts {
        ignore_types: vec![],
        excludes: vec![],
        dirs: vec![fibonacci.clone(), hello.clone()],
    };
    let projects = opts.projects();
    assert!(projects.is_ok());
    if let Ok(p) = projects {
        assert_eq!(2, p.len());
        assert_eq!(fibonacci, p[0]);
        assert_eq!(hello, p[1]);
    }
}

#[test]
fn test_projects1() {
    let root = tempfile::tempdir().unwrap();
    let testdata = named_dir(root.path(), "testdata");
    let fibonacci = named_dir(&testdata, "fibonacci").display().to_string();
    let hello = named_dir(&testdata, "hello").display().to_string();
    let opts = InputOpts {
        ignore_types: vec![],
        excludes: vec![],
        dirs: vec![fibonacci.clone(), hello.clone()],
    };
    let projects = opts.projects();
    assert!(projects.is_ok());
    if let Ok(p) = projects {
        assert_eq!(2, p.len());
        assert_eq!(fibonacci, p[0]);
        assert_eq!(hello, p[1]);
    }
}

#[test]
fn cli_test_projects2() {
    let root = tempfile::tempdir().unwrap();
    let testdata = named_dir(root.path(), "testdata");
    let fibonacci = named_dir(&testdata, "fibonacci");
    let hello = named_dir(&testdata, "hello");
    let list_file = write_file(&testdata, "project_list.txt", b"hello\nfibonacci\n");
    let opts = InputOpts {
        ignore_types: vec![],
        excludes: vec![],
        dirs: vec![format!("@{}", list_file.display())],
    };
    let projects = opts.projects();
    assert!(projects.is_ok());
    if let Ok(p) = projects {
        assert_eq!(2, p.len());
        assert_eq!(hello.display().to_string(), p[0]);
        assert_eq!(fibonacci.display().to_string(), p[1]);
    }
}

#[test]
fn test_projects2() {
    let root = tempfile::tempdir().unwrap();
    let testdata = named_dir(root.path(), "testdata");
    let fibonacci = named_dir(&testdata, "fibonacci");
    let hello = named_dir(&testdata, "hello");
    let list_file = write_file(
        &testdata,
        "project_list.txt",
        b"# the projects under test\n  hello\nfibonacci\n",
    );
    let opts = InputOpts {
        ignore_types: vec![],
        excludes: vec![],
        dirs: vec![format!("@{}", list_file.display())],
    };
    let projects = opts.projects();
    assert!(projects.is_ok());
    if let Ok(p) = projects {
        assert_eq!(2, p.len());
        assert_eq!(hello.display().to_string(), p[0]);
        assert_eq!(fibonacci.display().to_string(), p[1]);
    }
}

#[test]
fn test_projects_rejects_missing() {
    let opts = InputOpts {
        ignore_types: vec![],
        excludes: vec![],
        dirs: vec!["no_such_project_anywhere".to_string()],
    };
    let projects = opts.projects();
    assert!(projects.is_err());
    if let Err(btmeister::MeisterError::Array(e)) = projects {
        assert_eq!(1, e.len());
        assert!(matches!(e[0], btmeister::MeisterError::ProjectNotFound(_)));
    } else {
        assert!(false);
    }
}

#[test]
fn test_no_projects_given() {
    let opts = InputOpts {
        ignore_types: vec![],
        excludes: vec![],
        dirs: vec![],
    };
    let projects = opts.projects();
    assert!(matches!(
        projects,
        Err(btmeister::MeisterError::NoProjectSpecified)
    ));
}

#[test]
fn test_read_from_reader_skips_comments_and_blanks() {
    let lines = vec![
        "# a comment".to_string(),
        "".to_string(),
        "   ".to_string(),
        "testdata/hello".to_string(),
        "\t".to_string(),
        "testdata/fibonacci".to_string(),
    ];
    let r = btmeister::cli::read_from_reader(lines, "").unwrap();
    assert_eq!(
        vec![
            "testdata/hello".to_string(),
            "testdata/fibonacci".to_string()
        ],
        r
    );
}

#[test]
fn test_read_from_reader_trims_and_joins() {
    let lines = vec![
        " # indented comment".to_string(),
        "  hello  ".to_string(),
        "/absolute/other".to_string(),
        "fibonacci".to_string(),
    ];
    let r = btmeister::cli::read_from_reader(lines, "testdata").unwrap();
    assert_eq!(
        vec![
            "testdata/hello".to_string(),
            "/absolute/other".to_string(),
            "testdata/fibonacci".to_string(),
        ],
        r
    );
}

#[test]
fn test_parent_dir_of_list_file() {
    assert_eq!("testdata", btmeister::strutil::parent_dir("testdata/project_list.txt"));
    assert_eq!("", btmeister::strutil::parent_dir("project_list.txt"));
    assert_eq!("/", btmeister::strutil::parent_dir("/project_list.txt"));
    assert_eq!("a", btmeister::strutil::parent_dir("a/b/"));
}

#[test]
fn test_find_bt_collects_results() {
    let (_root, project) = fibonacci_fixture();
    let defs = BuildToolDefs::parse_from_asset().unwrap();
    let opts = InputOpts {
        ignore_types: vec![],
        excludes: vec![],
        dirs: vec![project],
    };
    let r = btmeister::find_bt(defs, opts).unwrap();
    assert_eq!(1, r.len());
    assert_eq!(1, r[0].tools.len());
    assert_eq!("Gradle", r[0].tools[0].def.name);
}

#[test]
fn test_success() {
    let (_root, project) = fibonacci_fixture();
    let defs = btmeister::construct(None, None).unwrap();
    let opts = InputOpts {
        ignore_types: vec![],
        excludes: vec![],
        dirs: vec![project],
    };
    let r = btmeister::find_bt(defs, opts);
    assert!(r.is_ok());
    let rendered = btmeister::fmt::render_results(Format::Json, &r.unwrap());
    assert!(rendered.contains("\"tool-name\":\"Gradle\""));
}

#[test]
fn test_success_list_defs() {
    let defs = btmeister::construct(None, None).unwrap();
    let rendered = btmeister::fmt::render_defs(Format::Json, &defs);
    assert!(rendered.starts_with("[\n"));
    assert!(rendered.trim_end().ends_with("]"));
    assert!(rendered.contains("\"name\":\"Gradle\""));
}

#[test]
fn test_project_not_found() {
    let defs = btmeister::construct(None, None).unwrap();
    let opts = InputOpts {
        ignore_types: vec![],
        excludes: vec![],
        dirs: vec!["unknown/project".to_string()],
    };
    let r = btmeister::find_bt(defs, opts);
    assert!(r.is_err());
}
