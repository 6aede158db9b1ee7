use std::io::Write;

use btmeister::{construct, BuildToolDef, BuildToolDefs};

/// Parses a definition-file JSON text the way the command-line front end
/// does: an array of objects with `name`, `build-files`, and `url`.
fn parse_defs_json(text: &str) -> BuildToolDefs {
    let value: serde_json::Value = serde_json::from_str(text).unwrap();
    let mut defs: Vec<BuildToolDef> = Vec::new();
    for entry in value.as_array().unwrap() {
        let name = entry.get("name").unwrap().as_str().unwrap().to_string();
        let url = entry.get("url").unwrap().as_str().unwrap().to_string();
        let mut files: Vec<String> = Vec::new();
        for f in entry.get("build-files").unwrap().as_array().unwrap() {
            files.push(f.as_str().unwrap().to_string());
        }
        defs.push(BuildToolDef::new(name, files, url));
    }
    BuildToolDefs::new(defs)
}

const APPEND_DEF_JSON: &str = r#"[
  {
    "name": "go",
    "build-files": ["go.mod"],
    "url": "https://go.dev/"
  },
  {
    "name": "webpack",
    "build-files": ["webpack.config.js"],
    "url": "https://webpack.js.org/"
  }
]"#;

#[test]
fn defs_test_construct1() {
    let r = construct(None, None);
    assert!(r.is_ok());
    if let Ok(result) = r {
        assert_eq!(45, result.len());
        assert!(!result.is_empty());
    }
}

#[test]
fn defs_test_construct2() {
    let base = BuildToolDefs::parse_from_asset().unwrap();
    let r = construct(Some(base), None);
    assert!(r.is_ok());
    if let Ok(result) = r {
        assert_eq!(45, result.len());
        assert!(!result.is_empty());
    }
}

#[test]
fn defs_test_construct3() {
    let root = tempfile::tempdir().unwrap();
    let testdata = tempfile::Builder::new()
        .prefix("testdata")
        .rand_bytes(0)
        .tempdir_in(root.path())
        .unwrap();
    let target = testdata.path().join("append_def.json");
    let mut f = tempfile::NamedTempFile::new_in(testdata.path()).unwrap();
    f.write_all(APPEND_DEF_JSON.as_bytes()).unwrap();
    f.persist(&target).unwrap();

    let text = fs_err::read_to_string(&target).unwrap();
    let append = parse_defs_json(&text);
    let r = construct(None, Some(append));
    assert!(r.is_ok());
    if let Ok(result) = r {
        assert_eq!(47, result.len());
        assert!(!result.is_empty());
    }
}

#[test]
fn defs_test_new_and_extend() {
    let mut defs1 = BuildToolDefs::new(vec![]);
    assert_eq!(0, defs1.len());
    assert!(defs1.is_empty());

    let defs2 = BuildToolDefs::new(vec![BuildToolDef::new(
        "Fake".to_string(),
        vec!["Fakefile".to_string()],
        "https://example.com".to_string(),
    )]);
    assert_eq!(1, defs2.len());

    defs1.extend(defs2);

    assert_eq!(1, defs1.len());
    assert!(!defs1.is_empty());
}

#[test]
fn test_construct1() {
    let r = construct(None, None);
    assert!(r.is_ok());
    if let Ok(result) = r {
        assert_eq!(45, result.len());
        assert!(!result.is_empty());
    }
}

#[test]
fn test_construct2() {
    let base = BuildToolDefs::parse_from_asset().unwrap();
    let r = construct(Some(base), None);
    assert!(r.is_ok());
    if let Ok(result) = r {
        assert_eq!(45, result.len());
        assert!(!result.is_empty());
    }
}

#[test]
fn test_construct3() {
    let append = parse_defs_json(APPEND_DEF_JSON);
    let r = construct(None, Some(append));
    assert!(r.is_ok());
    if let Ok(result) = r {
        assert_eq!(47, result.len());
        assert!(!result.is_empty());
    }
}

#[test]
fn test_new_and_extend() {
    let mut defs1 = BuildToolDefs::new(vec![]);
    assert_eq!(0, defs1.len());
    assert!(defs1.is_empty());

    let defs2 = BuildToolDefs::new(vec![BuildToolDef::new(
        "Fake".to_string(),
        vec!["Fakefile".to_string()],
        "https://example.com".to_string(),
    )]);
    assert_eq!(1, defs2.len());

    defs1.extend(defs2);

    assert_eq!(1, defs1.len());
    assert!(!defs1.is_empty());
}

#[test]
fn test_append_keeps_both_orders() {
    let mut base = parse_defs_json(APPEND_DEF_JSON);
    let mut more = BuildToolDefs::new(vec![BuildToolDef::new(
        "Fake".to_string(),
        vec!["Fakefile".to_string()],
        "https://example.com".to_string(),
    )]);
    base.append(&mut more);
    assert_eq!(3, base.len());
    assert_eq!(0, more.len());
    assert_eq!("go", base.iter()[0].name);
    assert_eq!("webpack", base.iter()[1].name);
    assert_eq!("Fake", base.iter()[2].name);
}

#[test]
fn test_merge_build_tools_counts() {
    let a = parse_defs_json(APPEND_DEF_JSON);
    let b = parse_defs_json(APPEND_DEF_JSON);
    let merged = btmeister::merge_build_tools(a, b);
    assert_eq!(4, merged.len());
    assert_eq!("go", merged.iter()[0].name);
    assert_eq!("go", merged.iter()[2].name);
}
