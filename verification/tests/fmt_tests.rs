use btmeister::fmt::{
    build_formatter, fake_build_def, fake_build_tools, CsvFormatter, DefaultFormatter, Format,
    JsonFormatter, MarkdownFormatter, XmlFormatter, YamlFormatter,
};

#[test]
fn test_build_formatter() {
    assert_eq!("csv", build_formatter(Format::Csv).name());
    assert_eq!("default", build_formatter(Format::Default).name());
    assert_eq!("json", build_formatter(Format::Json).name());
    assert_eq!("xml", build_formatter(Format::Xml).name());
    assert_eq!("yaml", build_formatter(Format::Yaml).name());
}

#[test]
fn csv_test_format_csv() {
    let formatter = CsvFormatter {};
    let def = fake_build_def();
    let result = formatter.format_def(&def, false);
    assert!(result.is_ok());
    if let Ok(r) = result {
        assert_eq!("Fake,Fakefile,https://example.com".to_string(), r);
    }
    assert_eq!(None, formatter.header_defs());
    assert_eq!(None, formatter.footer_defs());
}

#[test]
fn csv_test_format_buildtools() {
    let formatter = CsvFormatter {};
    let tools = fake_build_tools();
    let result = formatter.format_files(&tools, false);
    assert!(result.is_ok());
    if let Ok(r) = result {
        assert_eq!(
            r#"fake/base/dir,Fakefile,Fake
fake/base/dir,Makefile,Make
"#
            .to_string(),
            r
        );
    }
    assert_eq!(None, formatter.header_files());
    assert_eq!(None, formatter.footer_files());
}

#[test]
fn default_test_format_csv() {
    let formatter = DefaultFormatter {};
    let def = fake_build_def();
    let result = formatter.format_def(&def, false);
    assert!(result.is_ok());
    if let Ok(r) = result {
        assert_eq!("Fake: Fakefile".to_string(), r);
    }
    assert_eq!(None, formatter.header_defs());
    assert_eq!(None, formatter.footer_defs());
}

#[test]
fn default_test_format_buildtools() {
    let formatter = DefaultFormatter {};
    let tools = fake_build_tools();
    let result = formatter.format_files(&tools, false);
    assert!(result.is_ok());
    if let Ok(r) = result {
        assert_eq!(
            r#"fake/base/dir
    Fakefile: Fake
    Makefile: Make
"#
            .to_string(),
            r
        );
    }
    assert_eq!(None, formatter.header_files());
    assert_eq!(None, formatter.footer_files());
}

#[test]
fn json_test_format_csv() {
    let formatter = JsonFormatter {};
    let def = fake_build_def();
    let result = formatter.format_def(&def, true);
    assert!(result.is_ok());
    if let Ok(r) = result {
        assert_eq!(
            r#"{"name":"Fake","build-files":["Fakefile"],"url":"https://example.com"}"#
                .to_string(),
            r
        );
    }
}

#[test]
fn test_format_csv_second_or_later() {
    let formatter = JsonFormatter {};
    let def = fake_build_def();
    let result = formatter.format_def(&def, false);
    assert!(result.is_ok());
    if let Ok(r) = result {
        assert_eq!(
            r#",{"name":"Fake","build-files":["Fakefile"],"url":"https://example.com"}"#
                .to_string(),
            r
        );
    }

    assert_eq!(Some("[".to_string()), formatter.header_defs());
    assert_eq!(Some("]".to_string()), formatter.footer_defs());
}

#[test]
fn json_test_format_buildtools() {
    let formatter = JsonFormatter {};
    let tools = fake_build_tools();
    let result = formatter.format_files(&tools, false);
    assert!(result.is_ok());
    if let Ok(r) = result {
        assert_eq!(
            r#",{"base":"fake/base/dir","build-tools":[
{"path":"Fakefile","tool-name":"Fake"}
,{"path":"Makefile","tool-name":"Make"}
]}
"#
            .to_string(),
            r
        );
    }
    assert_eq!(Some("[".to_string()), formatter.header_files());
    assert_eq!(Some("]".to_string()), formatter.footer_files());
}

#[test]
fn markdown_test_format_csv() {
    let formatter = MarkdownFormatter {};
    let def = fake_build_def();
    let result = formatter.format_def(&def, false);
    assert!(result.is_ok());
    if let Ok(r) = result {
        assert_eq!("- [Fake](https://example.com)\n  - Fakefile".to_string(), r);
    }
    assert_eq!(None, formatter.header_defs());
    assert_eq!(None, formatter.footer_defs());
}

#[test]
fn markdown_test_format_buildtools() {
    let formatter = MarkdownFormatter {};
    let tools = fake_build_tools();
    let result = formatter.format_files(&tools, false);
    assert!(result.is_ok());
    if let Ok(r) = result {
        assert_eq!(
            r#"- Fake
  - fake/base/dir/Fakefile
- Make
  - fake/base/dir/Makefile
"#
            .to_string(),
            r
        );
    }
    assert_eq!(None, formatter.header_files());
    assert_eq!(None, formatter.footer_files());
}

#[test]
fn xml_test_format_csv() {
    let formatter = XmlFormatter {};
    let def = fake_build_def();
    let result = formatter.format_def(&def, true);
    assert!(result.is_ok());
    if let Ok(r) = result {
        assert_eq!(
            r#"    <build-tool-def>
        <name>Fake</name>
        <build-files>
            <build-file>Fakefile</build-file>
        </build-files>
        <url>https://example.com</url>
    </build-tool-def>"#,
            r
        );
    }
}

#[test]
fn test_header_and_footer() {
    let formatter = XmlFormatter {};
    assert_eq!(
        Some("<? xml version=\"1.0\" ?>\n<build-tool-defs>\n".to_string()),
        formatter.header_defs()
    );
    assert_eq!(
        Some("</build-tool-defs>".to_string()),
        formatter.footer_defs()
    );
}

#[test]
fn xml_test_format_buildtools() {
    let formatter = XmlFormatter {};
    let tools = fake_build_tools();
    let result = formatter.format_files(&tools, false);
    assert!(result.is_ok());
    if let Ok(r) = result {
        assert_eq!(
            r#"    <project>
        <base-path>fake/base/dir</base-path>
        <build-files>
            <build-file tool-name="Fake">Fakefile</build-file>
            <build-file tool-name="Make">Makefile</build-file>
        </build-files>
    </project>
"#
            .to_string(),
            r
        );
    }
}

#[test]
fn test_header_and_footer2() {
    let formatter = XmlFormatter {};
    assert_eq!(
        Some("<? xml version=\"1.0\" ?>\n<build-tools>".to_string()),
        formatter.header_files()
    );
    assert_eq!(Some("</build-tools>".to_string()), formatter.footer_files());
}

#[test]
fn yaml_test_format_csv() {
    let formatter = YamlFormatter {};
    let def = fake_build_def();
    let result = formatter.format_def(&def, false);
    assert!(result.is_ok());
    if let Ok(r) = result {
        assert_eq!(
            r#"- name: "Fake"
  build-files:
  - "Fakefile"
  url: "https://example.com""#
                .to_string(),
            r
        );
    }
    assert_eq!(None, formatter.header_defs());
    assert_eq!(None, formatter.footer_defs());
}

#[test]
fn yaml_test_format_buildtools() {
    let formatter = YamlFormatter {};
    let tools = fake_build_tools();
    let result = formatter.format_files(&tools, false);
    assert!(result.is_ok());
    if let Ok(r) = result {
        assert_eq!(
            r#"- project: fake/base/dir
  build-files:
  - tool-name: Fake
    file-path: Fakefile
  - tool-name: Make
    file-path: Makefile
"#
            .to_string(),
            r
        );
    }
    assert_eq!(None, formatter.header_files());
    assert_eq!(None, formatter.footer_files());
}

#[test]
fn test_render_defs_json() {
    let defs = btmeister::BuildToolDefs::new(vec![fake_build_def()]);
    let out = btmeister::fmt::render_defs(Format::Json, &defs);
    assert_eq!(
        "[\n{\"name\":\"Fake\",\"build-files\":[\"Fakefile\"],\"url\":\"https://example.com\"}\n]\n",
        out
    );
}

#[test]
fn test_render_results_default() {
    let results = vec![fake_build_tools()];
    let out = btmeister::fmt::render_results(Format::Default, &results);
    assert_eq!("fake/base/dir\n    Fakefile: Fake\n    Makefile: Make\n", out);
}
