use cargo_llms_txt::manifest::ManifestValue;
use cargo_llms_txt::project_info::{
    get_project_info, get_project_name, parse_project_info, parse_project_name,
    project_info_from_manifest, ManifestError, ProjectInfo,
};

fn text(value: &str) -> ManifestValue {
    ManifestValue::Str(value.to_string())
}

fn table(entries: Vec<(&str, ManifestValue)>) -> ManifestValue {
    ManifestValue::Table(
        entries
            .into_iter()
            .map(|(key, value)| (key.to_string(), value))
            .collect(),
    )
}

fn malformed_field(result: Result<ProjectInfo, ManifestError>) -> String {
    match result {
        Err(ManifestError::Malformed(field)) => field,
        other => panic!("expected a malformed field, got {:?}", other),
    }
}

#[test]
fn test_parse_project_info_basic() {
    let content = r#"
[package]
name = "test-project"
version = "1.0.0"
description = "A test project"
authors = ["Test Author <test@example.com>"]
license = "MIT"
repository = "https://github.com/test/test-project"
homepage = "https://test-project.example.com"
keywords = ["test", "cli"]

[dependencies]
serde = "1.0"
"#;

    let info = parse_project_info(content).unwrap();

    assert_eq!(info.version, Some("1.0.0".to_string()));
    assert_eq!(info.description, Some("A test project".to_string()));
    assert_eq!(info.authors, Some("Test Author <test@example.com>".to_string()));
    assert_eq!(info.license, Some("MIT".to_string()));
    assert_eq!(info.repository, Some("https://github.com/test/test-project".to_string()));
    assert_eq!(info.homepage, Some("https://test-project.example.com".to_string()));
    assert_eq!(info.keywords, Some(vec!["test".to_string(), "cli".to_string()]));
}

#[test]
fn test_parse_project_info_dependencies() {
    let content = r#"
[package]
name = "test-project"
version = "1.0.0"

[dependencies]
serde = "1.0"
clap = { version = "4.0", features = ["derive"] }
tokio = { version = "1.0", features = ["full", "rt-multi-thread"] }
"#;

    let info = parse_project_info(content).unwrap();

    let deps = info.dependencies.unwrap();
    assert_eq!(deps.len(), 3);

    let serde_dep = deps.iter().find(|d| d.name == "serde").unwrap();
    assert_eq!(serde_dep.version, Some("1.0".to_string()));
    assert_eq!(serde_dep.features, None);

    let clap_dep = deps.iter().find(|d| d.name == "clap").unwrap();
    assert_eq!(clap_dep.version, Some("4.0".to_string()));
    assert_eq!(clap_dep.features, Some(vec!["derive".to_string()]));

    let tokio_dep = deps.iter().find(|d| d.name == "tokio").unwrap();
    assert_eq!(tokio_dep.version, Some("1.0".to_string()));
    assert_eq!(
        tokio_dep.features,
        Some(vec!["full".to_string(), "rt-multi-thread".to_string()])
    );
}

#[test]
fn test_parse_project_info_features() {
    let content = r#"
[package]
name = "test-project"
version = "1.0.0"

[features]
default = ["std"]
std = []
serde = ["dep:serde"]
"#;

    let info = parse_project_info(content).unwrap();

    let features = info.features.unwrap();
    assert_eq!(features.len(), 3);
    let get = |name: &str| features.iter().find(|f| f.0 == name).map(|f| &f.1);
    assert_eq!(get("default"), Some(&vec!["std".to_string()]));
    assert_eq!(get("std"), Some(&vec![]));
    assert_eq!(get("serde"), Some(&vec!["dep:serde".to_string()]));
}

#[test]
fn test_parse_project_info_multiple_authors() {
    let content = r#"
[package]
name = "test-project"
version = "1.0.0"
authors = ["Author One <one@example.com>", "Author Two <two@example.com>"]
"#;

    let info = parse_project_info(content).unwrap();

    assert_eq!(
        info.authors,
        Some("Author One <one@example.com>, Author Two <two@example.com>".to_string())
    );
}

#[test]
fn test_parse_project_info_empty_package() {
    let content = r#"
[dependencies]
serde = "1.0"
"#;

    let info = parse_project_info(content).unwrap();

    assert_eq!(info.version, None);
    assert_eq!(info.description, None);
    assert_eq!(info.authors, None);
    assert!(info.dependencies.is_some());
}

#[test]
fn test_parse_project_info_invalid_toml() {
    let content = "this is not valid toml";

    let result = parse_project_info(content);
    assert!(result.is_err());
}

#[test]
fn test_parse_project_name() {
    let content = r#"
[package]
name = "my-awesome-project"
version = "1.0.0"
"#;

    let name = parse_project_name(content);
    assert_eq!(name, Some("my-awesome-project".to_string()));
}

#[test]
fn test_parse_project_name_no_name() {
    let content = r#"
[package]
version = "1.0.0"
"#;

    let name = parse_project_name(content);
    assert_eq!(name, None);
}

#[test]
fn test_parse_project_name_no_package() {
    let content = r#"
[dependencies]
serde = "1.0"
"#;

    let name = parse_project_name(content);
    assert_eq!(name, None);
}

#[test]
fn test_parse_project_name_different_formats() {
    let content1 = r#"name = "test-project""#;
    assert_eq!(parse_project_name(content1), Some("test-project".to_string()));

    let content2 = r#"  name = "test-project"  "#;
    assert_eq!(parse_project_name(content2), Some("test-project".to_string()));
}

#[test]
fn project_name_comes_from_the_first_matching_line() {
    assert_eq!(
        parse_project_name("name = \"a\"\r\nname = \"b\"\n"),
        Some("a".to_string())
    );
    assert_eq!(parse_project_name("name = \"\""), Some(String::new()));
    assert_eq!(parse_project_name("name = \"open"), None);
    assert_eq!(parse_project_name("name = \""), None);
    assert_eq!(parse_project_name("name=\"tight\""), None);
    assert_eq!(parse_project_name("name = \"a\" # note"), None);
    assert_eq!(parse_project_name("\u{a0}name = \"nbsp\"\u{3000}"), Some("nbsp".to_string()));
    assert_eq!(parse_project_name(""), None);
}

#[test]
fn project_name_falls_back_to_the_directory() {
    assert_eq!(get_project_name(Some("name = \"x\""), "dir"), "x");
    assert_eq!(get_project_name(Some("[package]"), "dir"), "dir");
    assert_eq!(get_project_name(None, "dir"), "dir");
}

#[test]
fn project_without_manifest_has_empty_metadata() {
    let info = get_project_info(None).unwrap();
    assert_eq!(info.name, None);
    assert_eq!(info.description, None);
    assert_eq!(info.version, None);
    assert_eq!(info.authors, None);
    assert_eq!(info.license, None);
    assert_eq!(info.repository, None);
    assert_eq!(info.homepage, None);
    assert_eq!(info.keywords, None);
    assert!(info.dependencies.is_none());
    assert!(info.features.is_none());
    let named = get_project_info(Some("[package]\nname = \"n\"")).unwrap();
    assert_eq!(named.name, Some("n".to_string()));
    assert!(matches!(
        get_project_info(Some("= broken")),
        Err(ManifestError::Syntax(_))
    ));
}

#[test]
fn syntax_errors_carry_the_parser_message() {
    match parse_project_info("this is not valid toml") {
        Err(ManifestError::Syntax(message)) => assert!(!message.is_empty()),
        other => panic!("expected a syntax error, got {:?}", other),
    }
}

#[test]
fn wrongly_typed_fields_are_reported_by_name() {
    assert_eq!(malformed_field(parse_project_info("package = 1")), "package");
    assert_eq!(
        malformed_field(parse_project_info("[package]\nname = 1")),
        "package.name"
    );
    assert_eq!(
        malformed_field(parse_project_info("[package]\nversion = true")),
        "package.version"
    );
    assert_eq!(
        malformed_field(parse_project_info("[package]\ndescription = []")),
        "package.description"
    );
    assert_eq!(
        malformed_field(parse_project_info("[package]\nauthors = \"me\"")),
        "package.authors"
    );
    assert_eq!(
        malformed_field(parse_project_info("[package]\nauthors = [\"me\", 2]")),
        "package.authors"
    );
    assert_eq!(
        malformed_field(parse_project_info("[package]\nlicense = 1.5")),
        "package.license"
    );
    assert_eq!(
        malformed_field(parse_project_info("[package]\nrepository = {}")),
        "package.repository"
    );
    assert_eq!(
        malformed_field(parse_project_info("[package]\nhomepage = 1979-05-27")),
        "package.homepage"
    );
    assert_eq!(
        malformed_field(parse_project_info("[package]\nkeywords = [[\"a\"]]")),
        "package.keywords"
    );
    assert_eq!(
        malformed_field(parse_project_info("dependencies = \"x\"")),
        "dependencies"
    );
    assert_eq!(malformed_field(parse_project_info("features = []")), "features");
    assert_eq!(
        malformed_field(parse_project_info("[features]\ndefault = \"std\"")),
        "features"
    );
    assert_eq!(
        malformed_field(parse_project_info("[features]\ndefault = [1]")),
        "features"
    );
}

#[test]
fn the_first_wrong_field_is_reported() {
    assert_eq!(
        malformed_field(parse_project_info(
            "dependencies = 1\nfeatures = 2\n[package]\nversion = 3\nname = 4"
        )),
        "package.name"
    );
    assert_eq!(
        malformed_field(parse_project_info("dependencies = 1\nfeatures = 2")),
        "dependencies"
    );
}

#[test]
fn dependencies_keep_what_is_well_typed() {
    let content = r#"
[dependencies]
a = 1
b = { version = 2, features = "x" }
c = { features = [1, "f", true, "g"] }
d = { features = [1] }
e = { path = "../e" }
"#;
    let info = parse_project_info(content).unwrap();
    let deps = info.dependencies.unwrap();
    let names: Vec<&str> = deps.iter().map(|d| d.name.as_str()).collect();
    assert_eq!(names, vec!["a", "b", "c", "d", "e"]);
    assert_eq!(deps[0].version, None);
    assert_eq!(deps[0].features, None);
    assert_eq!(deps[1].version, None);
    assert_eq!(deps[1].features, None);
    assert_eq!(deps[2].version, None);
    assert_eq!(deps[2].features, Some(vec!["f".to_string(), "g".to_string()]));
    assert_eq!(deps[3].features, None);
    assert_eq!(deps[4].version, None);
}

#[test]
fn empty_tables_and_lists_count_as_absent() {
    let info = parse_project_info("[package]\nauthors = []\nkeywords = []\n[dependencies]\n[features]\n")
        .unwrap();
    assert_eq!(info.authors, None);
    assert_eq!(info.keywords, Some(vec![]));
    assert!(info.dependencies.is_none());
    assert!(info.features.is_none());
}

#[test]
fn unknown_fields_are_passed_over() {
    let info = parse_project_info("[package]\nedition = 2021\n[lib]\nname = 1\n").unwrap();
    assert_eq!(info.name, None);
}

#[test]
fn metadata_from_a_hand_made_manifest() {
    let manifest = table(vec![
        (
            "package",
            table(vec![
                ("name", text("n")),
                ("authors", ManifestValue::Array(vec![text("A"), text("B")])),
            ]),
        ),
        (
            "dependencies",
            table(vec![
                ("one", text("1.0")),
                ("two", table(vec![("version", text("2.0"))])),
            ]),
        ),
        (
            "features",
            table(vec![("default", ManifestValue::Array(vec![text("std")]))]),
        ),
    ]);
    let info = project_info_from_manifest(&manifest).unwrap();
    assert_eq!(info.name, Some("n".to_string()));
    assert_eq!(info.authors, Some("A, B".to_string()));
    let deps = info.dependencies.unwrap();
    assert_eq!(deps.len(), 2);
    assert_eq!(deps[0].name, "one");
    assert_eq!(deps[0].version, Some("1.0".to_string()));
    assert_eq!(deps[1].name, "two");
    assert_eq!(deps[1].version, Some("2.0".to_string()));
    assert_eq!(
        info.features,
        Some(vec![("default".to_string(), vec!["std".to_string()])])
    );
}

#[test]
fn a_manifest_must_be_a_table() {
    assert_eq!(
        malformed_field(project_info_from_manifest(&text("x"))),
        "manifest"
    );
    assert_eq!(
        malformed_field(project_info_from_manifest(&ManifestValue::Other)),
        "manifest"
    );
    assert_eq!(
        malformed_field(project_info_from_manifest(&table(vec![(
            "package",
            ManifestValue::Other
        )]))),
        "package"
    );
}

#[test]
fn error_messages_name_the_problem() {
    assert_eq!(
        ManifestError::Malformed("package.name".to_string()).message(),
        "invalid manifest: wrong type for `package.name`"
    );
    assert_eq!(
        ManifestError::Syntax("bad".to_string()).message(),
        "invalid manifest: bad"
    );
}
