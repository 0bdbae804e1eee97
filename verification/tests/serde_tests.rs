use arduino_compile_sketches::driver::parse_dependency_list;
use arduino_compile_sketches::error::CompileSketchesError;
use arduino_compile_sketches::serde_types::{
    DepMapping, Dependencies, InstalledPlatform, InstalledPlatforms,
    PlatformDependency,
};

#[test]
fn parse_platform_input() {
    let yaml = r#"
- name: arduino:avr
- name: custom:platform
  source-url: https://example.com/package_arch_index.json
- source-path: ./local/platform
  name: Vendor:Arch:Board
- source-url: https://example.com/another-platform.git
  name: vendor:arch:board
- url: https://example.com/download-platform.zip
  destination-name: VENDOR:ARCH
"#;
    let deps = parse_dependency_list(yaml.to_string(), "platforms").unwrap();
    println!("{:#?}", deps);
    assert!(!deps.manager.is_empty());
    assert!(!deps.path.is_empty());
    assert!(!deps.repository.is_empty());
    assert!(!deps.download.is_empty());
    for dep in &deps.download {
        assert_eq!(dep.source_url, "https://example.com/download-platform.zip");
        assert_eq!(dep.destination_name.as_deref(), Some("VENDOR:ARCH"));
    }
    for dep in &deps.path {
        assert_eq!(dep.source_path, "./local/platform");
        assert_eq!(dep.name.as_deref(), Some("Vendor:Arch:Board"));
    }
    for dep in &deps.repository {
        assert_eq!(dep.source_url, "https://example.com/another-platform.git");
        assert_eq!(dep.destination_name.as_deref(), Some("vendor:arch:board"));
    }
    for dep in deps.manager {
        assert!(["custom:platform", "arduino:avr"].contains(&dep.name.as_str()));
        assert!(dep.version.is_none());
        assert!(dep.source_url.is_none_or(|url| url.ends_with("package_arch_index.json")));
    }
}

fn mapping(pairs: &[(&str, &str)]) -> DepMapping {
    DepMapping { entries: pairs.iter().map(|(k, v)| (k.to_string(), v.to_string())).collect() }
}

#[test]
fn fail_parse_dep_entry() {
    let map = mapping(&[("invalid-key", "unused_value")]);
    let result = PlatformDependency::try_from(map);
    assert!(result.is_err_and(|e| matches!(e, CompileSketchesError::ParseDependencyMapping)))
}

#[test]
fn dependency_classification() {
    // a Board Manager URL without a `vendor:arch` name is a download
    let d = PlatformDependency::try_from(mapping(&[
        ("source-url", "https://example.com/package_x_index.json"),
        ("name", "noarch"),
    ]));
    assert!(matches!(d, Ok(PlatformDependency::Download(_))));
    let d = PlatformDependency::try_from(mapping(&[("source-url", "git://example.com/lib"), ("version", "v1")]));
    match d {
        Ok(PlatformDependency::Repo(r)) => {
            assert_eq!(r.source_url, "git://example.com/lib");
            assert_eq!(r.version.as_deref(), Some("v1"));
        }
        _ => panic!("expected a repository dependency"),
    }
    let d = PlatformDependency::try_from(mapping(&[("source-path", "./lib"), ("destination-name", "Mine")]));
    match d {
        Ok(PlatformDependency::Path(p)) => assert_eq!(p.name.as_deref(), Some("Mine")),
        _ => panic!("expected a path dependency"),
    }
    // the first unclassifiable mapping fails the whole list
    let all = Dependencies::from_input(vec![mapping(&[("name", "Servo")]), mapping(&[("x", "y")])]);
    assert!(matches!(all, Err(CompileSketchesError::ParseDependencyMapping)));
    let all = Dependencies::from_input(vec![mapping(&[("name", "Servo")]), mapping(&[("name", "Stepper")])]).unwrap();
    assert_eq!(all.manager.len(), 2);
    assert_eq!(all.manager[0].name, "Servo");
    assert_eq!(all.manager[1].name, "Stepper");
    assert!(!all.is_empty());
    assert!(Dependencies::default().is_empty());
}

#[test]
fn undecodable_dependency_list() {
    let r = parse_dependency_list("[not: closed".to_string(), "libraries");
    match r {
        Err(CompileSketchesError::DecodeYamlDepList { dep_type, input, .. }) => {
            assert_eq!(dep_type, "libraries");
            assert_eq!(input, "[not: closed");
        }
        _ => panic!("expected a decoding error"),
    }
}

#[test]
fn installed_platform_lookups() {
    let platforms = InstalledPlatforms {
        platforms: vec![
            InstalledPlatform {
                id: "arduino:avr".to_string(),
                installed_version: "1.8.6".to_string(),
                latest_version: Some("1.8.6".to_string()),
            },
            InstalledPlatform {
                id: "esp32:esp32".to_string(),
                installed_version: "3.2.0".to_string(),
                latest_version: Some("3.3.0".to_string()),
            },
        ],
    };
    assert_eq!(platforms.is_installed("arduino:avr", None), Some("1.8.6"));
    assert_eq!(platforms.is_installed("esp32:esp32", Some("3.2.0")), Some("3.2.0"));
    assert_eq!(platforms.is_installed("nonexistent:platform", None), None);
    assert_eq!(platforms.is_installed("arduino:avr", Some("latest")), Some("1.8.6"));
    assert_eq!(platforms.is_installed("esp32:esp32", Some("latest")), None);
    assert_eq!(platforms.is_installed("arduino:avr", Some("1.8.5")), None);
}

#[test]
fn board_manager_urls() {
    // the URL's path decides: `package_*index.json` with a `vendor:arch` name is a manager platform
    let d = PlatformDependency::try_from(mapping(&[
        ("source-url", "https://example.com/boards/package_esp32_index.json?x=1"),
        ("name", "esp32:esp32"),
    ]));
    assert!(matches!(d, Ok(PlatformDependency::Manager(m)) if m.name == "esp32:esp32"));
    let d = PlatformDependency::try_from(mapping(&[
        ("source-url", "https://example.com/package_esp32_index.json/other"),
        ("name", "esp32:esp32"),
    ]));
    assert!(matches!(d, Ok(PlatformDependency::Download(_))));
}

#[test]
fn every_mapping_sorted_once() {
    let yaml = "- name: a:b\n- source-path: ./p\n- source-url: git://x\n- url: https://e.com/x.zip\n- name: c:d\n";
    let deps = parse_dependency_list(yaml.to_string(), "platforms").unwrap();
    assert_eq!(
        deps.manager.len() + deps.path.len() + deps.repository.len() + deps.download.len(),
        5
    );
    assert_eq!(deps.manager.len(), 2);
}
