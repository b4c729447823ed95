//! Loader decisions and manifest handling.

use plugin_host::errors::{Error, ManifestField};
use plugin_host::loader::{
    archive_kind, entry_is_confined, library_file_name, ArchiveKind, Platform, PluginLoader,
};
use plugin_host::manifest::{parse_manifest, validate_manifest, BackendMeta, PluginManifest, PluginMeta};

fn meta(name: &str, version: &str, repository: &str) -> PluginMeta {
    PluginMeta {
        name: name.to_string(),
        display_name: None,
        version: version.to_string(),
        author: "tester".to_string(),
        repository: repository.to_string(),
        description: None,
        license: None,
        min_core_version: None,
        max_core_version: None,
        api_version: None,
        exposed_tables: None,
    }
}

#[test]
fn manifest_requires_name_version_repository() {
    let ok = PluginManifest { plugin: meta("p", "1.0.0", "https://example.test/p"), backend: None, frontend: None };
    assert!(validate_manifest(&ok).is_ok());

    let no_name = PluginManifest { plugin: meta("", "1.0.0", "r"), backend: None, frontend: None };
    assert_eq!(
        validate_manifest(&no_name),
        Err(Error::ManifestInvalid(ManifestField::Name))
    );
    let no_version = PluginManifest { plugin: meta("p", "", "r"), backend: None, frontend: None };
    assert_eq!(
        validate_manifest(&no_version),
        Err(Error::ManifestInvalid(ManifestField::Version))
    );
    let no_repo = PluginManifest { plugin: meta("p", "1.0.0", ""), backend: None, frontend: None };
    assert_eq!(
        validate_manifest(&no_repo),
        Err(Error::ManifestInvalid(ManifestField::Repository))
    );
}

#[test]
fn manifest_backend_block_requires_its_fields() {
    let mut m = PluginManifest {
        plugin: meta("p", "1.0.0", "r"),
        backend: Some(BackendMeta {
            crate_name: "p_backend".to_string(),
            library_name: "p_backend".to_string(),
            entry_point: "".to_string(),
        }),
        frontend: None,
    };
    assert_eq!(
        validate_manifest(&m),
        Err(Error::ManifestInvalid(ManifestField::EntryPoint))
    );
    m.backend = Some(BackendMeta {
        crate_name: "".to_string(),
        library_name: "x".to_string(),
        entry_point: "e".to_string(),
    });
    assert_eq!(
        validate_manifest(&m),
        Err(Error::ManifestInvalid(ManifestField::CrateName))
    );
}

#[test]
fn manifest_parses_from_file_content() {
    let content = "\
[plugin]\n\
name = \"tracker-goals\"\n\
version = \"2.1.0\"\n\
author = \"someone\"\n\
repository = \"https://example.test/tracker-goals\"\n\
description = \"goal tracking\"\n\
\n\
[[plugin.exposed_tables]]\n\
table_name = \"goals\"\n\
allowed_plugins = [\"reports\", \"*\"]\n\
\n\
[backend]\n\
crate_name = \"tracker_goals\"\n\
library_name = \"tracker_goals\"\n\
entry_point = \"_plugin_create\"\n\
\n\
[frontend]\n\
entry = \"index.js\"\n\
components = [\"GoalsPanel\"]\n";
    let m = parse_manifest(content).unwrap();
    assert_eq!(m.plugin.name, "tracker-goals");
    assert_eq!(m.plugin.version, "2.1.0");
    assert_eq!(m.plugin.author, "someone");
    let exposed = m.plugin.exposed_tables.unwrap();
    assert_eq!(exposed.len(), 1);
    assert_eq!(exposed[0].table_name, "goals");
    assert_eq!(exposed[0].allowed_plugins, vec!["reports", "*"]);
    let backend = m.backend.unwrap();
    assert_eq!(backend.entry_point, "_plugin_create");
    let frontend = m.frontend.unwrap();
    assert_eq!(frontend.entry, Some("index.js".to_string()));
    assert_eq!(frontend.components, Some(vec!["GoalsPanel".to_string()]));
    assert!(validate_manifest(&parse_manifest(content).unwrap()).is_ok());
}

#[test]
fn manifest_parse_reports_missing_required_fields_and_syntax() {
    let missing = "[plugin]\nname = \"p\"\n";
    match parse_manifest(missing) {
        Err(Error::ManifestInvalid(ManifestField::Version)) => {}
        Err(other) => panic!("expected the version field to be reported, got {:?}", other),
        Ok(_) => panic!("expected the version field to be reported"),
    }
    match parse_manifest("not [valid toml") {
        Err(Error::ManifestSyntax(_)) => {}
        Err(other) => panic!("expected a syntax error, got {:?}", other),
        Ok(_) => panic!("expected a syntax error"),
    }
}

#[test]
fn library_file_names_follow_the_platform() {
    assert_eq!(
        library_file_name("goals-plugin", Platform::Linux),
        "libgoals_plugin.so"
    );
    assert_eq!(
        library_file_name("goals-plugin", Platform::MacOs),
        "libgoals_plugin.dylib"
    );
    assert_eq!(
        library_file_name("goals-plugin", Platform::Windows),
        "goals_plugin.dll"
    );
}

#[test]
fn loader_derives_paths_from_its_directory() {
    let loader = PluginLoader::new("/data/plugins".to_string());
    assert_eq!(loader.plugins_dir(), "/data/plugins");
    assert_eq!(loader.get_plugin_dir("goals"), "/data/plugins/goals");
    assert_eq!(
        loader.get_manifest_path("goals"),
        "/data/plugins/goals/plugin.toml"
    );
    assert_eq!(
        loader.library_path("goals", Platform::Linux),
        "/data/plugins/goals/libgoals.so"
    );
}

#[test]
fn archive_entries_escaping_the_destination_are_refused() {
    assert!(entry_is_confined("plugin.toml"));
    assert!(entry_is_confined("assets/icon.png"));
    assert!(!entry_is_confined(""));
    assert!(!entry_is_confined("/etc/passwd"));
    assert!(!entry_is_confined("../outside.txt"));
    assert!(!entry_is_confined("a/../../b"));
    assert!(!entry_is_confined("a\\b"));
    assert!(!entry_is_confined("c:evil"));
}

#[test]
fn archive_kinds_are_recognized_by_name() {
    assert_eq!(archive_kind("release.zip"), ArchiveKind::Zip);
    assert_eq!(archive_kind("release.tar.gz"), ArchiveKind::TarGz);
    assert_eq!(archive_kind("release.gz"), ArchiveKind::TarGz);
    assert_eq!(archive_kind("release.rar"), ArchiveKind::Unsupported);
    assert_eq!(archive_kind("zip"), ArchiveKind::Unsupported);
}
