use drillbit::config::Config;
use drillbit::manifest::{
    allowed_extension, check_extension, ConfigError, Entry, Manifest, Plugin, FILE_NAME,
};

fn local(key: &str, path: &str) -> Entry {
    Entry { key: key.to_string(), plugin: Plugin::Local(path.to_string()) }
}

#[test]
fn manifest_file_name_is_fixed() {
    assert_eq!(FILE_NAME, "drillbit.toml");
}

#[test]
fn the_four_extensions_are_allowed() {
    assert!(allowed_extension("rbxm"));
    assert!(allowed_extension("rbxmx"));
    assert!(allowed_extension("lua"));
    assert!(allowed_extension("luau"));
}

#[test]
fn other_extensions_are_not_allowed() {
    assert!(!allowed_extension("txt"));
    assert!(!allowed_extension(""));
    assert!(!allowed_extension("RBXM"));
    assert!(!allowed_extension("luau2"));
    assert!(!allowed_extension("lu"));
}

#[test]
fn check_extension_accepts_an_allowed_extension() {
    assert_eq!(check_extension("a", Some("lua".to_string())), Ok(()));
}

#[test]
fn check_extension_names_key_and_extension() {
    assert_eq!(
        check_extension("a", Some("exe".to_string())),
        Err(ConfigError::InvalidExtension { key: "a".to_string(), extension: "exe".to_string() })
    );
    assert_eq!(
        check_extension("b", None),
        Err(ConfigError::MissingExtension { key: "b".to_string() })
    );
}

#[test]
fn valid_manifest_is_read_in_order() {
    let manifest = Manifest::read(vec![
        local("a", "assets/x.rbxm"),
        Entry { key: "c".to_string(), plugin: Plugin::Cloud(12345) },
        Entry { key: "g".to_string(), plugin: Plugin::GitHub("https://example.com/p".to_string()) },
        local("s", "src/init.luau"),
    ])
    .unwrap();
    assert_eq!(manifest.len(), 4);
    assert_eq!(manifest.entry(0), &local("a", "assets/x.rbxm"));
    assert_eq!(manifest.entry(1).plugin, Plugin::Cloud(12345));
    assert_eq!(manifest.entry(3).key, "s");
}

#[test]
fn empty_manifest_is_valid() {
    let manifest = Manifest::read(Vec::new()).unwrap();
    assert_eq!(manifest.len(), 0);
}

#[test]
fn local_plugin_with_foreign_extension_is_refused() {
    let error = Manifest::read(vec![local("a", "assets/x.rbxm"), local("b", "notes/readme.txt")])
        .unwrap_err();
    assert_eq!(
        error,
        ConfigError::InvalidExtension { key: "b".to_string(), extension: "txt".to_string() }
    );
    assert_eq!(
        error.message(),
        "Plugin 'b' has invalid file extension 'txt'. Allowed extensions: rbxm, rbxmx, lua, luau"
    );
}

#[test]
fn local_plugin_without_extension_is_refused() {
    let error = Manifest::read(vec![local("tool", "bin/tool")]).unwrap_err();
    assert_eq!(error, ConfigError::MissingExtension { key: "tool".to_string() });
    assert_eq!(
        error.message(),
        "Plugin 'tool' must have a file extension. Allowed extensions: rbxm, rbxmx, lua, luau"
    );
}

#[test]
fn hidden_file_has_no_extension() {
    let error = Manifest::read(vec![local("h", "assets/.lua")]).unwrap_err();
    assert_eq!(error, ConfigError::MissingExtension { key: "h".to_string() });
}

#[test]
fn path_that_ends_in_parent_has_no_extension() {
    let error = Manifest::read(vec![local("p", "assets/x.lua/..")]).unwrap_err();
    assert_eq!(error, ConfigError::MissingExtension { key: "p".to_string() });
}

#[test]
fn extension_is_taken_from_the_last_component() {
    assert!(Manifest::read(vec![local("a", "v1.2/plugin.rbxmx")]).is_ok());
    assert!(Manifest::read(vec![local("a", "plugin.lua/.")]).is_ok());
    assert!(Manifest::read(vec![local("a", "dir.lua/plugin")]).is_err());
}

#[test]
fn repeated_key_is_refused() {
    let error = Manifest::read(vec![
        local("a", "x.lua"),
        Entry { key: "b".to_string(), plugin: Plugin::Cloud(1) },
        Entry { key: "a".to_string(), plugin: Plugin::Cloud(2) },
    ])
    .unwrap_err();
    assert_eq!(error, ConfigError::DuplicateKey { key: "a".to_string() });
    assert_eq!(error.message(), "Plugin 'a' is listed more than once");
}

#[test]
fn first_faulty_entry_decides_the_error() {
    let error = Manifest::read(vec![
        local("a", "x.lua"),
        local("b", "y"),
        local("c", "z.txt"),
        local("a", "w.lua"),
    ])
    .unwrap_err();
    assert_eq!(error, ConfigError::MissingExtension { key: "b".to_string() });
}

#[test]
fn repeated_key_comes_before_its_extension() {
    let error = Manifest::read(vec![local("a", "x.lua"), local("a", "y.txt")]).unwrap_err();
    assert_eq!(error, ConfigError::DuplicateKey { key: "a".to_string() });
}

#[test]
fn cloud_and_release_entries_are_not_judged_by_extension() {
    assert!(Manifest::read(vec![
        Entry { key: "c".to_string(), plugin: Plugin::Cloud(0) },
        Entry { key: "g".to_string(), plugin: Plugin::GitHub("https://example.com/a.zip".to_string()) },
    ])
    .is_ok());
}

#[test]
fn config_is_the_manifest() {
    let config: Config = Config::read(vec![local("a", "x.rbxm")]).unwrap();
    assert_eq!(config.len(), 1);
}

#[test]
fn duplicate_copies_a_plugin() {
    let plugin = Plugin::Local("a/b.lua".to_string());
    assert_eq!(plugin.duplicate(), plugin);
    assert_eq!(Plugin::Cloud(9).duplicate(), Plugin::Cloud(9));
    let release = Plugin::GitHub("https://example.com/x".to_string());
    assert_eq!(release.duplicate(), release);
}
