use drillbit::backends::LocalBackend;
use drillbit::manifest::{allowed_extension, ConfigError, Entry, Manifest, Plugin};
use relative_path::RelativePath;

/// The file name of a relative path by the rule the library states: empty
/// pieces and `.` are passed over from the back, `..` has no name.
fn file_name_by_rule(path: &str) -> Option<String> {
    let mut chars: Vec<char> = path.chars().collect();
    loop {
        match chars.last() {
            None => return None,
            Some('/') => {
                chars.pop();
            }
            Some(_) => {
                let start = chars.iter().rposition(|c| *c == '/').map_or(0, |i| i + 1);
                let component: String = chars[start..].iter().collect();
                if component == "." {
                    chars.pop();
                } else if component == ".." {
                    return None;
                } else {
                    return Some(component);
                }
            }
        }
    }
}

/// The extension of a file name by the rule the library states.
fn extension_by_rule(name: &str) -> Option<String> {
    let chars: Vec<char> = name.chars().collect();
    match chars.iter().rposition(|c| *c == '.') {
        None | Some(0) => None,
        Some(_) if name == ".." => None,
        Some(dot) => Some(chars[dot + 1..].iter().collect()),
    }
}

fn chosen_paths() -> Vec<String> {
    let paths = [
        "", "/", "//", ".", "..", "./", "../", "./.", "./..", "../.", "a", "a/", "a//", "a/.",
        "a/./", "a/./.", "a/..", "a/../", "a/../.", "a/b", "a//b", "/a", "/a/b/", "usr/bin/",
        "tmp/foo.txt", "tmp/foo.txt/", "foo.txt/.", "foo.txt/.//", "foo.txt/..", "foo.rs", ".rs",
        "foo.rs/.", "a.", "a..", "..a", "...", "....", ".a.b", "a.b.c", "dir.lua/plugin",
        "v1.2/plugin.rbxmx", "assets/x.rbxm", "src/init.luau", "é/ü.lua", "a\\b.lua", "c:/x.lua",
        "a/ /b.lua", " ", "a/.b", "a/b.", "a/.../b", "a/..b/", "x/./y/../z.lua",
    ];
    paths.iter().map(|p| p.to_string()).collect()
}

/// Every string of up to six characters over `a`, `.` and `/`.
fn short_paths() -> Vec<String> {
    let mut all = vec![String::new()];
    let mut last = vec![String::new()];
    for _ in 0..6 {
        let mut next = Vec::new();
        for path in &last {
            for c in ['a', '.', '/'] {
                let mut longer = path.clone();
                longer.push(c);
                next.push(longer);
            }
        }
        all.extend(next.iter().cloned());
        last = next;
    }
    all
}

fn every_path() -> Vec<String> {
    let mut paths = chosen_paths();
    paths.extend(short_paths());
    paths
}

#[test]
fn file_name_rule_is_that_of_relative_path() {
    for path in every_path() {
        assert_eq!(
            file_name_by_rule(&path).as_deref(),
            RelativePath::new(&path).file_name(),
            "file name of {path:?}"
        );
    }
}

#[test]
fn extension_rule_is_that_of_relative_path() {
    for path in every_path() {
        let by_rule = file_name_by_rule(&path).and_then(|name| extension_by_rule(&name));
        assert_eq!(by_rule.as_deref(), RelativePath::new(&path).extension(), "extension of {path:?}");
    }
}

#[test]
fn local_stem_holds_the_file_name() {
    let backend = LocalBackend;
    for path in every_path() {
        let expected = file_name_by_rule(&path).map(|name| format!("proj_{name}"));
        assert_eq!(
            backend.try_plugin_id(&Plugin::Local(path.clone()), "key", "proj"),
            expected,
            "stem of {path:?}"
        );
    }
}

#[test]
fn manifest_judges_by_the_extension() {
    for path in every_path() {
        let entry = Entry { key: "k".to_string(), plugin: Plugin::Local(path.clone()) };
        let expected = match file_name_by_rule(&path).and_then(|name| extension_by_rule(&name)) {
            None => Some(ConfigError::MissingExtension { key: "k".to_string() }),
            Some(extension) if allowed_extension(&extension) => None,
            Some(extension) => {
                Some(ConfigError::InvalidExtension { key: "k".to_string(), extension })
            }
        };
        assert_eq!(Manifest::read(vec![entry]).err(), expected, "verdict on {path:?}");
    }
}

#[test]
fn documented_file_names() {
    let backend = LocalBackend;
    let stem = |path: &str| backend.try_plugin_id(&Plugin::Local(path.to_string()), "k", "c");
    assert_eq!(stem("usr/bin/"), Some("c_bin".to_string()));
    assert_eq!(stem("tmp/foo.txt"), Some("c_foo.txt".to_string()));
    assert_eq!(stem("tmp/foo.txt/"), Some("c_foo.txt".to_string()));
    assert_eq!(stem("foo.txt/."), Some("c_foo.txt".to_string()));
    assert_eq!(stem("foo.txt/.//"), Some("c_foo.txt".to_string()));
    assert_eq!(stem("foo.txt/.."), None);
    assert_eq!(stem("/"), None);
}
