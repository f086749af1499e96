use std::path::Path;

use launcher_core::paths::{final_component, first_component, join};
use launcher_core::platform::Platform;
use launcher_core::roots::{collect_roots, RootEntrySet};

const SAMPLES: [&str; 34] = [
    "", "/", "//", ".", "..", "./", "../", "a", "a/", "a//", "/a", "//a", "a/b", "a//b", "a/./b",
    "a/b/", "a/b/.", "a/b/..", "./a/b", "../a", "/a/b/c.txt", "foo/bar/baz.txt", "a\\b", "a\\b/c",
    ".hidden", "a/.hidden", "/.", "/..", "./.", "a/./.", "bin", "/opt/jdk/bin/", "/opt/jdk/bin/java",
    "x/...",
];

#[test]
fn first_component_is_the_text_before_the_first_separator() {
    assert_eq!(first_component(Platform::Posix, "foo/bar/baz.txt"), Some("foo".to_string()));
    assert_eq!(first_component(Platform::Posix, "foo"), Some("foo".to_string()));
    assert_eq!(first_component(Platform::Posix, "foo/"), Some("foo".to_string()));
    assert_eq!(first_component(Platform::Posix, ""), None);
    assert_eq!(first_component(Platform::Posix, "/etc/passwd"), Some("/".to_string()));
    assert_eq!(first_component(Platform::Posix, "./x"), Some(".".to_string()));
    assert_eq!(first_component(Platform::Posix, "../x"), Some("..".to_string()));
    assert_eq!(first_component(Platform::Posix, "a\\b/c"), Some("a\\b".to_string()));
}

#[test]
fn first_component_on_windows_splits_at_both_separators() {
    assert_eq!(first_component(Platform::Windows, "a\\b/c"), Some("a".to_string()));
    assert_eq!(first_component(Platform::Windows, "a/b\\c"), Some("a".to_string()));
    assert_eq!(first_component(Platform::Windows, "\\x"), Some("\\".to_string()));
    assert_eq!(first_component(Platform::Windows, "/x"), Some("\\".to_string()));
}

#[test]
fn first_component_agrees_with_the_host_on_posix_paths() {
    for sample in SAMPLES {
        let host = Path::new(sample)
            .components()
            .next()
            .map(|c| c.as_os_str().to_string_lossy().into_owned());
        assert_eq!(first_component(Platform::Posix, sample), host, "{sample:?}");
    }
}

#[test]
fn final_component_passes_over_trailing_separators_and_dots() {
    assert_eq!(final_component(Platform::Posix, "/opt/jdk/bin"), Some("bin".to_string()));
    assert_eq!(final_component(Platform::Posix, "/opt/jdk/bin/"), Some("bin".to_string()));
    assert_eq!(final_component(Platform::Posix, "/opt/jdk/bin/."), Some("bin".to_string()));
    assert_eq!(final_component(Platform::Posix, "/opt/jdk/bin/.."), None);
    assert_eq!(final_component(Platform::Posix, "/"), None);
    assert_eq!(final_component(Platform::Posix, ""), None);
    assert_eq!(final_component(Platform::Posix, "."), None);
    assert_eq!(final_component(Platform::Posix, "java"), Some("java".to_string()));
    assert_eq!(final_component(Platform::Posix, "C:\\jdk\\bin"), Some("C:\\jdk\\bin".to_string()));
    assert_eq!(final_component(Platform::Windows, "C:\\jdk\\bin"), Some("bin".to_string()));
    assert_eq!(final_component(Platform::Windows, "C:\\jdk\\bin\\"), Some("bin".to_string()));
    assert_eq!(final_component(Platform::Windows, "C:/jdk/bin/java.exe"), Some("java.exe".to_string()));
}

#[test]
fn final_component_agrees_with_the_host_on_posix_paths() {
    for sample in SAMPLES {
        let host = Path::new(sample).file_name().map(|n| n.to_string_lossy().into_owned());
        assert_eq!(final_component(Platform::Posix, sample), host, "{sample:?}");
    }
}

#[test]
fn join_puts_one_separator_between_base_and_rest() {
    assert_eq!(join(Platform::Posix, "/tmp/out", "a/b"), "/tmp/out/a/b");
    assert_eq!(join(Platform::Posix, "/tmp/out/", "a/b"), "/tmp/out/a/b");
    assert_eq!(join(Platform::Posix, "", "a/b"), "a/b");
    assert_eq!(join(Platform::Posix, "/tmp/out", ""), "/tmp/out/");
    assert_eq!(join(Platform::Posix, "/tmp/out", "/abs"), "/abs");
    assert_eq!(join(Platform::Posix, "rel", "../x"), "rel/../x");
    assert_eq!(join(Platform::Windows, "C:\\Java", "bin/java.exe"), "C:\\Java\\bin/java.exe");
    assert_eq!(join(Platform::Windows, "C:\\Java\\", "bin/java.exe"), "C:\\Java\\bin/java.exe");
    assert_eq!(join(Platform::Windows, "C:/Java/", "bin"), "C:/Java/bin");
    assert_eq!(join(Platform::Windows, "C:\\Java", "\\abs"), "\\abs");
}

#[test]
fn join_agrees_with_the_host_on_posix_paths() {
    for base in SAMPLES {
        for rest in SAMPLES {
            let host = Path::new(base).join(rest).to_string_lossy().into_owned();
            assert_eq!(join(Platform::Posix, base, rest), host, "{base:?} {rest:?}");
        }
    }
}

#[test]
fn root_set_keeps_each_name_once() {
    let mut roots = RootEntrySet::new();
    assert_eq!(roots.len(), 0);
    assert_eq!(roots.label("/dest"), "/dest");
    roots.insert("app".to_string());
    assert_eq!(roots.len(), 1);
    assert!(roots.contains("app"));
    assert!(!roots.contains("other"));
    assert_eq!(roots.label("/dest"), "app");
    roots.insert("app".to_string());
    assert_eq!(roots.len(), 1);
    assert_eq!(roots.label("/dest"), "app");
    roots.insert("other".to_string());
    assert_eq!(roots.len(), 2);
    assert_eq!(roots.label("/dest"), "/dest");
    assert!(roots.contains("app") && roots.contains("other"));
}

#[test]
fn roots_are_the_distinct_first_components() {
    let names: Vec<String> =
        ["a/x", "b/y", "a/z", "", "b", "c/"].iter().map(|s| s.to_string()).collect();
    let roots = collect_roots(Platform::Posix, &names);
    assert_eq!(roots.len(), 3);
    assert!(roots.contains("a") && roots.contains("b") && roots.contains("c"));
    assert!(!roots.contains("") && !roots.contains("a/x"));
    let none = collect_roots(Platform::Posix, &Vec::new());
    assert_eq!(none.len(), 0);
}
