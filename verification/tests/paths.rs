use rhai_dylib::paths::{join_path, parent_of, set_extension, TargetPlatform};

#[test]
fn platform_extensions() {
    assert_eq!(TargetPlatform::Linux.extension(), "so");
    assert_eq!(TargetPlatform::Windows.extension(), "dll");
    assert_eq!(TargetPlatform::MacOs.extension(), "dylib");
}

#[test]
fn extension_is_appended_or_replaced() {
    assert_eq!(set_extension("mylib", "so"), "mylib.so");
    assert_eq!(set_extension("mylib.dll", "so"), "mylib.so");
    assert_eq!(set_extension("mylib.tar.gz", "so"), "mylib.tar.so");
    assert_eq!(set_extension("lib.", "so"), "lib.so");
    assert_eq!(set_extension("/usr/local/lib/mylib", "so"), "/usr/local/lib/mylib.so");
}

#[test]
fn a_leading_dot_is_no_extension() {
    assert_eq!(set_extension(".hidden", "so"), ".hidden.so");
    assert_eq!(set_extension("dir.v2/lib", "so"), "dir.v2/lib.so");
    assert_eq!(set_extension("dir.v2/.hidden", "so"), "dir.v2/.hidden.so");
}

#[test]
fn joining_never_doubles_the_separator() {
    assert_eq!(join_path("", "mylib"), "mylib");
    assert_eq!(join_path("scripts", "mylib"), "scripts/mylib");
    assert_eq!(join_path("scripts/", "mylib"), "scripts/mylib");
}

#[test]
fn parent_of_drops_the_file_name() {
    assert_eq!(parent_of("a/b/c.rhai"), Some("a/b".to_string()));
    assert_eq!(parent_of("main.rhai"), Some("".to_string()));
    assert_eq!(parent_of("/main.rhai"), Some("/".to_string()));
    assert_eq!(parent_of(""), None);
    assert_eq!(parent_of("/"), None);
}
