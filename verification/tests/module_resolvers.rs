use rhai_dylib::loader::LoadOutcome;
use rhai_dylib::module_resolvers::{DylibModuleResolver, ResolveAction, ResolveError};
use rhai_dylib::paths::TargetPlatform;

#[test]
fn new() {
    let mut r = DylibModuleResolver::new();
    let rp = DylibModuleResolver::with_path("./scripts");

    r.enable_cache(false);
    assert!(!r.is_cache_enabled());
    assert!(rp.is_cache_enabled());
}

#[test]
fn file_path_resolution() {
    let mut r = DylibModuleResolver::new();

    let relative = r.get_file_path("mylib", None);
    assert_eq!(relative, "mylib.so");
    r.set_platform(TargetPlatform::Windows);
    let relative = r.get_file_path("mylib", None);
    assert_eq!(relative, "mylib.dll");
    r.set_platform(TargetPlatform::MacOs);
    let relative = r.get_file_path("mylib", None);
    assert_eq!(relative, "mylib.dylib");

    r.set_platform(TargetPlatform::Linux);
    let source = r.get_file_path("mylib", Some("source"));
    assert_eq!(source, "source/mylib.so");
    r.set_platform(TargetPlatform::Windows);
    let source = r.get_file_path("mylib", Some("source"));
    assert_eq!(source, "source/mylib.dll");
    r.set_platform(TargetPlatform::MacOs);
    let source = r.get_file_path("mylib", Some("source"));
    assert_eq!(source, "source/mylib.dylib");
}

#[test]
fn file_path_resolution_with_path() {
    let mut rp = DylibModuleResolver::with_path("scripts");

    let relative = rp.get_file_path("mylib", None);
    assert_eq!(relative, "scripts/mylib.so");
    rp.set_platform(TargetPlatform::Windows);
    let relative = rp.get_file_path("mylib", None);
    assert_eq!(relative, "scripts/mylib.dll");
    rp.set_platform(TargetPlatform::MacOs);
    let relative = rp.get_file_path("mylib", None);
    assert_eq!(relative, "scripts/mylib.dylib");

    rp.set_platform(TargetPlatform::Linux);
    let absolute = rp.get_file_path("/usr/local/lib/mylib", None);
    assert_eq!(absolute, "/usr/local/lib/mylib.so");
}

#[test]
fn base_path_with_trailing_context() {
    let rp = DylibModuleResolver::with_path("./scripts");
    assert_eq!(rp.get_file_path("mylib", None), "./scripts/mylib.so");
    let rp = DylibModuleResolver::with_path("scripts/");
    assert_eq!(rp.get_file_path("mylib", None), "scripts/mylib.so");
}

#[test]
fn base_path_takes_precedence_over_source() {
    let rp = DylibModuleResolver::with_path("scripts");
    let p = rp.get_file_path("mylib", Some("source"));
    assert_eq!(p, "scripts/mylib.so");
}

#[test]
fn existing_extension_is_replaced() {
    let r = DylibModuleResolver::new();
    let p = r.get_file_path("mylib.tar.gz", None);
    assert_eq!(p, "mylib.tar.so");
}

#[test]
fn missing_file_fails_as_module_not_found() {
    let r = DylibModuleResolver::new();
    match r.begin_resolve(None, "surely/missing/rhai/import") {
        ResolveAction::NotFound(p) => assert_eq!(p, "surely/missing/rhai/import.so"),
        ResolveAction::Cached(_) => panic!("nothing was ever cached"),
        ResolveAction::Load(_) => panic!("a missing file must not be loaded"),
    }
}

#[test]
fn import_is_resolved_relative_to_the_importing_source() {
    let r = DylibModuleResolver::new();
    match r.begin_resolve(Some("scripts/main.rhai"), "mylib") {
        ResolveAction::NotFound(p) => assert_eq!(p, "scripts/mylib.so"),
        _ => panic!("the canonical path does not exist"),
    }
}

#[test]
fn existing_file_is_asked_to_load() {
    let r = DylibModuleResolver::new();
    match r.begin_resolve(None, "/usr/lib/x86_64-linux-gnu/libBrokenLocale") {
        ResolveAction::Load(p) => assert_eq!(p, "/usr/lib/x86_64-linux-gnu/libBrokenLocale.so"),
        ResolveAction::NotFound(p) => panic!("file should exist: {p}"),
        ResolveAction::Cached(_) => panic!("nothing was ever cached"),
    }
}

#[test]
fn cache_disabled_resolver_asks_to_load_every_time() {
    let mut r = DylibModuleResolver::new();
    r.enable_cache(false);
    for _ in 0..2 {
        match r.begin_resolve(None, "/usr/lib/x86_64-linux-gnu/libBrokenLocale") {
            ResolveAction::Load(p) => {
                assert_eq!(p, "/usr/lib/x86_64-linux-gnu/libBrokenLocale.so")
            }
            _ => panic!("a cache-disabled resolver must always load"),
        }
    }
}

#[test]
fn decision_follows_the_disk_probe() {
    let r = DylibModuleResolver::new();
    match r.decide_resolution("plugins/mylib.so".to_string(), false) {
        ResolveAction::NotFound(p) => assert_eq!(p, "plugins/mylib.so"),
        _ => panic!("an absent file must be reported missing"),
    }
    match r.decide_resolution("plugins/mylib.so".to_string(), true) {
        ResolveAction::Load(p) => assert_eq!(p, "plugins/mylib.so"),
        _ => panic!("a present, uncached file must be loaded"),
    }
}

#[test]
fn failed_load_reports_the_attempted_path() {
    let mut r = DylibModuleResolver::new();
    let outcome = LoadOutcome::OpenFailed("not a shared object".to_string());
    match r.finish_resolve("plugins/broken.so".to_string(), outcome) {
        Err(ResolveError::Loading(d)) => {
            assert_eq!(d, "failed to load library at plugins/broken.so: not a shared object")
        }
        Err(_) => panic!("an open failure is a loading error"),
        Ok(_) => panic!("an open failure cannot yield a module"),
    }
}
