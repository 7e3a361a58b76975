use rhai_dylib::loader::{self, LoadOutcome, LoaderError, MODULE_ENTRYPOINT};
use rhai_dylib::plugin_loader::{self, PluginLoaderError};

#[test]
fn entrypoint_symbol_name_is_fixed() {
    assert_eq!(MODULE_ENTRYPOINT, "module_entrypoint");
}

#[test]
fn open_failure_leaves_the_loader_untouched() {
    let mut loader = loader::Libloading::new();
    assert_eq!(loader.library_count(), 0);

    let outcome = LoadOutcome::OpenFailed("cannot open".to_string());
    match loader.finish_load("plugins/a.so", outcome) {
        Err(LoaderError::Loading(d)) => {
            assert_eq!(d, "failed to load library at plugins/a.so: cannot open")
        }
        Ok(_) => panic!("an open failure cannot yield a module"),
    }
    assert_eq!(loader.library_count(), 0);
}

#[test]
fn failed_load_adds_no_plugin_to_the_registry() {
    let mut registry = plugin_loader::Libloading::new();

    let outcome = LoadOutcome::OpenFailed("no such file".to_string());
    match registry.finish_load("plugins/b.so", outcome) {
        Err(PluginLoaderError::Loading(d)) => {
            assert_eq!(d, "failed to load library at plugins/b.so: no such file")
        }
        Ok(_) => panic!("an open failure cannot yield a module"),
    }
    assert_eq!(registry.plugin_count(), 0);
    assert_eq!(registry.library_count(), 0);
}

#[test]
fn applying_an_empty_registry_changes_nothing() {
    let registry = plugin_loader::Libloading::new();
    let mut engine = rhai::Engine::new();
    registry.apply(&mut engine).expect("applying no plugins cannot fail");

    let v: i64 = engine.eval("40 + 2").expect("the engine still evaluates");
    assert_eq!(v, 42);
}
