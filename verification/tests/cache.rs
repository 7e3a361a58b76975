use rhai_dylib::module_resolvers::ModuleCache;

#[test]
fn cache_returns_the_identical_module() {
    let mut cache = ModuleCache::new();
    let module: rhai::Shared<rhai::Module> = rhai::Shared::new(rhai::Module::new());
    cache.insert("plugins/mylib.so".to_string(), module.clone());

    let got = cache.get(&"plugins/mylib.so".to_string()).expect("entry was just inserted");
    assert!(rhai::Shared::ptr_eq(&module, &got), "cache must hand back the same object");

    let again = cache.get(&"plugins/mylib.so".to_string()).expect("entries are never evicted");
    assert!(rhai::Shared::ptr_eq(&module, &again));
}

#[test]
fn cache_misses_on_other_keys() {
    let mut cache = ModuleCache::new();
    assert!(cache.get(&"anything.so".to_string()).is_none());
    cache.insert("a.so".to_string(), rhai::Shared::new(rhai::Module::new()));
    assert!(cache.get(&"b.so".to_string()).is_none());
}

#[test]
fn cache_answers_the_newest_entry_for_a_key() {
    let mut cache = ModuleCache::new();
    let first: rhai::Shared<rhai::Module> = rhai::Shared::new(rhai::Module::new());
    let second: rhai::Shared<rhai::Module> = rhai::Shared::new(rhai::Module::new());
    cache.insert("a.so".to_string(), first.clone());
    cache.insert("a.so".to_string(), second.clone());

    let got = cache.get(&"a.so".to_string()).expect("entry exists");
    assert!(rhai::Shared::ptr_eq(&second, &got));
    assert!(!rhai::Shared::ptr_eq(&first, &got));
}
