use turbopack_ecmascript_plugins::{PluginModuleCache, SwcPluginModule};

#[test]
fn identical_payload_compiles_once() {
    let mut cache = PluginModuleCache::new();
    let bytes = vec![0u8, 97, 115, 109, 1, 0, 0, 0];
    let first = cache.compile_or_get("plugin", bytes.clone());
    for _ in 0..5 {
        assert_eq!(cache.compile_or_get("plugin", bytes.clone()), first);
    }
    assert_eq!(cache.compile_count(), 1);
    assert_eq!(cache.get(first).get_module_name(), "plugin");
}

#[test]
fn distinct_names_or_bytes_compile_separately() {
    let mut cache = PluginModuleCache::new();
    let a = cache.compile_or_get("a", vec![1, 2]);
    let b = cache.compile_or_get("b", vec![1, 2]);
    let c = cache.compile_or_get("a", vec![1, 3]);
    assert_eq!(cache.compile_count(), 3);
    assert_ne!(a, b);
    assert_ne!(a, c);
    assert_eq!(cache.get(c).module_bytes(), &vec![1, 3]);
}

#[test]
fn module_keeps_name_and_bytes() {
    let m = SwcPluginModule::new("my-plugin", vec![9, 8, 7]);
    assert_eq!(m.get_module_name(), "my-plugin");
    let s = m.share();
    assert_eq!(s.get_module_name(), "my-plugin");
    assert_eq!(s.module_bytes(), &vec![9, 8, 7]);
}
