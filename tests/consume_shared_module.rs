use consume_shared::consume_shared_module::{
    loader_args, loader_call, loader_function, AsyncDependenciesBlockId, BuildContext,
    ConsumeSharedModule, DependencyId, FactoryRequest, ModuleFactory, ModuleType, SourceType,
};
use consume_shared::fingerprint::{HashConfig, HashFunction};
use consume_shared::options::ConsumeOptions;
use consume_shared::runtime_globals::{RuntimeGlobals, ENSURE_CHUNK, REQUIRE, SHARE_SCOPE_MAP};
use std::collections::hash_map::DefaultHasher;
use std::hash::{Hash, Hasher};

fn options(
    required_version: Option<&str>,
    strict_version: bool,
    singleton: bool,
    import: Option<&str>,
    eager: bool,
) -> ConsumeOptions {
    ConsumeOptions {
        import: import.map(|s| s.to_string()),
        import_resolved: import.map(|s| format!("/abs/{s}")),
        share_key: "k".to_string(),
        share_scope: "s".to_string(),
        required_version: required_version.map(|s| s.to_string()),
        strict_version,
        singleton,
        eager,
    }
}

fn config() -> BuildContext {
    BuildContext { output: HashConfig { function: HashFunction::Xxhash64, salt: None } }
}

fn hash_of(m: &ConsumeSharedModule) -> u64 {
    let mut h = DefaultHasher::new();
    m.hash(&mut h);
    h.finish()
}

#[test]
fn loader_function_name_table() {
    let cases = [
        (None, false, false, "loaders.load"),
        (None, false, true, "loaders.loadSingleton"),
        (Some("1.0.0"), false, false, "loaders.loadVersionCheck"),
        (Some("1.0.0"), true, false, "loaders.loadStrictVersionCheck"),
        (Some("1.0.0"), true, true, "loaders.loadStrictSingletonVersionCheck"),
    ];
    for (version, strict, singleton, expected) in cases {
        let o = options(version, strict, singleton, None, false);
        assert_eq!(loader_function(&o), expected);
    }
}

#[test]
fn strict_without_version_adds_nothing() {
    let o = options(None, true, false, None, false);
    assert_eq!(loader_function(&o), "loaders.load");
    let o = options(Some("1.0.0"), false, true, None, false);
    assert_eq!(loader_function(&o), "loaders.loadSingletonVersionCheck");
}

#[test]
fn loader_args_quote_scope_key_and_range() {
    let o = options(Some("^1.0.0"), false, false, None, false);
    assert_eq!(
        loader_args(&o),
        vec![
            "\"s\"".to_string(),
            "\"k\"".to_string(),
            "loaders.parseRange(\"\\\"^1.0.0\\\"\")".to_string(),
        ]
    );
    let o = options(None, false, false, None, false);
    assert_eq!(loader_args(&o), vec!["\"s\"".to_string(), "\"k\"".to_string()]);
}

#[test]
fn loader_args_escape_json() {
    let mut o = options(Some("a\nb"), false, false, None, false);
    o.share_scope = "a\"b\\c".to_string();
    o.share_key = "x\ny\t\u{1}".to_string();
    assert_eq!(
        loader_args(&o),
        vec![
            "\"a\\\"b\\\\c\"".to_string(),
            "\"x\\ny\\t\\u0001\"".to_string(),
            "loaders.parseRange(\"\\\"a\\\\nb\\\"\")".to_string(),
        ]
    );
}

#[test]
fn identifier_text() {
    let m = ConsumeSharedModule::new("/ctx".to_string(), options(Some("^2"), true, true, Some("lib"), true));
    assert_eq!(
        m.identifier(),
        "consume shared module (s) k@^2 (strict) (strict) (fallback: /abs/lib) (eager)"
    );
    assert_eq!(m.readable_identifier(&"/other".to_string()), m.identifier());
    assert_eq!(m.lib_ident(), Some("sharing/consume/s/k/lib".to_string()));
    let m = ConsumeSharedModule::new("/ctx".to_string(), options(None, false, false, None, false));
    assert_eq!(m.identifier(), "consume shared module (s) k@*");
    assert_eq!(m.lib_ident(), Some("sharing/consume/s/k".to_string()));
    assert_eq!(m.get_context(), Some("/ctx".to_string()));
    assert_eq!(m.module_type(), ModuleType::ConsumeShared);
    assert_eq!(m.source_types(), vec![SourceType::ConsumeShared]);
}

#[test]
fn equal_options_give_equal_identity() {
    let a = ConsumeSharedModule::new("/a".to_string(), options(Some("1"), true, false, Some("x"), false));
    let b = ConsumeSharedModule::new("/b".to_string(), options(Some("1"), true, false, Some("x"), false));
    assert_eq!(a.identifier(), b.identifier());
    assert_eq!(a.lib_ident(), b.lib_ident());
    assert_eq!(a.readable_identifier(&String::new()), b.readable_identifier(&String::new()));
}

#[test]
fn distinct_options_give_distinct_identity() {
    let corpus = [
        options(None, false, false, None, false),
        options(Some("1.0.0"), false, false, None, false),
        options(Some("2.0.0"), false, false, None, false),
        options(Some("1.0.0"), true, false, None, false),
        options(None, false, false, Some("lib"), false),
        options(None, false, false, Some("lib"), true),
        options(None, false, false, None, true),
    ];
    let ids: Vec<String> = corpus
        .into_iter()
        .map(|o| ConsumeSharedModule::new(String::new(), o).identifier())
        .collect();
    for i in 0..ids.len() {
        for j in 0..i {
            assert_ne!(ids[i], ids[j]);
        }
    }
}

#[test]
fn build_without_import_has_no_edges() {
    let mut m = ConsumeSharedModule::new(String::new(), options(Some("1"), false, false, None, true));
    let r = m.build(&config());
    assert!(r.dependencies.is_empty());
    assert!(r.blocks.is_empty());
    assert!(r.build_info.hash.is_some());
    assert_eq!(m.build_info.as_ref().unwrap().hash, r.build_info.hash);
}

#[test]
fn eager_build_has_one_direct_edge() {
    let mut m = ConsumeSharedModule::new(String::new(), options(None, false, false, Some("lib"), true));
    let r = m.build(&config());
    assert_eq!(r.dependencies.len(), 1);
    assert_eq!(r.dependencies[0].request, "lib");
    assert!(r.blocks.is_empty());
}

#[test]
fn lazy_build_has_one_deferred_block() {
    let mut m = ConsumeSharedModule::new(String::new(), options(None, false, false, Some("lib"), false));
    let r = m.build(&config());
    assert!(r.dependencies.is_empty());
    assert_eq!(r.blocks.len(), 1);
    assert_eq!(r.blocks[0].parent, m.identifier());
    assert_eq!(r.blocks[0].dependencies.len(), 1);
    assert_eq!(r.blocks[0].dependencies[0].request, "lib");
}

#[test]
fn fingerprint_is_stable() {
    for function in [HashFunction::Xxhash64, HashFunction::Md4, HashFunction::Sha256] {
        let ctx = BuildContext { output: HashConfig { function, salt: Some("salt".to_string()) } };
        let mut a = ConsumeSharedModule::new(String::new(), options(Some("1"), true, true, Some("x"), false));
        let mut b = ConsumeSharedModule::new(String::new(), options(Some("1"), true, true, Some("x"), false));
        let ha = a.build(&ctx).build_info.hash;
        let ha2 = a.build(&ctx).build_info.hash;
        let hb = b.build(&ctx).build_info.hash;
        assert_eq!(ha, ha2);
        assert_eq!(ha, hb);
    }
}

#[test]
fn fingerprint_is_hex_of_the_hash_width() {
    let mut m = ConsumeSharedModule::new(String::new(), options(None, false, false, None, false));
    let x = m.build(&config()).build_info.hash.unwrap();
    assert_eq!(x.len(), 16);
    assert!(x.chars().all(|c| c.is_ascii_hexdigit()));
    let md4 = BuildContext { output: HashConfig { function: HashFunction::Md4, salt: None } };
    assert_eq!(m.build(&md4).build_info.hash.unwrap().len(), 32);
    let sha = BuildContext { output: HashConfig { function: HashFunction::Sha256, salt: None } };
    assert_eq!(m.build(&sha).build_info.hash.unwrap().len(), 64);
}

#[test]
fn fingerprint_changes_with_each_field() {
    let base = || options(Some("1"), false, false, Some("x"), false);
    let fingerprint = |o: ConsumeOptions| {
        let mut m = ConsumeSharedModule::new(String::new(), o);
        m.build(&config()).build_info.hash.unwrap()
    };
    let h = fingerprint(base());
    let mut changed = Vec::new();
    let mut o = base();
    o.share_scope = "t".to_string();
    changed.push(o);
    let mut o = base();
    o.share_key = "j".to_string();
    changed.push(o);
    let mut o = base();
    o.required_version = Some("2".to_string());
    changed.push(o);
    let mut o = base();
    o.required_version = None;
    changed.push(o);
    let mut o = base();
    o.strict_version = true;
    changed.push(o);
    let mut o = base();
    o.singleton = true;
    changed.push(o);
    let mut o = base();
    o.import_resolved = Some("/elsewhere".to_string());
    changed.push(o);
    let mut o = base();
    o.eager = true;
    changed.push(o);
    for o in changed {
        assert_ne!(fingerprint(o), h);
    }
    let salted = BuildContext { output: HashConfig { function: HashFunction::Xxhash64, salt: Some("x".to_string()) } };
    let mut m = ConsumeSharedModule::new(String::new(), base());
    assert_ne!(m.build(&salted).build_info.hash.unwrap(), h);
}

#[test]
fn fallback_request_follows_eager() {
    let mut m = ConsumeSharedModule::new(String::new(), options(None, false, false, Some("lib"), true));
    m.add_dependency_id(DependencyId { id: 7 });
    assert_eq!(m.get_dependencies(), &[DependencyId { id: 7 }]);
    match m.fallback_factory_request() {
        Some(FactoryRequest::Sync { dependency, request }) => {
            assert_eq!(dependency, DependencyId { id: 7 });
            assert_eq!(request, "lib");
        }
        _ => panic!("expected a synchronous factory"),
    }
    let mut m = ConsumeSharedModule::new(String::new(), options(None, false, false, Some("lib"), false));
    m.add_block_id(AsyncDependenciesBlockId { id: 3 });
    assert_eq!(m.get_blocks(), &[AsyncDependenciesBlockId { id: 3 }]);
    match m.fallback_factory_request() {
        Some(FactoryRequest::Async { block, request }) => {
            assert_eq!(block, AsyncDependenciesBlockId { id: 3 });
            assert_eq!(request, "lib");
        }
        _ => panic!("expected an asynchronous factory"),
    }
    let m = ConsumeSharedModule::new(String::new(), options(None, false, false, None, false));
    assert!(m.fallback_factory_request().is_none());
}

#[test]
fn code_generation_requires_share_scope_map() {
    let m = ConsumeSharedModule::new(String::new(), options(Some("1.0.0"), true, true, None, false));
    let r = m.code_generation(None);
    assert_eq!(r.runtime_requirements.bits, SHARE_SCOPE_MAP);
    assert!(r.runtime_requirements.contains(SHARE_SCOPE_MAP));
    assert_eq!(r.loader.function, "loaders.loadStrictSingletonVersionCheck");
    assert_eq!(r.data.share_scope, "s");
    assert_eq!(r.data.share_key, "k");
    assert_eq!(r.data.required_version, Some("1.0.0".to_string()));
    assert!(r.data.strict_version && r.data.singleton && !r.data.eager);
    assert_eq!(r.data.import, None);
    assert_eq!(r.data.fallback, None);
}

#[test]
fn code_generation_merges_factory_requirements() {
    let m = ConsumeSharedModule::new(String::new(), options(None, false, true, Some("lib"), false));
    let factory = ModuleFactory {
        expression: "() => load()".to_string(),
        runtime_requirements: RuntimeGlobals { bits: REQUIRE | ENSURE_CHUNK },
    };
    let r = m.code_generation(Some(factory));
    assert!(r.runtime_requirements.contains(SHARE_SCOPE_MAP));
    assert!(r.runtime_requirements.contains(REQUIRE | ENSURE_CHUNK));
    assert_eq!(r.runtime_requirements.bits, SHARE_SCOPE_MAP | REQUIRE | ENSURE_CHUNK);
    assert_eq!(r.data.fallback, Some("() => load()".to_string()));
    assert_eq!(r.data.import, Some("lib".to_string()));
    assert_eq!(r.loader.function, "loaders.loadSingleton");
}

#[test]
fn loader_call_matches_parts() {
    let o = options(Some("1"), false, true, None, false);
    let c = loader_call(&o);
    assert_eq!(c.function, loader_function(&o));
    assert_eq!(c.args, loader_args(&o));
}

#[test]
fn equality_and_hash_follow_identity() {
    let a = ConsumeSharedModule::new("/a".to_string(), options(Some("1"), false, false, Some("x"), false));
    let b = ConsumeSharedModule::new("/b".to_string(), options(Some("1"), false, false, Some("x"), false));
    let c = ConsumeSharedModule::new("/a".to_string(), options(Some("2"), false, false, Some("x"), false));
    assert!(a == b);
    assert_eq!(hash_of(&a), hash_of(&b));
    assert!(a != c);
    let strict = ConsumeSharedModule::new(String::new(), options(Some("1"), true, false, None, false));
    let single = ConsumeSharedModule::new(String::new(), options(Some("1"), false, true, None, false));
    assert!(strict == single);
    assert_eq!(hash_of(&strict), hash_of(&single));
}

#[test]
fn runtime_globals_insert() {
    let mut g = RuntimeGlobals::empty();
    assert!(!g.contains(REQUIRE));
    g.insert(REQUIRE);
    assert!(g.contains(REQUIRE));
    assert!(!g.contains(SHARE_SCOPE_MAP));
}
