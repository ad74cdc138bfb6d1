use minidump_bridge::config::{
    provider_plan, resolve_brief, resolve_symbol_options, ProviderPlan, SymbolOptions,
    DEFAULT_TIMEOUT_SECS,
};
use minidump_bridge::providers::build_provider;

fn options(
    urls: Vec<&str>,
    paths: Vec<&str>,
    cache: Option<&str>,
    temp: Option<&str>,
    timeout: Option<u64>,
) -> SymbolOptions {
    SymbolOptions {
        symbol_urls: urls.into_iter().map(|s| s.to_owned()).collect(),
        symbol_paths: paths.into_iter().map(|s| s.to_owned()).collect(),
        symbols_cache: cache.map(|s| s.to_owned()),
        symbols_temp: temp.map(|s| s.to_owned()),
        timeout_secs: timeout,
    }
}

#[test]
fn empty_options_fall_back_to_platform_defaults() {
    let r = resolve_symbol_options(options(vec![], vec![], None, None, None), "/tmp");
    assert_eq!(r.symbols_cache, "/tmp/rust-minidump-cache");
    assert_eq!(r.symbols_temp, "/tmp");
    assert_eq!(r.timeout_secs, DEFAULT_TIMEOUT_SECS);
    assert_eq!(r.timeout_secs, 1000);
    assert!(r.symbol_urls.is_empty());
    assert!(r.symbol_paths.is_empty());
}

#[test]
fn given_options_are_kept_verbatim() {
    let r = resolve_symbol_options(
        options(
            vec!["https://symbols.example"],
            vec!["/syms"],
            Some("/cache"),
            Some("/scratch"),
            Some(30),
        ),
        "/tmp",
    );
    assert_eq!(r.symbol_urls, vec!["https://symbols.example".to_owned()]);
    assert_eq!(r.symbol_paths, vec!["/syms".to_owned()]);
    assert_eq!(r.symbols_cache, "/cache");
    assert_eq!(r.symbols_temp, "/scratch");
    assert_eq!(r.timeout_secs, 30);
}

#[test]
fn urls_take_precedence_over_paths() {
    let both = resolve_symbol_options(
        options(vec!["https://a"], vec!["/syms"], None, None, None),
        "/tmp",
    );
    assert_eq!(provider_plan(&both), ProviderPlan::RemoteWithLocal);

    let paths_only =
        resolve_symbol_options(options(vec![], vec!["/syms"], None, None, None), "/tmp");
    assert_eq!(provider_plan(&paths_only), ProviderPlan::LocalOnly);

    let nothing = resolve_symbol_options(options(vec![], vec![], None, None, None), "/tmp");
    assert_eq!(provider_plan(&nothing), ProviderPlan::NoSymbols);
}

#[test]
fn empty_configuration_builds_a_provider_without_failing() {
    let r = resolve_symbol_options(options(vec![], vec![], None, None, None), "/tmp");
    let _provider = build_provider(r);
}

#[test]
fn local_only_configuration_builds_a_provider() {
    let r = resolve_symbol_options(options(vec![], vec!["/syms"], None, None, None), "/tmp");
    let _provider = build_provider(r);
}

#[test]
fn remote_configuration_builds_a_provider() {
    let r = resolve_symbol_options(
        options(
            vec!["https://symbols.example"],
            vec!["/syms"],
            Some("/tmp/cache"),
            Some("/tmp"),
            Some(5),
        ),
        "/tmp",
    );
    let _provider = build_provider(r);
}

#[test]
fn brief_defaults_to_verbose() {
    assert!(!resolve_brief(None));
    assert!(resolve_brief(Some(true)));
    assert!(!resolve_brief(Some(false)));
}
