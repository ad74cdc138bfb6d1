//! Per-request symbol configuration and its defaulting rules.
//!
//! A request supplies zero or more remote symbol-server URLs, zero or more
//! local symbol directories, and optionally a cache directory, a scratch
//! directory and a fetch timeout.  Missing entries fall back to fixed
//! defaults built from the platform's temporary directory, which the
//! (unverified) caller side supplies as a plain string.

use vstd::prelude::*;

verus! {

/// Default fetch timeout, in seconds.
pub const DEFAULT_TIMEOUT_SECS: u64 = 1000;

/// Subfolder of the platform temporary directory used as the default
/// on-disk symbol cache.
pub open spec fn default_cache_subdir() -> Seq<char> {
    "/rust-minidump-cache"@
}

/// Symbol options exactly as the caller gave them, gaps and all.
pub struct SymbolOptions {
    pub symbol_urls: Vec<String>,
    pub symbol_paths: Vec<String>,
    pub symbols_cache: Option<String>,
    pub symbols_temp: Option<String>,
    pub timeout_secs: Option<u64>,
}

/// Symbol options with every gap filled: what the symbol suppliers are
/// actually built from.
pub struct ResolvedSymbolConfig {
    pub symbol_urls: Vec<String>,
    pub symbol_paths: Vec<String>,
    pub symbols_cache: String,
    pub symbols_temp: String,
    pub timeout_secs: u64,
}

/// Which aggregate symbol provider a configuration calls for.
///
/// Remote URLs take precedence: if any URL is configured the aggregate
/// holds a single remote-with-local-fallback source; else local paths
/// alone give a local-only source; an empty configuration resolves no
/// symbols at all.
#[derive(Clone, Copy, Debug, PartialEq, Eq, Structural)]
pub enum ProviderPlan {
    RemoteWithLocal,
    LocalOnly,
    NoSymbols,
}

/// The plan a configuration calls for, as a function of which option
/// lists are non-empty.
pub open spec fn plan_of(urls: Seq<String>, paths: Seq<String>) -> ProviderPlan {
    if urls.len() > 0 {
        ProviderPlan::RemoteWithLocal
    } else if paths.len() > 0 {
        ProviderPlan::LocalOnly
    } else {
        ProviderPlan::NoSymbols
    }
}

/// Fills every gap in `opts`: the cache defaults to a fixed subfolder of
/// the platform temporary directory, the scratch directory to that
/// directory itself, and the timeout to `DEFAULT_TIMEOUT_SECS`.
pub fn resolve_symbol_options(opts: SymbolOptions, platform_temp: &str) -> (r: ResolvedSymbolConfig)
    ensures
        r.symbol_urls == opts.symbol_urls,
        r.symbol_paths == opts.symbol_paths,
        r.symbols_cache@ == (match opts.symbols_cache {
            Some(c) => c@,
            None => platform_temp@ + default_cache_subdir(),
        }),
        r.symbols_temp@ == (match opts.symbols_temp {
            Some(t) => t@,
            None => platform_temp@,
        }),
        r.timeout_secs == (match opts.timeout_secs {
            Some(t) => t,
            None => DEFAULT_TIMEOUT_SECS,
        }),
{
    let symbols_cache = match opts.symbols_cache {
        Some(c) => c,
        None => {
            let mut c = String::new();
            c.append(platform_temp);
            c.append("/rust-minidump-cache");
            c
        },
    };
    let symbols_temp = match opts.symbols_temp {
        Some(t) => t,
        None => {
            let mut t = String::new();
            t.append(platform_temp);
            t
        },
    };
    let timeout_secs = match opts.timeout_secs {
        Some(t) => t,
        None => DEFAULT_TIMEOUT_SECS,
    };
    ResolvedSymbolConfig {
        symbol_urls: opts.symbol_urls,
        symbol_paths: opts.symbol_paths,
        symbols_cache,
        symbols_temp,
        timeout_secs,
    }
}

/// Fills the gap in the raw-dump operation's one option: an unspecified
/// `brief` flag means the full, verbose rendering.
pub fn resolve_brief(brief: Option<bool>) -> (b: bool)
    ensures
        b == (match brief {
            Some(v) => v,
            None => false,
        }),
{
    match brief {
        Some(v) => v,
        None => false,
    }
}

/// Decides which aggregate provider to build from a resolved
/// configuration, by the fixed priority rule.
pub fn provider_plan(cfg: &ResolvedSymbolConfig) -> (p: ProviderPlan)
    ensures
        p == plan_of(cfg.symbol_urls@, cfg.symbol_paths@),
{
    if cfg.symbol_urls.len() > 0 {
        ProviderPlan::RemoteWithLocal
    } else if cfg.symbol_paths.len() > 0 {
        ProviderPlan::LocalOnly
    } else {
        ProviderPlan::NoSymbols
    }
}

} // verus!
