//! Building the aggregate symbol provider a request's configuration calls
//! for.
//!
//! The aggregate is `minidump_unwind::MultiSymbolProvider`, a list of
//! symbol sources tried in order.  Construction is pure: no I/O happens
//! until the stackwalk engine performs its first lookup.  The decision of
//! which sources the aggregate holds is made here and verified; the
//! construction calls themselves are trusted items around the outside
//! crates.

use vstd::prelude::*;

use crate::config::{plan_of, ProviderPlan, ResolvedSymbolConfig};

verus! {

#[verifier::external_type_specification]
#[verifier::external_body]
pub struct ExMultiSymbolProvider(minidump_unwind::MultiSymbolProvider);

#[verifier::external_type_specification]
#[verifier::external_body]
pub struct ExSymbolizer(breakpad_symbols::Symbolizer);

#[verifier::external_type_specification]
#[verifier::external_body]
pub struct ExSimpleSymbolSupplier(breakpad_symbols::SimpleSymbolSupplier);

#[verifier::external_type_specification]
#[verifier::external_body]
pub struct ExHttpSymbolSupplier(breakpad_symbols::HttpSymbolSupplier);

/// The two kinds of symbol source a request can configure: a remote
/// fetch-with-cache source (which also searches the local paths first)
/// and a local-directory-only source.
#[derive(Clone, Copy, Debug, PartialEq, Eq, Structural)]
pub enum SourceKind {
    Remote,
    Local,
}

/// The kinds of the sources an aggregate provider holds, in the order
/// they are tried.
pub uninterp spec fn provider_sources(p: minidump_unwind::MultiSymbolProvider) -> Seq<SourceKind>;

/// Which kind of supplier a symbolizer was built around.
pub uninterp spec fn symbolizer_kind(s: breakpad_symbols::Symbolizer) -> SourceKind;

/// Relies on breakpad_symbols::SimpleSymbolSupplier::new: a supplier that
/// searches the given local directories in order.
#[verifier::external_body]
fn new_simple_supplier(paths: Vec<String>) -> breakpad_symbols::SimpleSymbolSupplier {
    breakpad_symbols::SimpleSymbolSupplier::new(
        paths.into_iter().map(std::path::PathBuf::from).collect(),
    )
}

/// Relies on breakpad_symbols::HttpSymbolSupplier::new: a supplier that
/// searches the local paths and the cache first, then fetches from the
/// given URLs with the given per-download timeout, saving hits under the
/// cache directory.  Construction builds an HTTP client and can abort
/// only if the TLS backend fails to initialize, which no input avoids.
#[verifier::external_body]
fn new_http_supplier(
    urls: Vec<String>,
    paths: Vec<String>,
    cache: String,
    tmp: String,
    timeout_secs: u64,
) -> breakpad_symbols::HttpSymbolSupplier {
    breakpad_symbols::HttpSymbolSupplier::new(
        urls,
        std::path::PathBuf::from(cache),
        std::path::PathBuf::from(tmp),
        paths.into_iter().map(std::path::PathBuf::from).collect(),
        std::time::Duration::from_secs(timeout_secs),
    )
}

/// Relies on breakpad_symbols::Symbolizer::new, here around a remote
/// supplier: the symbolizer answers lookups from exactly that supplier.
#[verifier::external_body]
fn symbolizer_of_http(s: breakpad_symbols::HttpSymbolSupplier) -> (r: breakpad_symbols::Symbolizer)
    ensures
        symbolizer_kind(r) == SourceKind::Remote,
{
    breakpad_symbols::Symbolizer::new(s)
}

/// Relies on breakpad_symbols::Symbolizer::new, here around a
/// local-directory supplier: the symbolizer answers lookups from exactly
/// that supplier.
#[verifier::external_body]
fn symbolizer_of_simple(s: breakpad_symbols::SimpleSymbolSupplier) -> (r:
    breakpad_symbols::Symbolizer)
    ensures
        symbolizer_kind(r) == SourceKind::Local,
{
    breakpad_symbols::Symbolizer::new(s)
}

/// Relies on minidump_unwind::MultiSymbolProvider::new: a freshly built
/// aggregate holds no sources.
#[verifier::external_body]
fn provider_new() -> (r: minidump_unwind::MultiSymbolProvider)
    ensures
        provider_sources(r) == Seq::<SourceKind>::empty(),
{
    minidump_unwind::MultiSymbolProvider::new()
}

/// Relies on minidump_unwind::MultiSymbolProvider::add: the new source is
/// appended after the sources already held.
#[verifier::external_body]
fn provider_add(p: &mut minidump_unwind::MultiSymbolProvider, s: breakpad_symbols::Symbolizer)
    ensures
        provider_sources(*final(p)) == provider_sources(*old(p)).push(symbolizer_kind(s)),
{
    p.add(Box::new(s));
}

/// The sources each plan builds: one remote-with-local source when any
/// URL is configured, one local source when only paths are configured,
/// none otherwise.
pub open spec fn sources_for_plan(plan: ProviderPlan) -> Seq<SourceKind> {
    match plan {
        ProviderPlan::RemoteWithLocal => seq![SourceKind::Remote],
        ProviderPlan::LocalOnly => seq![SourceKind::Local],
        ProviderPlan::NoSymbols => Seq::empty(),
    }
}

/// Builds the aggregate symbol provider for a resolved configuration.
///
/// Never fails; an empty configuration yields an aggregate with no
/// sources, which resolves nothing and leaves addresses raw.
pub fn build_provider(cfg: ResolvedSymbolConfig) -> (p: minidump_unwind::MultiSymbolProvider)
    ensures
        provider_sources(p) == sources_for_plan(plan_of(cfg.symbol_urls@, cfg.symbol_paths@)),
{
    let ResolvedSymbolConfig {
        symbol_urls,
        symbol_paths,
        symbols_cache,
        symbols_temp,
        timeout_secs,
    } = cfg;
    let mut p = provider_new();
    if symbol_urls.len() > 0 {
        let supplier = new_http_supplier(
            symbol_urls,
            symbol_paths,
            symbols_cache,
            symbols_temp,
            timeout_secs,
        );
        provider_add(&mut p, symbolizer_of_http(supplier));
        proof {
            assert(provider_sources(p) =~= sources_for_plan(ProviderPlan::RemoteWithLocal));
        }
    } else if symbol_paths.len() > 0 {
        let supplier = new_simple_supplier(symbol_paths);
        provider_add(&mut p, symbolizer_of_simple(supplier));
        proof {
            assert(provider_sources(p) =~= sources_for_plan(ProviderPlan::LocalOnly));
        }
    }
    p
}

/// A configuration with no URLs and no paths calls for no symbol
/// resolution at all: the plan is `NoSymbols` and the aggregate built for
/// it holds no sources.  Stackwalking proceeds regardless; addresses are
/// simply reported unresolved.
pub proof fn lemma_empty_config_resolves_no_symbols(urls: Seq<String>, paths: Seq<String>)
    requires
        urls.len() == 0,
        paths.len() == 0,
    ensures
        plan_of(urls, paths) == ProviderPlan::NoSymbols,
        sources_for_plan(plan_of(urls, paths)) == Seq::<SourceKind>::empty(),
{
}

} // verus!
