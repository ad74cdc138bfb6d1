use minidump_bridge::config::{resolve_symbol_options, SymbolOptions};
use minidump_bridge::dump::open_dump_bytes;
use minidump_bridge::providers::build_provider;
use minidump_bridge::stackwalk::settle_stackwalk;
use test_assembler::{Endian, Section};

fn no_symbol_options() -> SymbolOptions {
    SymbolOptions {
        symbol_urls: Vec::new(),
        symbol_paths: Vec::new(),
        symbols_cache: None,
        symbols_temp: None,
        timeout_secs: None,
    }
}

#[test]
fn engine_failure_settles_with_name_and_processing_marker() {
    let outcome = Err(minidump_processor::ProcessError::MissingSystemInfo);
    let msg = settle_stackwalk(outcome).unwrap_err();
    assert_eq!(
        msg,
        "MissingSystemInfo - Error processing dump: The system information stream was not found"
    );
}

#[test]
fn unknown_engine_failure_settles_with_its_own_name() {
    let outcome = Err(minidump_processor::ProcessError::UnknownError);
    let msg = settle_stackwalk(outcome).unwrap_err();
    assert_eq!(msg, "UnknownError - Error processing dump: An unknown error occurred");
}

/// A dump the engine can fully process: one thread with a stack and a
/// CPU context, plus system info.
fn walkable_dump_bytes() -> Vec<u8> {
    let context = minidump_synth::x86_context(Endian::Little, 0xabcd1234, 0x1010);
    let stack = minidump_synth::Memory::with_section(
        Section::with_endian(Endian::Little).append_repeated(0, 0x1000),
        0x1000,
    );
    let thread = minidump_synth::Thread::new(Endian::Little, 0x1234, &stack, &context);
    let system_info = minidump_synth::SystemInfo::new(Endian::Little);
    minidump_synth::SynthMinidump::with_endian(Endian::Little)
        .add_thread(thread)
        .add_system_info(system_info)
        .add(context)
        .add_memory(stack)
        .finish()
        .unwrap()
}

#[test]
fn stackwalk_succeeds_with_no_symbol_configuration() {
    // Neither URLs nor paths are configured: addresses stay unresolved,
    // but the walk itself succeeds and settles with report text.
    let dump = open_dump_bytes(walkable_dump_bytes()).unwrap();
    let provider = build_provider(resolve_symbol_options(no_symbol_options(), "/tmp"));
    let rt = tokio::runtime::Runtime::new().unwrap();
    let outcome = rt.block_on(minidump_processor::process_minidump(&dump, &provider));
    let text = settle_stackwalk(outcome).unwrap();
    assert!(!text.is_empty());
    assert!(text.contains("Thread 0"));
}

#[test]
fn walking_a_streamless_dump_fails_in_the_engine_not_in_the_symbols() {
    // No symbol sources configured at all: the walk must not fail on
    // that account.  This dump carries no system-info stream, so the
    // engine reports exactly that.
    let bytes = minidump_synth::SynthMinidump::new().finish().unwrap();
    let dump = open_dump_bytes(bytes).unwrap();
    let provider = build_provider(resolve_symbol_options(no_symbol_options(), "/tmp"));
    let rt = tokio::runtime::Runtime::new().unwrap();
    let outcome = rt.block_on(minidump_processor::process_minidump(&dump, &provider));
    let msg = settle_stackwalk(outcome).unwrap_err();
    assert!(msg.contains("Error processing dump:"));
    assert!(msg.contains("MissingSystemInfo") || msg.contains("MissingThreadList"));
}
