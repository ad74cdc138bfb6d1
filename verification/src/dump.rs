//! Trusted boundary around the `minidump` format reader.
//!
//! Opening a dump, pulling one typed stream out of it, and printing one
//! stream's human-readable description are all the outside crate's work;
//! each call stands behind one trusted item here.  Every print wrapper
//! renders into an in-memory buffer that accepts every write, and the
//! printers fail only through their writer, so each wrapper guarantees
//! the text is produced; what is done with the pieces — order,
//! dependencies, fault tolerance — is decided by the verified renderer
//! in `render`.

use vstd::prelude::*;

use crate::errors::{compose_read_error, contains_seq, read_error_marker};

verus! {

#[verifier::external_type_specification]
#[verifier::external_body]
#[verifier::reject_recursive_types(T)]
pub struct ExMinidump<'a, T>(minidump::Minidump<'a, T>) where T: core::ops::Deref<Target = [u8]>;

#[verifier::external_type_specification]
#[verifier::external_body]
pub struct ExMmap(memmap2::Mmap);

#[verifier::external_type_specification]
#[verifier::external_body]
pub struct ExError(minidump::Error);

#[verifier::external_type_specification]
#[verifier::external_body]
pub struct ExSystemInfo(minidump::MinidumpSystemInfo);

#[verifier::external_type_specification]
#[verifier::external_body]
pub struct ExMiscInfo(minidump::MinidumpMiscInfo);

#[verifier::external_type_specification]
#[verifier::external_body]
#[verifier::reject_recursive_types(Descriptor)]
pub struct ExMemoryListBase<'a, Descriptor>(minidump::MinidumpMemoryListBase<'a, Descriptor>);

#[verifier::external_type_specification]
#[verifier::external_body]
pub struct ExMemoryDescriptor(minidump_common::format::MINIDUMP_MEMORY_DESCRIPTOR);

#[verifier::external_type_specification]
#[verifier::external_body]
pub struct ExMemoryDescriptor64(minidump_common::format::MINIDUMP_MEMORY_DESCRIPTOR64);

#[verifier::external_type_specification]
#[verifier::external_body]
pub struct ExUnifiedMemoryList<'a>(minidump::UnifiedMemoryList<'a>);

#[verifier::external_type_specification]
#[verifier::external_body]
pub struct ExThreadList<'a>(minidump::MinidumpThreadList<'a>);

#[verifier::external_type_specification]
#[verifier::external_body]
pub struct ExModuleList(minidump::MinidumpModuleList);

#[verifier::external_type_specification]
#[verifier::external_body]
pub struct ExUnloadedModuleList(minidump::MinidumpUnloadedModuleList);

#[verifier::external_type_specification]
#[verifier::external_body]
pub struct ExMemoryInfoList<'a>(minidump::MinidumpMemoryInfoList<'a>);

#[verifier::external_type_specification]
#[verifier::external_body]
pub struct ExException<'a>(minidump::MinidumpException<'a>);

#[verifier::external_type_specification]
#[verifier::external_body]
pub struct ExAssertion(minidump::MinidumpAssertion);

#[verifier::external_type_specification]
#[verifier::external_body]
pub struct ExBreakpadInfo(minidump::MinidumpBreakpadInfo);

#[verifier::external_type_specification]
#[verifier::external_body]
pub struct ExThreadNames(minidump::MinidumpThreadNames);

#[verifier::external_type_specification]
#[verifier::external_body]
pub struct ExCrashpadInfo(minidump::MinidumpCrashpadInfo);

/// How an attempt to pull the crash-reporter-metadata stream ended: the
/// stream was present and parsed, was not in the dump at all, or was
/// present but unreadable.
pub enum CrashpadFetch {
    Found(minidump::MinidumpCrashpadInfo),
    Absent,
    Invalid,
}

/// Relies on minidump::Minidump::read_path: opens and validates the dump
/// file at `path`, memory-mapping its contents.  Fails whenever the file
/// is missing, unreadable, or not a well-formed minidump.
#[verifier::external_body]
fn read_dump_path(path: &str) -> Result<minidump::Minidump<'static, memmap2::Mmap>, minidump::Error> {
    minidump::Minidump::read_path(path)
}

/// Relies on minidump::Minidump::read: validates an in-memory minidump
/// image.  Fails whenever the bytes are not a well-formed minidump.
#[verifier::external_body]
fn read_dump_bytes(bytes: Vec<u8>) -> Result<minidump::Minidump<'static, Vec<u8>>, minidump::Error> {
    minidump::Minidump::read(bytes)
}

/// Relies on minidump::Error::name: the error's categorical name.
#[verifier::external_body]
fn error_name(e: &minidump::Error) -> String {
    e.name().to_owned()
}

/// Relies on minidump::Error's Display impl: the error's message text.
#[verifier::external_body]
fn error_text(e: &minidump::Error) -> String {
    format!("{}", e)
}

/// Opens the dump file at `path`.  Every failure is reported as a read
/// error: the engine's error name, then the fixed read marker, then the
/// engine's message.
pub fn open_dump(path: &str) -> (r: Result<
    minidump::Minidump<'static, memmap2::Mmap>,
    String,
>)
    ensures
        r matches Err(msg) ==> contains_seq(msg@, read_error_marker()),
{
    match read_dump_path(path) {
        Ok(d) => Ok(d),
        Err(e) => {
            let name = error_name(&e);
            let text = error_text(&e);
            let msg = compose_read_error(name.as_str(), text.as_str());
            proof {
                crate::errors::lemma_read_error_has_marker(name@, text@);
            }
            Err(msg)
        },
    }
}

/// Validates an in-memory minidump image.  Every failure is reported as
/// a read error, exactly as for a dump opened from a path.
pub fn open_dump_bytes(bytes: Vec<u8>) -> (r: Result<
    minidump::Minidump<'static, Vec<u8>>,
    String,
>)
    ensures
        r matches Err(msg) ==> contains_seq(msg@, read_error_marker()),
{
    match read_dump_bytes(bytes) {
        Ok(d) => Ok(d),
        Err(e) => {
            let name = error_name(&e);
            let text = error_text(&e);
            let msg = compose_read_error(name.as_str(), text.as_str());
            proof {
                crate::errors::lemma_read_error_has_marker(name@, text@);
            }
            Err(msg)
        },
    }
}

/// Relies on minidump::Minidump::print: the dump's top-level header,
/// rendered to text.  The printer fails only through its writer, and the
/// writer here is an in-memory buffer that accepts every write, so the
/// text is always produced.
#[verifier::external_body]
pub(crate) fn print_dump_header<'a, T>(d: &'a minidump::Minidump<'a, T>) -> (r: Result<
    String,
    String,
>)
    where T: core::ops::Deref<Target = [u8]> + 'a,

    ensures
        r is Ok,
{
    let mut out: Vec<u8> = Vec::new();
    match d.print(&mut out) {
        Ok(()) => Ok(String::from_utf8_lossy(&out).into_owned()),
        Err(e) => Err(format!("{}", e)),
    }
}

/// Relies on minidump::Minidump::get_stream for the system-info stream;
/// absent and unreadable are both reported as absent.
#[verifier::external_body]
pub(crate) fn fetch_system_info<'a, T>(d: &'a minidump::Minidump<'a, T>) -> Option<
    minidump::MinidumpSystemInfo,
>
    where T: core::ops::Deref<Target = [u8]> + 'a,
{
    d.get_stream::<minidump::MinidumpSystemInfo>().ok()
}

/// Relies on minidump::Minidump::get_stream for the miscellaneous-info
/// stream; absent and unreadable are both reported as absent.
#[verifier::external_body]
pub(crate) fn fetch_misc_info<'a, T>(d: &'a minidump::Minidump<'a, T>) -> Option<
    minidump::MinidumpMiscInfo,
>
    where T: core::ops::Deref<Target = [u8]> + 'a,
{
    d.get_stream::<minidump::MinidumpMiscInfo>().ok()
}

/// Relies on minidump::Minidump::get_stream for the 32-bit memory list;
/// absent and unreadable are both reported as absent.
#[verifier::external_body]
pub(crate) fn fetch_memory_list<'a, T>(d: &'a minidump::Minidump<'a, T>) -> Option<
    minidump::MinidumpMemoryList<'a>,
>
    where T: core::ops::Deref<Target = [u8]> + 'a,
{
    d.get_stream::<minidump::MinidumpMemoryList<'a>>().ok()
}

/// Relies on minidump::Minidump::get_stream for the 64-bit memory list;
/// absent and unreadable are both reported as absent.
#[verifier::external_body]
pub(crate) fn fetch_memory64_list<'a, T>(d: &'a minidump::Minidump<'a, T>) -> Option<
    minidump::MinidumpMemory64List<'a>,
>
    where T: core::ops::Deref<Target = [u8]> + 'a,
{
    d.get_stream::<minidump::MinidumpMemory64List<'a>>().ok()
}

/// Relies on minidump::Minidump::get_stream for the thread list; absent
/// and unreadable are both reported as absent.
#[verifier::external_body]
pub(crate) fn fetch_thread_list<'a, T>(d: &'a minidump::Minidump<'a, T>) -> Option<
    minidump::MinidumpThreadList<'a>,
>
    where T: core::ops::Deref<Target = [u8]> + 'a,
{
    d.get_stream::<minidump::MinidumpThreadList<'a>>().ok()
}

/// Relies on minidump::Minidump::get_stream for the module list; absent
/// and unreadable are both reported as absent.
#[verifier::external_body]
pub(crate) fn fetch_module_list<'a, T>(d: &'a minidump::Minidump<'a, T>) -> Option<
    minidump::MinidumpModuleList,
>
    where T: core::ops::Deref<Target = [u8]> + 'a,
{
    d.get_stream::<minidump::MinidumpModuleList>().ok()
}

/// Relies on minidump::Minidump::get_stream for the unloaded-module
/// list; absent and unreadable are both reported as absent.
#[verifier::external_body]
pub(crate) fn fetch_unloaded_module_list<'a, T>(d: &'a minidump::Minidump<'a, T>) -> Option<
    minidump::MinidumpUnloadedModuleList,
>
    where T: core::ops::Deref<Target = [u8]> + 'a,
{
    d.get_stream::<minidump::MinidumpUnloadedModuleList>().ok()
}

/// Relies on minidump::Minidump::get_stream for the
/// memory-region-protection list; absent and unreadable are both
/// reported as absent.
#[verifier::external_body]
pub(crate) fn fetch_memory_info_list<'a, T>(d: &'a minidump::Minidump<'a, T>) -> Option<
    minidump::MinidumpMemoryInfoList<'a>,
>
    where T: core::ops::Deref<Target = [u8]> + 'a,
{
    d.get_stream::<minidump::MinidumpMemoryInfoList<'a>>().ok()
}

/// Relies on minidump::Minidump::get_stream for the exception record;
/// absent and unreadable are both reported as absent.
#[verifier::external_body]
pub(crate) fn fetch_exception<'a, T>(d: &'a minidump::Minidump<'a, T>) -> Option<
    minidump::MinidumpException<'a>,
>
    where T: core::ops::Deref<Target = [u8]> + 'a,
{
    d.get_stream::<minidump::MinidumpException<'a>>().ok()
}

/// Relies on minidump::Minidump::get_stream for the assertion-info
/// stream; absent and unreadable are both reported as absent.
#[verifier::external_body]
pub(crate) fn fetch_assertion<'a, T>(d: &'a minidump::Minidump<'a, T>) -> Option<
    minidump::MinidumpAssertion,
>
    where T: core::ops::Deref<Target = [u8]> + 'a,
{
    d.get_stream::<minidump::MinidumpAssertion>().ok()
}

/// Relies on minidump::Minidump::get_stream for the breakpad-metadata
/// stream; absent and unreadable are both reported as absent.
#[verifier::external_body]
pub(crate) fn fetch_breakpad_info<'a, T>(d: &'a minidump::Minidump<'a, T>) -> Option<
    minidump::MinidumpBreakpadInfo,
>
    where T: core::ops::Deref<Target = [u8]> + 'a,
{
    d.get_stream::<minidump::MinidumpBreakpadInfo>().ok()
}

/// Relies on minidump::Minidump::get_stream for the thread-name table;
/// absent and unreadable are both reported as absent.
#[verifier::external_body]
pub(crate) fn fetch_thread_names<'a, T>(d: &'a minidump::Minidump<'a, T>) -> Option<
    minidump::MinidumpThreadNames,
>
    where T: core::ops::Deref<Target = [u8]> + 'a,
{
    d.get_stream::<minidump::MinidumpThreadNames>().ok()
}

/// Relies on minidump::Minidump::get_stream for the
/// crash-reporter-metadata stream, keeping absence apart from
/// corruption: `Error::StreamNotFound` is the one error that means the
/// stream is not in the dump at all.
#[verifier::external_body]
pub(crate) fn fetch_crashpad_info<'a, T>(d: &'a minidump::Minidump<'a, T>) -> CrashpadFetch
    where T: core::ops::Deref<Target = [u8]> + 'a,
{
    match d.get_stream::<minidump::MinidumpCrashpadInfo>() {
        Ok(c) => CrashpadFetch::Found(c),
        Err(minidump::Error::StreamNotFound) => CrashpadFetch::Absent,
        Err(_) => CrashpadFetch::Invalid,
    }
}

/// Relies on minidump::Minidump::get_raw_stream: the raw bytes of the
/// stream with the given type tag, or nothing when the dump does not
/// carry it or its bounds are bad.
#[verifier::external_body]
pub(crate) fn fetch_raw_stream<'a, T>(d: &'a minidump::Minidump<'a, T>, stream_type: u32) -> Option<
    Vec<u8>,
>
    where T: core::ops::Deref<Target = [u8]> + 'a,
{
    d.get_raw_stream(stream_type).ok().map(|s| s.to_vec())
}

/// Wraps a 32-bit memory list in the unified view the thread printer
/// takes; pure repackaging by minidump::UnifiedMemoryList::Memory.
#[verifier::external_body]
pub(crate) fn unify_memory<'a>(m: minidump::MinidumpMemoryList<'a>) -> minidump::UnifiedMemoryList<
    'a,
> {
    minidump::UnifiedMemoryList::Memory(m)
}

/// Relies on minidump::MinidumpThreadList::print, annotating each thread
/// with the given memory, system-info and misc-info context.
#[verifier::external_body]
pub(crate) fn print_thread_list<'a>(
    t: &minidump::MinidumpThreadList<'a>,
    memory: Option<&minidump::UnifiedMemoryList<'a>>,
    system: Option<&minidump::MinidumpSystemInfo>,
    misc: Option<&minidump::MinidumpMiscInfo>,
    brief: bool,
) -> (r: Result<String, String>)
    ensures
        r is Ok,
{
    let mut out: Vec<u8> = Vec::new();
    match t.print(&mut out, memory, system, misc, brief) {
        Ok(()) => Ok(String::from_utf8_lossy(&out).into_owned()),
        Err(e) => Err(format!("{}", e)),
    }
}

/// Relies on minidump::MinidumpModuleList::print.
#[verifier::external_body]
pub(crate) fn print_module_list(m: &minidump::MinidumpModuleList) -> (r: Result<String, String>)
    ensures
        r is Ok,
{
    let mut out: Vec<u8> = Vec::new();
    match m.print(&mut out) {
        Ok(()) => Ok(String::from_utf8_lossy(&out).into_owned()),
        Err(e) => Err(format!("{}", e)),
    }
}

/// Relies on minidump::MinidumpUnloadedModuleList::print.
#[verifier::external_body]
pub(crate) fn print_unloaded_module_list(m: &minidump::MinidumpUnloadedModuleList) -> (r: Result<
    String,
    String,
>)
    ensures
        r is Ok,
{
    let mut out: Vec<u8> = Vec::new();
    match m.print(&mut out) {
        Ok(()) => Ok(String::from_utf8_lossy(&out).into_owned()),
        Err(e) => Err(format!("{}", e)),
    }
}

/// Relies on minidump::MinidumpMemoryList::print.
#[verifier::external_body]
pub(crate) fn print_memory_list<'a>(m: &minidump::MinidumpMemoryList<'a>, brief: bool) -> (r: Result<
    String,
    String,
>)
    ensures
        r is Ok,
{
    let mut out: Vec<u8> = Vec::new();
    match m.print(&mut out, brief) {
        Ok(()) => Ok(String::from_utf8_lossy(&out).into_owned()),
        Err(e) => Err(format!("{}", e)),
    }
}

/// Relies on minidump::MinidumpMemory64List::print.
#[verifier::external_body]
pub(crate) fn print_memory64_list<'a>(m: &minidump::MinidumpMemory64List<'a>, brief: bool) -> (r: Result<
    String,
    String,
>)
    ensures
        r is Ok,
{
    let mut out: Vec<u8> = Vec::new();
    match m.print(&mut out, brief) {
        Ok(()) => Ok(String::from_utf8_lossy(&out).into_owned()),
        Err(e) => Err(format!("{}", e)),
    }
}

/// Relies on minidump::MinidumpMemoryInfoList::print.
#[verifier::external_body]
pub(crate) fn print_memory_info_list<'a>(m: &minidump::MinidumpMemoryInfoList<'a>) -> (r: Result<
    String,
    String,
>)
    ensures
        r is Ok,
{
    let mut out: Vec<u8> = Vec::new();
    match m.print(&mut out) {
        Ok(()) => Ok(String::from_utf8_lossy(&out).into_owned()),
        Err(e) => Err(format!("{}", e)),
    }
}

/// Relies on minidump::MinidumpException::print, annotating the record
/// with the given system-info and misc-info context.
#[verifier::external_body]
pub(crate) fn print_exception<'a>(
    e: &minidump::MinidumpException<'a>,
    system: Option<&minidump::MinidumpSystemInfo>,
    misc: Option<&minidump::MinidumpMiscInfo>,
) -> (r: Result<String, String>)
    ensures
        r is Ok,
{
    let mut out: Vec<u8> = Vec::new();
    match e.print(&mut out, system, misc) {
        Ok(()) => Ok(String::from_utf8_lossy(&out).into_owned()),
        Err(err) => Err(format!("{}", err)),
    }
}

/// Relies on minidump::MinidumpAssertion::print.
#[verifier::external_body]
pub(crate) fn print_assertion(a: &minidump::MinidumpAssertion) -> (r: Result<String, String>)
    ensures
        r is Ok,
{
    let mut out: Vec<u8> = Vec::new();
    match a.print(&mut out) {
        Ok(()) => Ok(String::from_utf8_lossy(&out).into_owned()),
        Err(e) => Err(format!("{}", e)),
    }
}

/// Relies on minidump::MinidumpSystemInfo::print.
#[verifier::external_body]
pub(crate) fn print_system_info(s: &minidump::MinidumpSystemInfo) -> (r: Result<String, String>)
    ensures
        r is Ok,
{
    let mut out: Vec<u8> = Vec::new();
    match s.print(&mut out) {
        Ok(()) => Ok(String::from_utf8_lossy(&out).into_owned()),
        Err(e) => Err(format!("{}", e)),
    }
}

/// Relies on minidump::MinidumpMiscInfo::print.
#[verifier::external_body]
pub(crate) fn print_misc_info(m: &minidump::MinidumpMiscInfo) -> (r: Result<String, String>)
    ensures
        r is Ok,
{
    let mut out: Vec<u8> = Vec::new();
    match m.print(&mut out) {
        Ok(()) => Ok(String::from_utf8_lossy(&out).into_owned()),
        Err(e) => Err(format!("{}", e)),
    }
}

/// Relies on minidump::MinidumpBreakpadInfo::print.
#[verifier::external_body]
pub(crate) fn print_breakpad_info(b: &minidump::MinidumpBreakpadInfo) -> (r: Result<String, String>)
    ensures
        r is Ok,
{
    let mut out: Vec<u8> = Vec::new();
    match b.print(&mut out) {
        Ok(()) => Ok(String::from_utf8_lossy(&out).into_owned()),
        Err(e) => Err(format!("{}", e)),
    }
}

/// Relies on minidump::MinidumpThreadNames::print.
#[verifier::external_body]
pub(crate) fn print_thread_names(t: &minidump::MinidumpThreadNames) -> (r: Result<String, String>)
    ensures
        r is Ok,
{
    let mut out: Vec<u8> = Vec::new();
    match t.print(&mut out) {
        Ok(()) => Ok(String::from_utf8_lossy(&out).into_owned()),
        Err(e) => Err(format!("{}", e)),
    }
}

/// Relies on minidump::MinidumpCrashpadInfo::print.
#[verifier::external_body]
pub(crate) fn print_crashpad_info(c: &minidump::MinidumpCrashpadInfo) -> (r: Result<String, String>)
    ensures
        r is Ok,
{
    let mut out: Vec<u8> = Vec::new();
    match c.print(&mut out) {
        Ok(()) => Ok(String::from_utf8_lossy(&out).into_owned()),
        Err(e) => Err(format!("{}", e)),
    }
}

} // verus!
