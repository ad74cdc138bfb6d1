use minidump_bridge::dump::{open_dump, open_dump_bytes};
use minidump_bridge::render::{
    dump_bytes_report, dump_path_report, LINUX_CMD_LINE, LINUX_CPU_INFO, LINUX_ENVIRON,
    LINUX_LSB_RELEASE, LINUX_MAPS, LINUX_PROC_STATUS,
};
use minidump_common::format::MINIDUMP_STREAM_TYPE;

fn minimal_dump_bytes() -> Vec<u8> {
    minidump_synth::SynthMinidump::new().finish().unwrap()
}

fn push_u32(out: &mut Vec<u8>, v: u32) {
    out.extend_from_slice(&v.to_le_bytes());
}

/// A handcrafted dump whose directory carries a crash-reporter-metadata
/// stream pointing at four garbage bytes: present, but unreadable.
fn corrupt_crashpad_dump_bytes() -> Vec<u8> {
    let mut out = Vec::new();
    push_u32(&mut out, minidump_common::format::MINIDUMP_SIGNATURE);
    push_u32(&mut out, minidump_common::format::MINIDUMP_VERSION);
    push_u32(&mut out, 1); // stream count
    push_u32(&mut out, 32); // stream directory rva
    push_u32(&mut out, 0); // checksum
    push_u32(&mut out, 0); // time_date_stamp
    push_u32(&mut out, 0); // flags, low half
    push_u32(&mut out, 0); // flags, high half
    push_u32(&mut out, MINIDUMP_STREAM_TYPE::CrashpadInfoStream as u32);
    push_u32(&mut out, 4); // data size
    push_u32(&mut out, 44); // data rva
    out.extend_from_slice(&[1, 2, 3, 4]);
    out
}

#[test]
fn stream_type_tags_match_the_format() {
    assert_eq!(LINUX_CMD_LINE, MINIDUMP_STREAM_TYPE::LinuxCmdLine as u32);
    assert_eq!(LINUX_ENVIRON, MINIDUMP_STREAM_TYPE::LinuxEnviron as u32);
    assert_eq!(LINUX_LSB_RELEASE, MINIDUMP_STREAM_TYPE::LinuxLsbRelease as u32);
    assert_eq!(LINUX_PROC_STATUS, MINIDUMP_STREAM_TYPE::LinuxProcStatus as u32);
    assert_eq!(LINUX_CPU_INFO, MINIDUMP_STREAM_TYPE::LinuxCpuInfo as u32);
    assert_eq!(LINUX_MAPS, MINIDUMP_STREAM_TYPE::LinuxMaps as u32);
}

#[test]
fn dump_with_no_streams_still_renders_a_report() {
    let report = dump_bytes_report(minimal_dump_bytes(), false).unwrap();
    assert!(!report.is_empty());
    assert!(report.contains("MDRawHeader"));
}

#[test]
fn same_dump_rendered_twice_gives_identical_reports() {
    let bytes = minimal_dump_bytes();
    let first = dump_bytes_report(bytes.clone(), true).unwrap();
    let second = dump_bytes_report(bytes, true).unwrap();
    assert_eq!(first, second);
}

#[test]
fn brief_and_verbose_render_the_headerless_dump_alike() {
    let bytes = minimal_dump_bytes();
    let brief = dump_bytes_report(bytes.clone(), true).unwrap();
    let verbose = dump_bytes_report(bytes, false).unwrap();
    // With no thread or memory streams the brief flag has nothing to
    // suppress.
    assert_eq!(brief, verbose);
}

#[test]
fn environment_stream_appears_under_its_own_header() {
    let bytes = minidump_synth::SynthMinidump::new()
        .set_linux_environ(b"VAR1=a\0VAR2=b\0")
        .finish()
        .unwrap();
    let report = dump_bytes_report(bytes, false).unwrap();
    assert!(report.contains("Stream LinuxEnviron:\nVAR1=a\\0\nVAR2=b\\0\n"));
}

#[test]
fn corrupt_crashpad_stream_leaves_placeholder_and_report_succeeds() {
    let report = dump_bytes_report(corrupt_crashpad_dump_bytes(), false).unwrap();
    assert!(report.contains("MinidumpCrashpadInfo cannot print invalid data"));
    assert!(report.contains("MDRawHeader"));
}

#[test]
fn garbage_bytes_reject_with_a_read_error() {
    let err = dump_bytes_report(vec![0u8; 10], false).unwrap_err();
    assert!(err.contains("Error reading dump:"));
}

#[test]
fn missing_file_rejects_with_a_read_error() {
    let err = dump_path_report("/no/such/file.dmp", false).unwrap_err();
    assert!(err.contains("Error reading dump:"));
    assert!(err.contains("FileNotFound"));
}

#[test]
fn open_dump_reports_missing_files_with_the_read_marker() {
    let err = open_dump("/no/such/file.dmp").err().unwrap();
    assert!(err.contains("Error reading dump:"));
}

#[test]
fn open_dump_bytes_accepts_a_well_formed_dump() {
    assert!(open_dump_bytes(minimal_dump_bytes()).is_ok());
}
