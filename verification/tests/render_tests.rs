use minidump_bridge::render::{
    assemble_report, decode_lossy, render_raw_block, split_nul_segments, CrashpadSection,
    RawTextStream, Sections,
};

fn empty_sections() -> Sections {
    Sections {
        thread_list: None,
        module_list: None,
        unloaded_module_list: None,
        memory_list: None,
        memory64_list: None,
        memory_info_list: None,
        exception: None,
        assertion: None,
        system_info: None,
        misc_info: None,
        breakpad_info: None,
        thread_names: None,
        crashpad: CrashpadSection::Absent,
        raw_streams: Vec::new(),
    }
}

#[test]
fn environment_block_renders_as_joined_segments() {
    let block = render_raw_block("LinuxEnviron", b"VAR1=a\0VAR2=b\0");
    assert_eq!(block, "Stream LinuxEnviron:\nVAR1=a\\0\nVAR2=b\\0\n\n\n");
}

#[test]
fn raw_block_without_nul_is_one_segment() {
    let block = render_raw_block("LinuxCmdLine", b"/bin/crash --now");
    assert_eq!(block, "Stream LinuxCmdLine:\n/bin/crash --now\n\n");
}

#[test]
fn empty_raw_stream_still_gets_its_header() {
    let block = render_raw_block("LinuxCpuInfo", b"");
    assert_eq!(block, "Stream LinuxCpuInfo:\n\n\n");
}

#[test]
fn nul_split_keeps_empty_segments() {
    let parts = split_nul_segments(b"a\0\0b\0");
    let parts: Vec<&[u8]> = parts.iter().map(|p| p.as_slice()).collect();
    assert_eq!(parts, vec![b"a" as &[u8], b"", b"b", b""]);
}

#[test]
fn report_with_no_sections_is_exactly_the_header() {
    let report = assemble_report("HEADER\n".to_owned(), &empty_sections());
    assert_eq!(report, "HEADER\n");
    assert!(!report.is_empty());
}

#[test]
fn sections_concatenate_in_fixed_order() {
    let mut s = empty_sections();
    s.thread_list = Some("THREADS\n".to_owned());
    s.module_list = Some("MODULES\n".to_owned());
    s.misc_info = Some("MISC\n".to_owned());
    s.raw_streams.push(RawTextStream {
        name: "LinuxCmdLine".to_owned(),
        contents: b"/bin/a".to_vec(),
    });
    s.raw_streams.push(RawTextStream {
        name: "LinuxMaps".to_owned(),
        contents: b"map".to_vec(),
    });
    let report = assemble_report("H|".to_owned(), &s);
    assert_eq!(
        report,
        "H|THREADS\nMODULES\nMISC\nStream LinuxCmdLine:\n/bin/a\n\nStream LinuxMaps:\nmap\n\n"
    );
}

#[test]
fn unprintable_crashpad_leaves_placeholder_and_other_sections() {
    let mut s = empty_sections();
    s.thread_list = Some("THREADS\n".to_owned());
    s.crashpad = CrashpadSection::Unprintable;
    let report = assemble_report("H|".to_owned(), &s);
    assert_eq!(
        report,
        "H|THREADS\nMinidumpCrashpadInfo cannot print invalid data\n"
    );
    assert!(report.contains("MinidumpCrashpadInfo cannot print invalid data\n"));
}

#[test]
fn assembly_is_deterministic() {
    let mut s = empty_sections();
    s.system_info = Some("SYS\n".to_owned());
    s.raw_streams.push(RawTextStream {
        name: "LinuxEnviron".to_owned(),
        contents: b"A=1\0B=2\0".to_vec(),
    });
    let first = assemble_report("H\n".to_owned(), &s);
    let second = assemble_report("H\n".to_owned(), &s);
    assert_eq!(first, second);
}

#[test]
fn ill_formed_bytes_decode_with_replacement_characters() {
    let block = render_raw_block("LinuxProcStatus", &[0xffu8, 0x41, 0x00, 0x42]);
    assert_eq!(block, "Stream LinuxProcStatus:\n\u{FFFD}A\\0\nB\n\n");
}

#[test]
fn ascii_bytes_decode_to_themselves() {
    assert_eq!(decode_lossy(b"VAR1=a"), "VAR1=a");
    assert_eq!(decode_lossy(b""), "");
    assert_eq!(decode_lossy(&[0xffu8, 0x41]), "\u{FFFD}A");
}
