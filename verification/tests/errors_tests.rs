use minidump_bridge::errors::{compose_dump_error, compose_read_error, compose_stackwalk_error};

#[test]
fn read_error_message_is_name_marker_detail() {
    let msg = compose_read_error("FileNotFound", "File not found");
    assert_eq!(msg, "FileNotFound - Error reading dump: File not found");
}

#[test]
fn stackwalk_error_message_is_name_marker_detail() {
    let msg = compose_stackwalk_error("MissingSystemInfo", "The system information stream was not found");
    assert_eq!(
        msg,
        "MissingSystemInfo - Error processing dump: The system information stream was not found"
    );
}

#[test]
fn dump_error_message_is_marker_detail() {
    let msg = compose_dump_error("out of space");
    assert_eq!(msg, "Error processing dump: out of space");
}

#[test]
fn empty_name_and_detail_still_leave_the_markers() {
    assert_eq!(compose_read_error("", ""), " - Error reading dump: ");
    assert_eq!(compose_dump_error(""), "Error processing dump: ");
}
