use rcli::{file_reply, FileOutcome};

#[test]
fn a_file_that_was_read_is_sent() {
    let reply = file_reply("./Cargo.toml", FileOutcome::Read("[package]\n".to_string()));
    assert_eq!(reply, (200, "[package]\n".to_string()));
}

#[test]
fn a_missing_file_is_not_found() {
    let reply = file_reply("./nothing.txt", FileOutcome::Missing);
    assert_eq!(reply, (404, "File ./nothing.txt not found".to_string()));
}

#[test]
fn a_failed_read_is_a_server_error() {
    let reply = file_reply("./dir", FileOutcome::Failed("Is a directory".to_string()));
    assert_eq!(reply, (500, "Error reading file: Is a directory".to_string()));
}
