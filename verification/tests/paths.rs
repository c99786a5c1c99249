use rcli::{input_file_verdict, path_verdict, verify_input_file, verify_path};

#[test]
fn test_verify_input_file() {
    assert_eq!(verify_input_file("-"), Ok("-".into()));
    assert_eq!(verify_input_file("*"), Err("File does not exist"));
    assert_eq!(verify_input_file("src/lib.rs"), Ok("src/lib.rs".into()));
    assert_eq!(input_file_verdict("Cargo.toml", true), Ok("Cargo.toml".into()));
}

#[test]
fn input_file_verdict_follows_the_file_system() {
    assert_eq!(input_file_verdict("-", false), Ok("-".to_string()));
    assert_eq!(input_file_verdict("-", true), Ok("-".to_string()));
    assert_eq!(input_file_verdict("a.txt", true), Ok("a.txt".to_string()));
    assert_eq!(input_file_verdict("a.txt", false), Err("File does not exist"));
    assert_eq!(input_file_verdict("", false), Err("File does not exist"));
}

#[test]
fn verify_path_takes_directories_only() {
    assert_eq!(verify_path("src"), Ok("src".to_string()));
    assert_eq!(verify_path("src/lib.rs"), Err("Path does not exist or is not a directory"));
    assert_eq!(verify_path("no such directory"), Err("Path does not exist or is not a directory"));
}

#[test]
fn path_verdict_needs_a_directory_that_exists() {
    assert_eq!(path_verdict("out", true, true), Ok("out".to_string()));
    assert_eq!(path_verdict("out", true, false), Err("Path does not exist or is not a directory"));
    assert_eq!(path_verdict("out", false, false), Err("Path does not exist or is not a directory"));
    assert_eq!(path_verdict("out", false, true), Err("Path does not exist or is not a directory"));
}
