use monkeyarch::config::{default_max_upload, default_port};
use monkeyarch::handlers::{plan_delete, plan_mkdir, plan_move, DeleteAction};
use monkeyarch::models::StatusResponse;
use monkeyarch::upload::{
    add_upload_bytes, check_overwrite, is_allowed_lower_mime, is_allowed_mime, upload_destination,
};
use monkeyarch::{AbsPath, AppError, Config, Fault, RawConfig};

fn path(parts: &[&str]) -> AbsPath {
    AbsPath { parts: parts.iter().map(|p| p.to_string()).collect() }
}

#[test]
fn mime_types_allowed_for_upload() {
    assert!(is_allowed_mime("audio/mpeg"));
    assert!(is_allowed_mime("audio/mp3"));
    assert!(is_allowed_mime("image/png"));
    assert!(!is_allowed_mime("text/plain"));
    assert!(!is_allowed_mime("audio/ogg"));
    assert!(!is_allowed_mime("image"));
}

#[test]
fn mime_check_ignores_case() {
    assert!(is_allowed_mime("AUDIO/MP3"));
    assert!(is_allowed_mime("Image/JPEG"));
    assert!(!is_allowed_lower_mime("AUDIO/MP3"));
    assert!(is_allowed_lower_mime("image/"));
}

#[test]
fn upload_destination_joins_checked_name() {
    let dir = path(&["data", "music"]);
    assert_eq!(
        upload_destination(&dir, "song.mp3").unwrap().parts,
        path(&["data", "music", "song.mp3"]).parts
    );
    assert!(matches!(upload_destination(&dir, "../evil"), Err(AppError::BadRequest(_))));
}

#[test]
fn upload_size_ceiling() {
    assert_eq!(add_upload_bytes(10, 5, 15), Some(15));
    assert_eq!(add_upload_bytes(10, 6, 15), None);
    assert_eq!(add_upload_bytes(u64::MAX, 1, u64::MAX), None);
    assert_eq!(add_upload_bytes(0, 0, 0), Some(0));
}

#[test]
fn upload_overwrite_rule() {
    assert!(check_overwrite(false, false).is_ok());
    assert!(check_overwrite(true, true).is_ok());
    assert!(matches!(check_overwrite(true, false), Err(AppError::Conflict(_))));
}

#[test]
fn delete_rules() {
    let root = path(&["data"]);
    let file = path(&["data", "a.txt"]);
    assert!(matches!(plan_delete(false, &root, &file, false, false), Err(AppError::Forbidden)));
    assert!(matches!(plan_delete(true, &root, &root, true, true), Err(AppError::BadRequest(_))));
    assert_eq!(plan_delete(true, &root, &file, false, true).unwrap(), DeleteAction::RemoveFile);
    assert_eq!(plan_delete(true, &root, &file, true, true).unwrap(), DeleteAction::RemoveTree);
    assert_eq!(plan_delete(true, &root, &file, true, false).unwrap(), DeleteAction::RemoveEmptyDir);
}

#[test]
fn move_rules() {
    let root = path(&["data"]);
    let a = path(&["data", "a"]);
    let ab = path(&["data", "a", "b"]);
    let c = path(&["data", "c"]);
    assert!(matches!(plan_move(&root, &root, &c, true, false, false), Err(AppError::BadRequest(_))));
    assert!(matches!(plan_move(&root, &a, &c, false, true, false), Err(AppError::Conflict(_))));
    assert!(plan_move(&root, &a, &c, false, true, true).is_ok());
    assert!(matches!(plan_move(&root, &a, &ab, true, false, false), Err(AppError::BadRequest(_))));
    assert!(plan_move(&root, &a, &ab, false, false, false).is_ok());
    assert!(plan_move(&root, &ab, &c, true, false, false).is_ok());
}

#[test]
fn mkdir_rule() {
    assert!(plan_mkdir(false).is_ok());
    assert!(matches!(plan_mkdir(true), Err(AppError::Conflict(_))));
}

#[test]
fn config_defaults() {
    let c = Config::load(RawConfig::default());
    assert_eq!(c.root_directory, "/home/pi/media");
    assert_eq!(c.bind_address, "0.0.0.0");
    assert_eq!(c.port, 8000);
    assert_eq!(c.max_upload_size, 104857600);
    assert!(c.enable_delete);
    assert_eq!(c.static_directory, None);
    assert_eq!(default_port(), 8000);
    assert_eq!(default_max_upload(), 100 * 1024 * 1024);
}

#[test]
fn config_given_values_win() {
    let raw = RawConfig {
        root_directory: Some("/srv".to_string()),
        static_directory: Some("web".to_string()),
        bind_address: Some("127.0.0.1".to_string()),
        port: Some(9000),
        max_upload_size: Some(5),
        enable_delete: Some(false),
    };
    let c = Config::load(raw);
    assert_eq!(c.root_directory, "/srv");
    assert_eq!(c.static_directory, Some("web".to_string()));
    assert_eq!(c.bind_address, "127.0.0.1");
    assert_eq!(c.port, 9000);
    assert_eq!(c.max_upload_size, 5);
    assert!(!c.enable_delete);
}

#[test]
fn error_responses() {
    assert_eq!(AppError::Forbidden.status_and_message(), (403, "access denied".to_string()));
    assert_eq!(
        AppError::NotFound("gone".to_string()).status_and_message(),
        (404, "gone".to_string())
    );
    assert_eq!(
        AppError::Internal("secret".to_string()).status_and_message(),
        (500, "internal error".to_string())
    );
    assert_eq!(AppError::PayloadTooLarge.status_and_message().0, 413);
    assert_eq!(AppError::InvalidType("x".to_string()).fault(), Fault::InvalidType);
    assert_eq!(AppError::Io("disk".to_string()).fault(), Fault::Internal);
}

#[test]
fn status_ok() {
    assert_eq!(StatusResponse::ok().status, "ok");
}

use monkeyarch::listing::{key_before, sort_entries, text_le};
use monkeyarch::models::{EntryType, FileEntry};

fn entry(name: &str, ty: EntryType) -> FileEntry {
    FileEntry { name: name.to_string(), entry_type: ty, size: None, modified: None }
}

fn names(v: &[FileEntry]) -> Vec<String> {
    v.iter().map(|e| e.name.clone()).collect()
}

#[test]
fn listing_puts_directories_first() {
    let v = vec![
        entry("zeta.mp3", EntryType::File),
        entry("Music", EntryType::Directory),
        entry("alpha.mp3", EntryType::File),
        entry("art", EntryType::Directory),
    ];
    assert_eq!(names(&sort_entries(v)), vec!["art", "Music", "alpha.mp3", "zeta.mp3"]);
}

#[test]
fn listing_ignores_case() {
    let v = vec![entry("B", EntryType::File), entry("a", EntryType::File)];
    assert_eq!(names(&sort_entries(v)), vec!["a", "B"]);
}

#[test]
fn listing_of_nothing() {
    assert!(sort_entries(Vec::new()).is_empty());
}

#[test]
fn text_order() {
    assert!(text_le("abc", "abd"));
    assert!(text_le("ab", "abc"));
    assert!(!text_le("abc", "ab"));
    assert!(text_le("", ""));
    assert!(text_le("B", "a"));
    assert!(key_before(true, "z", false, "a"));
    assert!(!key_before(false, "a", true, "z"));
}
