use monkeyarch::{
    split_user_path, validate_directory, validate_existing, validate_file, validate_filename,
    validate_path, AbsPath, AppError, NodeKind, Probe,
};

fn path(parts: &[&str]) -> AbsPath {
    AbsPath { parts: parts.iter().map(|p| p.to_string()).collect() }
}

/// A small filesystem: the jail root is /tmp/jail, which holds `subdir`,
/// `file.txt`, `subdir/nested.txt`, `inner` and `inner/file.txt`.
fn existing() -> Vec<(Vec<&'static str>, NodeKind)> {
    vec![
        (vec![], NodeKind::Directory),
        (vec!["tmp"], NodeKind::Directory),
        (vec!["tmp", "jail"], NodeKind::Directory),
        (vec!["tmp", "jail", "subdir"], NodeKind::Directory),
        (vec!["tmp", "jail", "file.txt"], NodeKind::File),
        (vec!["tmp", "jail", "subdir", "nested.txt"], NodeKind::File),
        (vec!["tmp", "jail", "inner"], NodeKind::Directory),
        (vec!["tmp", "jail", "inner", "file.txt"], NodeKind::File),
        (vec!["tmp", "jail2"], NodeKind::Directory),
    ]
}

fn kind_of(p: &[String]) -> NodeKind {
    for (q, k) in existing() {
        if q.len() == p.len() && q.iter().zip(p.iter()).all(|(a, b)| *a == b.as_str()) {
            return k;
        }
    }
    NodeKind::Absent
}

/// Canonicalizes a path the way the filesystem does: every step must exist.
fn canonicalize(p: &[String]) -> Option<AbsPath> {
    let mut out: Vec<String> = Vec::new();
    for c in p {
        match c.as_str() {
            "." => {}
            ".." => {
                out.pop();
            }
            _ => out.push(c.clone()),
        }
        if kind_of(&out) == NodeKind::Absent {
            return None;
        }
    }
    Some(AbsPath { parts: out })
}

fn root_parts() -> Vec<String> {
    vec!["tmp".to_string(), "jail".to_string()]
}

fn probe(user_path: &str) -> Probe {
    let segs = split_user_path(user_path);
    let mut candidate = root_parts();
    candidate.extend(segs.iter().cloned());
    match canonicalize(&candidate) {
        Some(t) => Probe::Existing(t),
        None => {
            candidate.pop();
            Probe::Missing(canonicalize(&candidate))
        }
    }
}

fn canonical_root() -> Option<AbsPath> {
    canonicalize(&root_parts())
}

fn resolve(user_path: &str) -> Result<AbsPath, AppError> {
    validate_path(&canonical_root(), user_path, &probe(user_path))
}

fn kind_at(r: &Result<AbsPath, AppError>) -> NodeKind {
    match r {
        Ok(p) => kind_of(&p.parts),
        Err(_) => NodeKind::Absent,
    }
}

#[test]
fn test_validate_path_root() {
    let result = resolve("").unwrap();
    assert_eq!(result.parts, path(&["tmp", "jail"]).parts);
}

#[test]
fn test_validate_path_file() {
    let result = resolve("file.txt").unwrap();
    assert_eq!(result.parts, path(&["tmp", "jail", "file.txt"]).parts);
}

#[test]
fn test_validate_path_subdir() {
    let result = resolve("subdir/nested.txt").unwrap();
    assert_eq!(result.parts, path(&["tmp", "jail", "subdir", "nested.txt"]).parts);
}

#[test]
fn test_validate_path_nonexistent_in_valid_parent() {
    let result = resolve("newfile.txt").unwrap();
    assert_eq!(result.parts, path(&["tmp", "jail", "newfile.txt"]).parts);
}

#[test]
fn test_validate_path_traversal_blocked() {
    let result = resolve("inner/file.txt");
    assert!(result.is_ok());

    let result = resolve("subdir/../inner/file.txt");
    assert!(result.is_ok());

    let result = resolve("inner/../subdir");
    assert!(result.is_ok());
}

#[test]
fn test_validate_path_direct_traversal() {
    let result = resolve("..");
    assert!(result.is_err(), "Should reject '..' path");
}

#[test]
fn test_validate_path_null_byte_blocked() {
    let result = resolve("file\0.txt");
    assert!(matches!(result, Err(AppError::BadRequest(_))));
}

#[test]
fn test_validate_filename() {
    assert!(validate_filename("test.txt").is_ok());
    assert!(validate_filename("path/file.txt").is_err());
    assert!(validate_filename("..").is_err());
    assert!(validate_filename("").is_err());
}

#[test]
fn root_is_named_by_slash_and_dot() {
    for p in ["", "/", ".", "//", "///."] {
        assert_eq!(resolve(p).unwrap().parts, root_parts(), "{:?}", p);
    }
}

#[test]
fn leading_slashes_are_stripped() {
    assert_eq!(resolve("/file.txt").unwrap().parts, path(&["tmp", "jail", "file.txt"]).parts);
    assert_eq!(
        resolve("//subdir//nested.txt").unwrap().parts,
        path(&["tmp", "jail", "subdir", "nested.txt"]).parts
    );
}

#[test]
fn internal_traversal_equals_direct_path() {
    let a = resolve("subdir/../file.txt").unwrap();
    let b = resolve("file.txt").unwrap();
    assert_eq!(a.parts, b.parts);
}

#[test]
fn dot_dot_is_forbidden() {
    assert!(matches!(resolve(".."), Err(AppError::Forbidden)));
    assert!(matches!(resolve("subdir/../.."), Err(AppError::Forbidden)));
    assert!(matches!(resolve("/../../tmp"), Err(AppError::Forbidden)));
}

#[test]
fn sibling_with_common_prefix_is_forbidden() {
    assert!(matches!(resolve("../jail2"), Err(AppError::Forbidden)));
    assert!(matches!(resolve("../jail2/new.txt"), Err(AppError::Forbidden)));
}

#[test]
fn missing_parent_is_not_found() {
    assert!(matches!(resolve("missing_dir/newfile.txt"), Err(AppError::NotFound(_))));
}

#[test]
fn null_byte_rejected_before_anything_else() {
    assert!(matches!(
        validate_path(&None, "..\0", &Probe::Missing(None)),
        Err(AppError::BadRequest(_))
    ));
}

#[test]
fn unresolvable_root_is_internal() {
    assert!(matches!(
        validate_path(&None, "file.txt", &probe("file.txt")),
        Err(AppError::Internal(_))
    ));
}

#[test]
fn dot_leaf_of_new_path_is_forbidden() {
    let root = canonical_root();
    let parent = Probe::Missing(canonical_root());
    assert!(matches!(validate_path(&root, "x/..", &parent), Err(AppError::Forbidden)));
    assert!(matches!(validate_path(&root, "x/.", &parent), Err(AppError::Forbidden)));
    assert_eq!(
        validate_path(&root, "x/new", &parent).unwrap().parts,
        path(&["tmp", "jail", "new"]).parts
    );
}

#[test]
fn symlink_out_of_the_jail_is_forbidden() {
    let root = canonical_root();
    let outside = Probe::Existing(path(&["etc", "passwd"]));
    assert!(matches!(validate_path(&root, "link", &outside), Err(AppError::Forbidden)));
}

#[test]
fn resolving_twice_gives_the_same_path() {
    let a = resolve("subdir/nested.txt").unwrap();
    let b = resolve("subdir/nested.txt").unwrap();
    assert_eq!(a.parts, b.parts);
}

#[test]
fn existing_check_reports_absence() {
    let r = resolve("newfile.txt");
    let k = kind_at(&r);
    assert_eq!(k, NodeKind::Absent);
    let e = validate_existing(&canonical_root(), "newfile.txt", &probe("newfile.txt"), k);
    assert!(matches!(e, Err(AppError::NotFound(_))));
    let ok = validate_existing(&canonical_root(), "subdir", &probe("subdir"), NodeKind::Directory);
    assert_eq!(ok.unwrap().parts, path(&["tmp", "jail", "subdir"]).parts);
}

#[test]
fn directory_check_reports_wrong_type() {
    let k = kind_at(&resolve("file.txt"));
    let e = validate_directory(&canonical_root(), "file.txt", &probe("file.txt"), k);
    assert!(matches!(e, Err(AppError::InvalidType(_))));
    let k = kind_at(&resolve("subdir"));
    let ok = validate_directory(&canonical_root(), "subdir", &probe("subdir"), k);
    assert_eq!(ok.unwrap().parts, path(&["tmp", "jail", "subdir"]).parts);
    let e = validate_directory(&canonical_root(), "nope", &probe("nope"), NodeKind::Absent);
    assert!(matches!(e, Err(AppError::NotFound(_))));
}

#[test]
fn file_check_hides_directories() {
    let k = kind_at(&resolve("subdir"));
    let e = validate_file(&canonical_root(), "subdir", &probe("subdir"), k);
    assert!(matches!(e, Err(AppError::NotFound(_))));
    let k = kind_at(&resolve("file.txt"));
    let ok = validate_file(&canonical_root(), "file.txt", &probe("file.txt"), k);
    assert_eq!(ok.unwrap().parts, path(&["tmp", "jail", "file.txt"]).parts);
}

#[test]
fn filename_validator_cases() {
    assert_eq!(validate_filename("song.mp3").unwrap(), "song.mp3");
    for bad in ["../evil", "a/b", "", ".", "..", "a\\b", "a\0b"] {
        assert!(matches!(validate_filename(bad), Err(AppError::BadRequest(_))), "{:?}", bad);
    }
    assert!(validate_filename("...").is_ok());
    assert!(validate_filename(".hidden").is_ok());
}

#[test]
fn split_drops_empty_segments() {
    assert_eq!(split_user_path(""), vec!["."]);
    assert_eq!(split_user_path("///"), vec!["."]);
    assert_eq!(split_user_path("/a//b/"), vec!["a", "b"]);
    assert_eq!(split_user_path("a/./../b"), vec!["a", ".", "..", "b"]);
}

#[test]
fn dot_dot_refused_even_at_filesystem_top() {
    let top = Some(path(&[]));
    for p in ["..", "/..", "../", "//..//"] {
        let r = validate_path(&top, p, &Probe::Existing(path(&[])));
        assert!(matches!(r, Err(AppError::Forbidden)), "{:?}", p);
    }
    assert_eq!(
        validate_path(&top, "a/..", &Probe::Existing(path(&[]))).unwrap().parts,
        Vec::<String>::new()
    );
}

#[test]
fn unresolvable_target_is_internal() {
    assert!(matches!(
        validate_path(&canonical_root(), "file.txt", &Probe::Unresolved),
        Err(AppError::Internal(_))
    ));
}
