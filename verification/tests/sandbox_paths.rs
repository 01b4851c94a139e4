use junior::sandbox::{sanitize_and_resolve_path, sanitize_path_string, PathError};

#[test]
fn escaping_dotdot_is_rejected() {
    assert_eq!(
        sanitize_and_resolve_path("/work/project", "../../etc/passwd"),
        Err(PathError::UnsafePath)
    );
    assert_eq!(
        sanitize_and_resolve_path("/work/project", "./a/../../other"),
        Err(PathError::UnsafePath)
    );
    assert_eq!(sanitize_and_resolve_path("/work/project", ".."), Err(PathError::UnsafePath));
}

#[test]
fn absolute_path_outside_cwd_is_rejected() {
    assert_eq!(
        sanitize_and_resolve_path("/work/project", "/etc/passwd"),
        Err(PathError::UnsafePath)
    );
}

#[test]
fn bare_filename_is_accepted_and_normalized() {
    assert_eq!(
        sanitize_and_resolve_path("/work/project", "notes.txt").unwrap(),
        "/work/project/notes.txt"
    );
}

#[test]
fn relative_path_under_cwd_is_accepted() {
    assert_eq!(
        sanitize_and_resolve_path("/work/project", "./sub/dir/x.txt").unwrap(),
        "/work/project/sub/dir/x.txt"
    );
    assert_eq!(
        sanitize_and_resolve_path("/work/project", "a/../b.txt").unwrap(),
        "/work/project/b.txt"
    );
}

#[test]
fn absolute_path_inside_cwd_is_accepted() {
    assert_eq!(
        sanitize_and_resolve_path("/work/project", "/work/project/deep/file").unwrap(),
        "/work/project/deep/file"
    );
    assert_eq!(
        sanitize_and_resolve_path("/work/project", "/work/project").unwrap(),
        "/work/project"
    );
}

#[test]
fn dotdot_that_returns_inside_is_accepted() {
    assert_eq!(
        sanitize_and_resolve_path("/work/project", "sub/../other.txt").unwrap(),
        "/work/project/other.txt"
    );
}

#[test]
fn sanitize_path_string_prefixes_bare_names() {
    assert_eq!(sanitize_path_string("a.txt"), "./a.txt");
    assert_eq!(sanitize_path_string("./a.txt"), "./a.txt");
    assert_eq!(sanitize_path_string("../a.txt"), "../a.txt");
    assert_eq!(sanitize_path_string("/abs/a.txt"), "/abs/a.txt");
    assert_eq!(sanitize_path_string("sub/a.txt"), "./sub/a.txt");
}
