use windortent::ahqdb::validation::{
    pushed_path, resolve_logical_path, secure_logical_resolve, PathError,
};

#[test]
fn resolves_nested_path_below_root() {
    assert_eq!(
        secure_logical_resolve("C:\\apps", "root://bin/tool.exe"),
        Ok("C:\\apps\\bin\\tool.exe".to_string())
    );
}

#[test]
fn drops_current_dir_and_empty_components() {
    assert_eq!(
        secure_logical_resolve("base", "root://./a//b/./c"),
        Ok("base\\a\\b\\c".to_string())
    );
}

#[test]
fn parent_dir_removes_previous_name() {
    assert_eq!(
        secure_logical_resolve("base", "root://a/b/../c"),
        Ok("base\\a\\c".to_string())
    );
    assert_eq!(secure_logical_resolve("base", "root://a/.."), Ok("base".to_string()));
}

#[test]
fn climbing_above_root_is_refused() {
    assert_eq!(
        secure_logical_resolve("base", "root://a/../../etc"),
        Err(PathError::PathTraversalAttempt)
    );
    assert_eq!(
        secure_logical_resolve("base", "root://.."),
        Err(PathError::PathTraversalAttempt)
    );
}

#[test]
fn anchored_paths_are_refused() {
    assert_eq!(
        secure_logical_resolve("base", "root:///etc/passwd"),
        Err(PathError::AbsolutePathsNotAllowed)
    );
    assert_eq!(
        secure_logical_resolve("base", "root://\\windows"),
        Err(PathError::AbsolutePathsNotAllowed)
    );
    assert_eq!(
        secure_logical_resolve("base", "root://C:\\windows"),
        Err(PathError::AbsolutePathsNotAllowed)
    );
}

#[test]
fn missing_scheme_is_refused() {
    assert_eq!(secure_logical_resolve("base", "a/b"), Err(PathError::InvalidPath));
    assert_eq!(secure_logical_resolve("base", "root:/a"), Err(PathError::InvalidPath));
    assert_eq!(secure_logical_resolve("base", ""), Err(PathError::InvalidPath));
}

#[test]
fn traversal_checked_before_later_components() {
    // The first offending component decides the error.
    assert_eq!(
        secure_logical_resolve("base", "root://../C:/x"),
        Err(PathError::PathTraversalAttempt)
    );
}

#[test]
fn root_ending_in_separator_gets_no_extra_separator() {
    assert_eq!(secure_logical_resolve("/", "root://a/b"), Ok("/a\\b".to_string()));
    assert_eq!(secure_logical_resolve("", "root://a"), Ok("a".to_string()));
}

#[test]
fn drive_like_component_replaces_root() {
    // A later component that looks like a drive replaces what came before,
    // as Windows path joining does.
    assert_eq!(secure_logical_resolve("base", "root://a/C:/b"), Ok("C:b".to_string()));
}

#[test]
fn resolve_without_scheme() {
    assert_eq!(resolve_logical_path("/", "x/y"), Ok("/x\\y".to_string()));
    assert_eq!(resolve_logical_path("/", "/x"), Err(PathError::AbsolutePathsNotAllowed));
    assert_eq!(resolve_logical_path("/", ""), Ok("/".to_string()));
}

#[test]
fn push_follows_windows_rules() {
    assert_eq!(pushed_path("C:\\a", "b"), "C:\\a\\b");
    assert_eq!(pushed_path("C:\\a\\", "b"), "C:\\a\\b");
    assert_eq!(pushed_path("C:", "b"), "C:b");
    assert_eq!(pushed_path("C:\\a", "D:\\x"), "D:\\x");
    assert_eq!(pushed_path("C:\\a", "\\x"), "C:\\x");
    assert_eq!(pushed_path("rel", "\\x"), "\\x");
    assert_eq!(pushed_path("C:\\a", "\\\\server\\share"), "\\\\server\\share");
    assert_eq!(pushed_path("", "b"), "b");
    assert_eq!(pushed_path("C:\\a", ""), "C:\\a\\");
}
