use emap::paths::{asset_path, bare_name, is_bare, project_db_path, project_dir, upload_file_name, PathError};

#[test]
fn bare_names_are_accepted() {
    assert!(is_bare("photo.png"));
    assert!(is_bare("a"));
    assert!(is_bare("..."));
    assert!(is_bare(".hidden"));
    assert!(is_bare("67e55044-10b1-426f-9247-bb680e5fe0c8"));
}

#[test]
fn names_with_separators_or_dots_are_refused() {
    assert!(!is_bare(""));
    assert!(!is_bare("."));
    assert!(!is_bare(".."));
    assert!(!is_bare("a/b"));
    assert!(!is_bare("a\\b"));
    assert!(!is_bare("a\0b"));
    assert!(!is_bare("/etc"));
    assert_eq!(bare_name("x/y"), Err(PathError::NotBareName));
    assert_eq!(bare_name("ok.txt"), Ok("ok.txt".to_string()));
}

#[test]
fn store_paths_follow_the_id() {
    assert_eq!(project_dir("abc"), Ok("projects/abc".to_string()));
    assert_eq!(project_db_path("abc"), Ok("projects/abc/project.db".to_string()));
    assert_eq!(project_db_path("../abc"), Err(PathError::NotBareName));
    assert_eq!(project_dir(""), Err(PathError::NotBareName));
    assert_eq!(asset_path("clip.mp4"), Ok("assets/clip.mp4".to_string()));
    assert_eq!(asset_path("../../etc/passwd"), Err(PathError::NotBareName));
}

#[test]
fn upload_name_prefers_sent_name() {
    assert_eq!(upload_file_name(Some("movie.mp4"), "id1"), Ok("movie.mp4".to_string()));
    assert_eq!(upload_file_name(None, "id1"), Ok("id1".to_string()));
    assert_eq!(upload_file_name(Some("dir/movie.mp4"), "id1"), Err(PathError::NotBareName));
    assert_eq!(upload_file_name(None, ".."), Err(PathError::NotBareName));
}
