use emap::records::{asset_for_file, asset_with_mime, display_name, new_project};

#[test]
fn new_project_has_uuid_id_and_name() {
    let a = new_project("Demo".to_string());
    let b = new_project("Demo".to_string());
    assert_eq!(a.name, "Demo");
    assert_eq!(a.id.len(), 36);
    assert_ne!(a.id, b.id);
    for (i, c) in a.id.chars().enumerate() {
        if i == 8 || i == 13 || i == 18 || i == 23 {
            assert_eq!(c, '-');
        } else {
            assert!(c.is_ascii_digit() || ('a'..='f').contains(&c));
        }
    }
    assert!(!a.created_at.is_empty());
}

#[test]
fn asset_records_use_file_name_and_guessed_type() {
    let r = asset_for_file("clip.mp4".to_string());
    assert_eq!(r.id, "clip.mp4");
    assert_eq!(r.name, "clip.mp4");
    assert_eq!(r.mime_type, "video/mp4");
    assert_eq!(asset_for_file("photo.PNG".to_string()).mime_type, "image/png");
    assert_eq!(asset_for_file("noext".to_string()).mime_type, "application/octet-stream");
    let m = asset_with_mime("a.txt".to_string(), "text/plain".to_string());
    assert_eq!((m.id.as_str(), m.name.as_str(), m.mime_type.as_str()), ("a.txt", "a.txt", "text/plain"));
}

#[test]
fn display_name_defaults_to_unknown() {
    assert_eq!(display_name(Some("Show".to_string())), "Show");
    assert_eq!(display_name(None), "Unknown");
}
