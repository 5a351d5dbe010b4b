use emap::listing::{drive_item, is_shown_name, listing, mount_points, name_less, order_items, FileItem, ItemKind, Platform};

fn item(name: &str, kind: ItemKind) -> FileItem {
    FileItem { name: name.to_string(), path: format!("/x/{}", name), kind, size: String::new() }
}

fn names(v: &[FileItem]) -> Vec<String> {
    v.iter().map(|i| i.name.clone()).collect()
}

#[test]
fn listing_puts_directories_first_then_by_name() {
    let items = vec![
        item("b.mp4", ItemKind::File),
        item("zeta", ItemKind::Dir),
        item("a.png", ItemKind::File),
        item(".git", ItemKind::Dir),
        item("alpha", ItemKind::Dir),
        item(".cache", ItemKind::File),
    ];
    let r = listing(&items);
    assert_eq!(names(&r), vec!["alpha", "zeta", "a.png", "b.mp4"]);
}

#[test]
fn ordering_keeps_every_item() {
    let items = vec![item("c", ItemKind::File), item("B", ItemKind::File), item("a", ItemKind::File)];
    let r = order_items(&items);
    assert_eq!(names(&r), vec!["B", "a", "c"]);
    assert!(order_items(&Vec::new()).is_empty());
}

#[test]
fn names_compare_like_str() {
    assert!(name_less("a", "b"));
    assert!(name_less("ab", "abc"));
    assert!(!name_less("abc", "ab"));
    assert!(!name_less("a", "a"));
    assert!(name_less("Z", "a"));
    assert!(name_less("", "a"));
    assert!(name_less("é", "中"));
}

#[test]
fn hidden_names_start_with_dot() {
    assert!(!is_shown_name(".bashrc"));
    assert!(is_shown_name("movie.mp4"));
    assert!(is_shown_name(""));
}

#[test]
fn mount_points_per_platform() {
    assert_eq!(
        mount_points(Platform::Linux, "ann"),
        vec!["/media/ann", "/run/media/ann", "/media", "/mnt"]
    );
    assert_eq!(mount_points(Platform::FreeBsd, "ann"), vec!["/media", "/mnt"]);
    assert!(mount_points(Platform::Other, "ann").is_empty());
}

#[test]
fn drive_items_have_no_size() {
    let d = drive_item("USB".to_string(), "/media/ann/USB".to_string());
    assert_eq!(d.kind, ItemKind::Drive);
    assert_eq!(d.size, "");
    assert_eq!(d.kind.label(), "drive");
    assert_eq!(ItemKind::Dir.label(), "dir");
    assert_eq!(ItemKind::File.label(), "file");
}
