use emap::reconcile::{db_stem, entry_is_orphan, is_registered, select_orphans, DiskEntry};

fn dir(n: &str) -> DiskEntry {
    DiskEntry { name: n.to_string(), is_dir: true }
}

fn file(n: &str) -> DiskEntry {
    DiskEntry { name: n.to_string(), is_dir: false }
}

fn ids(v: &[&str]) -> Vec<String> {
    v.iter().map(|s| s.to_string()).collect()
}

#[test]
fn reconciler_removes_exactly_the_unregistered_directory() {
    let registry = ids(&["A", "B"]);
    let on_disk = vec![dir("A"), dir("B"), dir("C")];
    assert_eq!(select_orphans(&registry, &on_disk), vec![dir("C")]);
}

#[test]
fn reconciler_handles_legacy_files() {
    let registry = ids(&["A"]);
    let on_disk = vec![file("A.db"), file("B.db"), file("notes.txt"), file(".db"), dir("A"), dir("Z")];
    assert_eq!(select_orphans(&registry, &on_disk), vec![file("B.db"), dir("Z")]);
}

#[test]
fn reconciler_with_empty_registry_removes_every_store() {
    let on_disk = vec![dir("A"), file("x.db"), file("readme")];
    assert_eq!(select_orphans(&Vec::new(), &on_disk), vec![dir("A"), file("x.db")]);
    assert_eq!(select_orphans(&ids(&["A"]), &Vec::new()), vec![]);
}

#[test]
fn db_stem_strips_extension() {
    assert_eq!(db_stem("abc.db"), Some("abc".to_string()));
    assert_eq!(db_stem("a.b.db"), Some("a.b".to_string()));
    assert_eq!(db_stem(".db"), None);
    assert_eq!(db_stem("abc.dbx"), None);
    assert_eq!(db_stem("db"), None);
}

#[test]
fn registry_membership() {
    let registry = ids(&["A", "B"]);
    assert!(is_registered(&registry, &"B".to_string()));
    assert!(!is_registered(&registry, &"C".to_string()));
    assert!(!entry_is_orphan(&registry, &file("A.db")));
    assert!(entry_is_orphan(&registry, &file("C.db")));
    assert!(!entry_is_orphan(&registry, &file("C.txt")));
}
