use emap::pages::{import_copy_needed, import_target, page_for, ImportError, Page};
use emap::records::AppConfig;

fn cfg(name: &str) -> AppConfig {
    AppConfig { dashboard_screen_name: name.to_string() }
}

#[test]
fn pages_follow_the_stored_assignment() {
    assert_eq!(page_for(Some("HDMI-1"), None), Page::Setup);
    assert_eq!(page_for(None, None), Page::Setup);
    assert_eq!(page_for(Some("HDMI-1"), Some(&cfg("HDMI-1"))), Page::Dashboard);
    assert_eq!(page_for(Some("DP-2"), Some(&cfg("HDMI-1"))), Page::Projection);
    assert_eq!(page_for(None, Some(&cfg("Unknown"))), Page::Dashboard);
    assert_eq!(page_for(None, Some(&cfg("HDMI-1"))), Page::Projection);
}

#[test]
fn page_files() {
    assert_eq!(Page::Setup.file(), "./ui/dist/setup.html");
    assert_eq!(Page::Dashboard.file(), "./ui/dist/index.html");
    assert_eq!(Page::Projection.file(), "./ui/dist/projection.html");
}

#[test]
fn import_target_checks_source_and_name() {
    assert_eq!(import_target(false, Some("a.png")), Err(ImportError::SourceMissing));
    assert_eq!(import_target(true, None), Err(ImportError::BadFileName));
    assert_eq!(import_target(true, Some("..")), Err(ImportError::BadFileName));
    let t = import_target(true, Some("a.png")).unwrap();
    assert_eq!(t.file_name, "a.png");
    assert_eq!(t.dest, "assets/a.png");
}

#[test]
fn existing_destination_conflicts_without_overwrite() {
    assert_eq!(import_copy_needed(true, false, false), Err(ImportError::Conflict));
    assert_eq!(import_copy_needed(true, true, false), Ok(true));
    assert_eq!(import_copy_needed(false, false, false), Ok(true));
    assert_eq!(import_copy_needed(false, false, true), Ok(false));
    assert_eq!(import_copy_needed(true, true, true), Ok(false));
}
