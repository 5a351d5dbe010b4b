//! Records kept by the stores, and the values that only outside code can
//! supply for them: a fresh project id, the time now, and a file's media type.

use vstd::prelude::*;
use crate::paths::{is_bare_name, is_separator};

verus! {

/// Identity of a project, as the registry keeps it.
#[derive(Debug, Clone, PartialEq, Eq)]
pub struct ProjectRecord {
    pub id: String,
    pub name: String,
    pub created_at: String,
}

/// Metadata of one imported or uploaded media file.
#[derive(Debug, Clone, PartialEq, Eq)]
pub struct AssetRecord {
    pub id: String,
    pub name: String,
    pub mime_type: String,
}

/// The monitor-routing assignment of the config store: which screen shows
/// the dashboard.
#[derive(Debug, Clone, PartialEq, Eq)]
pub struct AppConfig {
    pub dashboard_screen_name: String,
}

/// A lowercase hexadecimal digit.
pub open spec fn is_lower_hex(c: char) -> bool {
    ('0' <= c && c <= '9') || ('a' <= c && c <= 'f')
}

/// The hyphenated form of a UUID: 36 characters, lowercase hex digits in
/// groups of 8, 4, 4, 4 and 12, joined by `-`.
pub open spec fn is_hyphenated_uuid(s: Seq<char>) -> bool {
    &&& s.len() == 36
    &&& forall|i: int|
        0 <= i < 36 ==> if i == 8 || i == 13 || i == 18 || i == 23 {
            #[trigger] s[i] == '-'
        } else {
            is_lower_hex(s[i])
        }
}

/// Media type guessed from a file name.
pub uninterp spec fn mime_of(name: Seq<char>) -> Seq<char>;

/// Relies on `uuid::Uuid::new_v4` for a random id and on the `Display` of
/// `uuid::Uuid`, which writes the hyphenated lowercase form. `new_v4` panics
/// only when the operating system's random source fails, which no argument
/// can rule out.
#[verifier::external_body]
fn fresh_uuid() -> (r: String)
    ensures
        is_hyphenated_uuid(r@),
{
    uuid::Uuid::new_v4().to_string()
}

/// Relies on `chrono::Local::now` and `chrono::DateTime::to_rfc3339`: the
/// local time now, in RFC 3339.
#[verifier::external_body]
fn local_timestamp() -> (r: String) {
    chrono::Local::now().to_rfc3339()
}

/// Relies on `mime_guess::from_path` and `MimeGuess::first_or_octet_stream`:
/// the type follows from the name's extension alone, without disk access.
#[verifier::external_body]
fn guess_mime(name: &str) -> (r: String)
    ensures
        r@ == mime_of(name@),
{
    mime_guess::from_path(name).first_or_octet_stream().to_string()
}

/// A UUID in hyphenated form can name a directory of its own.
pub proof fn lemma_uuid_is_bare_name(s: Seq<char>)
    requires
        is_hyphenated_uuid(s),
    ensures
        is_bare_name(s),
{
    assert(s[0] == '-' || is_lower_hex(s[0]));
    assert(s != seq!['.']);
    assert(s != seq!['.', '.']);
    assert forall|i: int| 0 <= i < s.len() implies !is_separator(#[trigger] s[i]) by {
        assert(s[i] == '-' || is_lower_hex(s[i]));
    }
}

/// The record of a new project named `name`, with a fresh id and the
/// current time.
pub fn new_project(name: String) -> (r: ProjectRecord)
    ensures
        r.name == name,
        is_hyphenated_uuid(r.id@),
        is_bare_name(r.id@),
{
    let id = fresh_uuid();
    proof {
        lemma_uuid_is_bare_name(id@);
    }
    ProjectRecord { id, name, created_at: local_timestamp() }
}

/// The asset record of the file `file_name` whose media type is `mime`: the
/// file name is both its id and its name.
pub fn asset_with_mime(file_name: String, mime: String) -> (r: AssetRecord)
    ensures
        r.id@ == file_name@,
        r.name@ == file_name@,
        r.mime_type == mime,
{
    AssetRecord { id: file_name.clone(), name: file_name, mime_type: mime }
}

/// The asset record of the file `file_name`, with its media type guessed
/// from the name.
pub fn asset_for_file(file_name: String) -> (r: AssetRecord)
    ensures
        r.id@ == file_name@,
        r.name@ == file_name@,
        r.mime_type@ == mime_of(file_name@),
{
    let mime = guess_mime(file_name.as_str());
    asset_with_mime(file_name, mime)
}

/// The name shown for the active project: its registry name, or `Unknown`
/// when the registry has none.
pub fn display_name(registered: Option<String>) -> (r: String)
    ensures
        registered matches Some(n) ==> r == n,
        registered is None ==> r@ == "Unknown"@,
{
    match registered {
        Some(n) => n,
        None => String::from_str("Unknown"),
    }
}

} // verus!
