//! Naming rules for the storage tree: every name taken from a request is a
//! bare name before it is joined to a storage root.

use vstd::prelude::*;

verus! {

/// Why a name could not be joined to a storage root.
#[derive(Debug, Clone, Copy, PartialEq, Eq, Structural)]
pub enum PathError {
    /// Empty, `.`, `..`, or holding a path separator or NUL.
    NotBareName,
}

/// A character that may not appear in a bare name.
pub open spec fn is_separator(c: char) -> bool {
    c == '/' || c == '\\' || c == '\0'
}

/// A name that stays inside the directory it is joined to: not empty, not `.`
/// or `..`, and free of separators.
pub open spec fn is_bare_name(s: Seq<char>) -> bool {
    &&& s.len() > 0
    &&& s != seq!['.']
    &&& s != seq!['.', '.']
    &&& forall|i: int| 0 <= i < s.len() ==> !is_separator(#[trigger] s[i])
}

/// Directory that holds the store of project `id`.
pub open spec fn project_dir_of(id: Seq<char>) -> Seq<char> {
    "projects/"@ + id
}

/// Database file of the store of project `id`.
pub open spec fn project_db_path_of(id: Seq<char>) -> Seq<char> {
    project_dir_of(id) + "/project.db"@
}

/// Location of the media file `name`.
pub open spec fn asset_path_of(name: Seq<char>) -> Seq<char> {
    "assets/"@ + name
}

fn is_separator_char(c: char) -> (r: bool)
    ensures
        r == is_separator(c),
{
    c == '/' || c == '\\' || c == '\0'
}

/// Whether `s` is a bare name.
pub fn is_bare(s: &str) -> (r: bool)
    ensures
        r == is_bare_name(s@),
{
    let n = s.unicode_len();
    if n == 0 {
        return false;
    }
    if n == 1 && s.get_char(0) == '.' {
        assert(s@ =~= seq!['.']);
        return false;
    }
    if n == 2 && s.get_char(0) == '.' && s.get_char(1) == '.' {
        assert(s@ =~= seq!['.', '.']);
        return false;
    }
    assert(s@ != seq!['.']) by {
        if n == 1 {
            assert(s@[0] != seq!['.'][0]);
        }
    }
    assert(s@ != seq!['.', '.']) by {
        if n == 2 {
            if s@[0] != '.' {
                assert(s@[0] != seq!['.', '.'][0]);
            } else {
                assert(s@[1] != seq!['.', '.'][1]);
            }
        }
    }
    let mut i: usize = 0;
    while i < n
        invariant
            n as nat == s@.len(),
            i <= n,
            forall|j: int| 0 <= j < i ==> !is_separator(#[trigger] s@[j]),
        decreases n - i,
    {
        if is_separator_char(s.get_char(i)) {
            return false;
        }
        i = i + 1;
    }
    true
}

/// `name` as an owned bare name, or `NotBareName`.
pub fn bare_name(name: &str) -> (r: Result<String, PathError>)
    ensures
        r is Ok <==> is_bare_name(name@),
        r matches Ok(v) ==> v@ == name@,
        r matches Err(e) ==> e == PathError::NotBareName,
{
    if is_bare(name) {
        Ok(String::from_str(name))
    } else {
        Err(PathError::NotBareName)
    }
}

/// The directory of project `id`'s store.
pub fn project_dir(id: &str) -> (r: Result<String, PathError>)
    ensures
        r is Ok <==> is_bare_name(id@),
        r matches Ok(p) ==> p@ == project_dir_of(id@),
{
    if !is_bare(id) {
        return Err(PathError::NotBareName);
    }
    Ok(String::from_str("projects/").concat(id))
}

/// The database file of project `id`'s store.
pub fn project_db_path(id: &str) -> (r: Result<String, PathError>)
    ensures
        r is Ok <==> is_bare_name(id@),
        r matches Ok(p) ==> p@ == project_db_path_of(id@),
{
    if !is_bare(id) {
        return Err(PathError::NotBareName);
    }
    Ok(String::from_str("projects/").concat(id).concat("/project.db"))
}

/// The location of the media file `name`.
pub fn asset_path(name: &str) -> (r: Result<String, PathError>)
    ensures
        r is Ok <==> is_bare_name(name@),
        r matches Ok(p) ==> p@ == asset_path_of(name@),
{
    if !is_bare(name) {
        return Err(PathError::NotBareName);
    }
    Ok(String::from_str("assets/").concat(name))
}

/// The file name under which an upload is stored: the name the client sent
/// with it, or else the asset id of the request.
pub fn upload_file_name(sent: Option<&str>, id: &str) -> (r: Result<String, PathError>)
    ensures
        ({
            let chosen = match sent {
                Some(s) => s@,
                None => id@,
            };
            &&& r is Ok <==> is_bare_name(chosen)
            &&& r matches Ok(v) ==> v@ == chosen
        }),
{
    match sent {
        Some(s) => bare_name(s),
        None => bare_name(id),
    }
}

} // verus!
