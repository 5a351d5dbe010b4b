//! Decisions of the request layer that depend on stored values: which page a
//! screen is served, and whether an import may go ahead.

use vstd::prelude::*;
use crate::paths::{asset_path, asset_path_of, is_bare_name, PathError};
use crate::records::AppConfig;

verus! {

/// The page a screen is served at its root.
#[derive(Debug, Clone, Copy, PartialEq, Eq, Structural)]
pub enum Page {
    /// No monitor assignment is stored yet.
    Setup,
    /// The screen assigned to the dashboard.
    Dashboard,
    /// Every other screen.
    Projection,
}

/// The name a screen goes by when it sends none.
pub open spec fn screen_or_default(screen: Option<Seq<char>>) -> Seq<char> {
    match screen {
        Some(s) => s,
        None => "Unknown"@,
    }
}

/// The page for `screen`, given the dashboard screen of the stored
/// assignment, if one is stored.
pub open spec fn page_of(screen: Option<Seq<char>>, dashboard: Option<Seq<char>>) -> Page {
    match dashboard {
        None => Page::Setup,
        Some(d) => if screen_or_default(screen) == d {
            Page::Dashboard
        } else {
            Page::Projection
        },
    }
}

/// The page served to `screen` under the stored assignment `config`.
pub fn page_for(screen: Option<&str>, config: Option<&AppConfig>) -> (r: Page)
    ensures
        r == page_of(
            match screen {
                Some(s) => Some(s@),
                None => None,
            },
            match config {
                Some(c) => Some(c.dashboard_screen_name@),
                None => None,
            },
        ),
{
    match config {
        None => Page::Setup,
        Some(c) => {
            let name = match screen {
                Some(s) => String::from_str(s),
                None => String::from_str("Unknown"),
            };
            if name == c.dashboard_screen_name {
                Page::Dashboard
            } else {
                Page::Projection
            }
        },
    }
}

impl Page {
    /// The file of the built UI that holds the page.
    pub fn file(&self) -> (r: &'static str)
        ensures
            *self == Page::Setup ==> r@ == "./ui/dist/setup.html"@,
            *self == Page::Dashboard ==> r@ == "./ui/dist/index.html"@,
            *self == Page::Projection ==> r@ == "./ui/dist/projection.html"@,
    {
        match self {
            Page::Setup => "./ui/dist/setup.html",
            Page::Dashboard => "./ui/dist/index.html",
            Page::Projection => "./ui/dist/projection.html",
        }
    }
}

/// Why an import of a media file is refused.
#[derive(Debug, Clone, Copy, PartialEq, Eq, Structural)]
pub enum ImportError {
    /// The source file does not exist.
    SourceMissing,
    /// The source has no file name that can be stored under the assets root.
    BadFileName,
    /// A file of that name is stored already and overwriting was not asked for.
    Conflict,
}

/// Where an import stores its file.
#[derive(Debug, Clone, PartialEq, Eq)]
pub struct ImportTarget {
    /// The file's name, which is also its asset id.
    pub file_name: String,
    /// Its location under the assets root.
    pub dest: String,
}

/// First decision of an import: the source must exist, and its file name
/// must be a bare name, which gives the destination.
pub fn import_target(source_exists: bool, file_name: Option<&str>) -> (r: Result<
    ImportTarget,
    ImportError,
>)
    ensures
        !source_exists ==> r == Err::<ImportTarget, ImportError>(ImportError::SourceMissing),
        source_exists ==> match file_name {
            Some(n) => if is_bare_name(n@) {
                r matches Ok(t) && t.file_name@ == n@ && t.dest@ == asset_path_of(n@)
            } else {
                r == Err::<ImportTarget, ImportError>(ImportError::BadFileName)
            },
            None => r == Err::<ImportTarget, ImportError>(ImportError::BadFileName),
        },
{
    if !source_exists {
        return Err(ImportError::SourceMissing);
    }
    match file_name {
        None => Err(ImportError::BadFileName),
        Some(n) => match asset_path(n) {
            Ok(dest) => Ok(ImportTarget { file_name: String::from_str(n), dest }),
            Err(PathError::NotBareName) => Err(ImportError::BadFileName),
        },
    }
}

/// Second decision of an import, once the destination is known: a file
/// already there is a conflict unless `overwrite` is set. On success, whether
/// the source must be copied, which it need not be when it lies in the
/// assets directory already.
pub fn import_copy_needed(dest_exists: bool, overwrite: bool, source_in_assets: bool) -> (r: Result<
    bool,
    ImportError,
>)
    ensures
        dest_exists && !overwrite ==> r == Err::<bool, ImportError>(ImportError::Conflict),
        !(dest_exists && !overwrite) ==> r == Ok::<bool, ImportError>(!source_in_assets),
{
    if dest_exists && !overwrite {
        Err(ImportError::Conflict)
    } else {
        Ok(!source_in_assets)
    }
}

} // verus!
