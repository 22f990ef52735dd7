//! Where plugins are installed: a directory the user names, or the one
//! the application is found to use.

use vstd::prelude::*;
use vstd::string::*;

verus! {

/// Name of the environment variable that overrides the destination
/// directory.
pub const OVERRIDE_VARIABLE: &'static str = "ROBLOX_PLUGINS_PATH";

/// How the destination directory is to be found.
#[derive(Debug, PartialEq, Eq)]
pub enum Location {
    /// The directory the user named.
    Given(String),
    /// The directory the application uses, to be looked up.
    Detect,
}

/// Mathematical model of a [`Location`].
pub enum LocationView {
    Given(Seq<char>),
    Detect,
}

impl View for Location {
    type V = LocationView;

    open spec fn view(&self) -> LocationView {
        match self {
            Location::Given(path) => LocationView::Given(path@),
            Location::Detect => LocationView::Detect,
        }
    }
}

/// The user named a directory that does not exist.
#[derive(Debug, PartialEq, Eq)]
pub struct MissingDirectory {
    pub path: String,
}

impl MissingDirectory {
    /// A message that names the directory.
    pub fn message(&self) -> (text: String)
        ensures
            text@ == "Plugins path `"@ + self.path@ + "` does not exist"@,
    {
        let mut text = String::from_str("Plugins path `");
        text.append(self.path.as_str());
        text.append("` does not exist");
        text
    }
}

/// Decides where plugins go. A directory the user named is used if it
/// exists and is an error if it does not; without one the directory is
/// looked up. `exists` says whether the named directory is there.
pub fn choose_location(named: Option<String>, exists: bool) -> (choice: Result<
    Location,
    MissingDirectory,
>)
    ensures
        match named {
            Some(path) => if exists {
                choice matches Ok(l) && l@ == LocationView::Given(path@)
            } else {
                choice matches Err(e) && e.path@ == path@
            },
            None => choice matches Ok(l) && l@ == LocationView::Detect,
        },
{
    match named {
        Some(path) => {
            if exists {
                Ok(Location::Given(path))
            } else {
                Err(MissingDirectory { path })
            }
        },
        None => Ok(Location::Detect),
    }
}

} // verus!
