//! The application settings the supervisor's callers consult: where
//! the project folders live.  Persistence is file I/O and stays with
//! the embedding application; the library defines the value and its
//! default.

use vstd::prelude::*;

verus! {

/// The persisted settings: the directory the project folders live in.
#[derive(Clone, Debug)]
pub struct Settings {
    pub projects_directory: String,
}

impl Default for Settings {
    /// The settings before any were saved: no projects directory.
    fn default() -> (s: Settings)
        ensures
            s.projects_directory@ == Seq::<char>::empty(),
    {
        Settings { projects_directory: String::new() }
    }
}

} // verus!
