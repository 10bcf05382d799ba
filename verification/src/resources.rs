//! Resource path handling.
//!
//! Paths are modeled as strings with `/` separators. Finding the
//! executable's own directory needs the process environment and lives
//! outside the library; the library receives the resolved root and maps
//! resource names below it.

use vstd::prelude::*;

verus! {

/// A failure while locating resources.
#[derive(Debug)]
pub enum ResourceError {
    /// An input/output failure, with its message.
    Io(String),
    /// The application executable's path could not be determined.
    FailedToGetExePath,
}

impl ResourceError {
    /// One line saying what failed.
    pub fn describe(&self) -> (s: String)
        ensures
            match self {
                ResourceError::Io(m) => s@ == m@,
                ResourceError::FailedToGetExePath => s@
                    == "Could not get application executable path."@,
            },
    {
        match self {
            ResourceError::Io(m) => m.clone(),
            ResourceError::FailedToGetExePath => String::from_str(
                "Could not get application executable path.",
            ),
        }
    }
}

/// A resource name resolved below a root: the root, a separator, and the
/// name's parts joined back with the same separator — which is the name
/// itself, part for part.
pub open spec fn resource_path_v(root: Seq<char>, location: Seq<char>) -> Seq<char> {
    root + "/"@ + location
}

/// The resource store: the root directory every resource name is resolved
/// below.
#[derive(Debug)]
pub struct Resources {
    root_path: String,
}

impl Resources {
    /// The root path.
    pub closed spec fn root_v(&self) -> Seq<char> {
        self.root_path@
    }

    /// A store rooted at the given path.
    pub fn new(root_path: String) -> (r: Resources)
        ensures
            r.root_v() == root_path@,
    {
        Resources { root_path }
    }

    /// The root path.
    pub fn root_path(&self) -> (p: String)
        ensures
            p@ == self.root_v(),
    {
        self.root_path.clone()
    }

    /// The path of the resource called `location`: each `/`-separated part
    /// of the name joined below the root.
    pub fn resource_name_to_path(&self, location: &str) -> (p: String)
        ensures
            p@ == resource_path_v(self.root_v(), location@),
    {
        let mut p = self.root_path.clone();
        p.append("/");
        p.append(location);
        p
    }
}

} // verus!
