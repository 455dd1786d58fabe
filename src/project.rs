//! The files of a project.

use vstd::prelude::*;

verus! {

/// The project being described: the paths of all its files.
#[derive(Clone, Debug)]
pub struct Project {
    pub paths: Vec<String>,
}

impl Project {
    pub fn new(paths: Vec<String>) -> (r: Project)
        ensures
            r.paths == paths,
    {
        Project { paths }
    }
}

} // verus!
