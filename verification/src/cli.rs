//! Command-line settings of a generation run (the short form).
use vstd::prelude::*;
use crate::path::{dir_name_of, dir_name_spec};

verus! {

/// The settings given on the command line.
#[derive(Debug, Clone)]
pub struct Cli {
    pub dir: String,
    pub name: Option<String>,
    pub base_image: Option<String>,
    pub force: bool,
}

impl Cli {
    /// The name of the target directory (see `dir_name_spec`).
    pub fn get_dir_name(&self) -> (r: String)
        ensures
            r@ == dir_name_spec(self.dir@),
    {
        dir_name_of(self.dir.as_str())
    }

    /// The container's name: the given name, else the directory's name.
    pub fn get_container_name(&self) -> (r: String)
        ensures
            r@ == match self.name {
                Some(n) => n@,
                None => dir_name_spec(self.dir@),
            },
    {
        match &self.name {
            Some(n) => n.clone(),
            None => self.get_dir_name(),
        }
    }
}

} // verus!
