//! Command-line settings of a generation run.
use vstd::prelude::*;
use crate::application::use_cases::GenerateDevContainerRequest;

verus! {

/// The settings given on the command line.
#[derive(Debug, Clone)]
pub struct Cli {
    pub dir: String,
    pub name: Option<String>,
    pub image_name: Option<String>,
    pub container_name: Option<String>,
    pub base_image: Option<String>,
    pub force: bool,
}

impl Cli {
    /// The generation request carrying these settings.
    pub fn to_request(self) -> (r: GenerateDevContainerRequest)
        ensures
            r.dir == self.dir,
            r.name == self.name,
            r.image_name == self.image_name,
            r.container_name == self.container_name,
            r.base_image == self.base_image,
            r.force == self.force,
    {
        GenerateDevContainerRequest {
            dir: self.dir,
            name: self.name,
            image_name: self.image_name,
            container_name: self.container_name,
            base_image: self.base_image,
            force: self.force,
        }
    }
}

} // verus!
