//! Dev Container templates and the image configuration they name.
use vstd::prelude::*;
use vstd::string::*;
use crate::text::{replace_all, replaced};

verus! {

/// A Dev Container template of the template catalogue.
#[derive(Debug, Clone)]
pub struct DevContainerTemplate {
    pub name: String,
    pub path: String,
}

/// The abstract value of a `DevContainerTemplate`.
pub struct DevContainerTemplateView {
    pub name: Seq<char>,
    pub path: Seq<char>,
}

impl View for DevContainerTemplate {
    type V = DevContainerTemplateView;

    open spec fn view(&self) -> DevContainerTemplateView {
        DevContainerTemplateView { name: self.name@, path: self.path@ }
    }
}

impl DeepView for DevContainerTemplate {
    type V = DevContainerTemplateView;

    open spec fn deep_view(&self) -> DevContainerTemplateView {
        self@
    }
}

impl DevContainerTemplate {
    pub fn new(name: String, path: String) -> (r: Self)
        ensures
            r.name == name,
            r.path == path,
    {
        DevContainerTemplate { name, path }
    }
}

/// A Docker image reference that may contain the `${VARIANT}` placeholder,
/// and the variant to put in its place.
#[derive(Debug, Clone)]
pub struct ImageConfiguration {
    pub base_image: String,
    pub variant: String,
}

/// The placeholder that a template's image reference uses for its variant.
pub open spec fn variant_placeholder() -> Seq<char> {
    "${VARIANT}"@
}

/// The image reference with every `${VARIANT}` replaced by the variant.
pub open spec fn final_image_spec(base_image: Seq<char>, variant: Seq<char>) -> Seq<char> {
    replaced(base_image, variant_placeholder(), variant)
}

impl ImageConfiguration {
    pub fn new(base_image: String, variant: String) -> (r: Self)
        ensures
            r.base_image == base_image,
            r.variant == variant,
    {
        ImageConfiguration { base_image, variant }
    }

    /// The Docker image to use: the base image with its variant filled in.
    pub fn resolve_final_image(&self) -> (r: String)
        ensures
            r@ == final_image_spec(self.base_image@, self.variant@),
    {
        let placeholder = "${VARIANT}";
        proof {
            reveal_strlit("${VARIANT}");
        }
        replace_all(self.base_image.as_str(), placeholder, self.variant.as_str())
    }
}

} // verus!
