//! Template information as the template catalogue describes it.
//!
//! The caller fetches a template's `devcontainer.json` and
//! `devcontainer-template.json`; `parse_devcontainer_json` and
//! `parse_template_json` parse them, and `template_info_from_json` reads the
//! image and its variants out of the two documents.
use vstd::prelude::*;
use vstd::string::*;
use crate::json::{
    JsonValue, json_get, json_get_opt, json_parsed, json_str, opt_str, parse_json,
    string_elements, strings_of,
};

verus! {

/// A template of the catalogue.
#[derive(Debug, Clone)]
pub struct Template {
    pub name: String,
    pub path: String,
}

/// The image of a template and its variant options.
#[derive(Debug, Clone)]
pub struct TemplateInfo {
    pub image: String,
    pub options: TemplateOptions,
}

/// The options of a template.
#[derive(Debug, Clone)]
pub struct TemplateOptions {
    pub image_variant: ImageVariant,
}

/// The image variants a template offers: the default and the proposals.
#[derive(Debug, Clone)]
pub struct ImageVariant {
    pub default: String,
    pub proposals: Vec<String>,
}

/// Why the information of a template could not be read.
#[derive(Debug)]
pub enum TemplateInfoError {
    /// A document is not JSON.
    InvalidJson(serde_json::Error),
    /// `devcontainer.json` is not a JSON object.
    DevcontainerNotObject,
    /// `devcontainer-template.json` is not a JSON object.
    TemplateNotObject,
    /// `devcontainer.json` has no string member `image`.
    ImageNotFound,
    /// `devcontainer-template.json` has no member `options.imageVariant`.
    ImageVariantNotFound,
}

impl TemplateInfoError {
    /// The text of the error.
    pub fn message(&self) -> (r: String)
        ensures
            r@ == match self {
                TemplateInfoError::InvalidJson(_) => "the document is not valid JSON"@,
                TemplateInfoError::DevcontainerNotObject => "devcontainer.json is not a JSON object"@,
                TemplateInfoError::TemplateNotObject => "devcontainer-template.json is not a JSON object"@,
                TemplateInfoError::ImageNotFound => "Image not found in devcontainer.json"@,
                TemplateInfoError::ImageVariantNotFound => "Image variant options not found"@,
            },
    {
        match self {
            TemplateInfoError::InvalidJson(_) => String::from_str("the document is not valid JSON"),
            TemplateInfoError::DevcontainerNotObject => String::from_str(
                "devcontainer.json is not a JSON object",
            ),
            TemplateInfoError::TemplateNotObject => String::from_str(
                "devcontainer-template.json is not a JSON object",
            ),
            TemplateInfoError::ImageNotFound => String::from_str("Image not found in devcontainer.json"),
            TemplateInfoError::ImageVariantNotFound => String::from_str("Image variant options not found"),
        }
    }
}

/// The member `options.imageVariant` of `devcontainer-template.json`.
pub open spec fn variant_options(template: JsonValue) -> Option<JsonValue> {
    json_get_opt(json_get(template, "options"@), "imageVariant"@)
}

/// The default variant: the string member `default`, or `latest`.
pub open spec fn default_variant(options: JsonValue) -> Seq<char> {
    match json_str(json_get(options, "default"@)) {
        Some(d) => d,
        None => "latest"@,
    }
}

/// The proposed variants: the string elements of the array member
/// `proposals`, or none when there is no such array.
pub open spec fn proposed_variants(options: JsonValue) -> Seq<Seq<char>> {
    match json_get(options, "proposals"@) {
        Some(JsonValue::Array(a)) => string_elements(a@),
        _ => seq![],
    }
}

/// The outcome of `template_info_from_json`: an error, or the image, the
/// default variant and the proposed variants.
pub open spec fn template_info_spec(devcontainer: JsonValue, template: JsonValue) -> Result<
    (Seq<char>, Seq<char>, Seq<Seq<char>>),
    TemplateInfoError,
> {
    if !(devcontainer is Object) {
        Err(TemplateInfoError::DevcontainerNotObject)
    } else if !(template is Object) {
        Err(TemplateInfoError::TemplateNotObject)
    } else {
        match json_str(json_get(devcontainer, "image"@)) {
            None => Err(TemplateInfoError::ImageNotFound),
            Some(image) => match variant_options(template) {
                None => Err(TemplateInfoError::ImageVariantNotFound),
                Some(options) => Ok(
                    (image, default_variant(options), proposed_variants(options)),
                ),
            },
        }
    }
}

/// Whether `r` is the outcome `outcome` of `template_info_spec`: the same
/// error, or information with that image, default and proposals.
pub open spec fn info_agrees(
    r: Result<TemplateInfo, TemplateInfoError>,
    outcome: Result<(Seq<char>, Seq<char>, Seq<Seq<char>>), TemplateInfoError>,
) -> bool {
    match outcome {
        Ok((image, default, proposals)) => r matches Ok(info) && info.image@ == image
            && info.options.image_variant.default@ == default
            && info.options.image_variant.proposals.deep_view() == proposals,
        Err(e) => r matches Err(e2) && e2 == e,
    }
}

/// Reads the template information out of a template's parsed
/// `devcontainer.json` and `devcontainer-template.json` (see
/// `template_info_spec`).
pub fn template_info_from_json(devcontainer: &JsonValue, template: &JsonValue) -> (r: Result<
    TemplateInfo,
    TemplateInfoError,
>)
    ensures
        info_agrees(r, template_info_spec(*devcontainer, *template)),
{
    if !devcontainer.is_object() {
        return Err(TemplateInfoError::DevcontainerNotObject);
    }
    if !template.is_object() {
        return Err(TemplateInfoError::TemplateNotObject);
    }
    let image = match opt_str(devcontainer.get("image")) {
        Some(s) => s.clone(),
        None => {
            return Err(TemplateInfoError::ImageNotFound);
        },
    };
    let options = match template.get("options") {
        Some(o) => match o.get("imageVariant") {
            Some(v) => v,
            None => {
                return Err(TemplateInfoError::ImageVariantNotFound);
            },
        },
        None => {
            return Err(TemplateInfoError::ImageVariantNotFound);
        },
    };
    let default = match opt_str(options.get("default")) {
        Some(s) => s.clone(),
        None => String::from_str("latest"),
    };
    let proposals = match options.get("proposals") {
        Some(p) => match p.as_array() {
            Some(a) => strings_of(a),
            None => Vec::new(),
        },
        None => Vec::new(),
    };
    proof {
        if !(json_get(*options, "proposals"@) matches Some(JsonValue::Array(_))) {
            assert(proposals.deep_view() =~= seq![]);
        }
    }
    Ok(TemplateInfo { image, options: TemplateOptions { image_variant: ImageVariant { default, proposals } } })
}

/// Parses the text of `devcontainer.json`, which must be a JSON object.
pub fn parse_devcontainer_json(text: &str) -> (r: Result<JsonValue, TemplateInfoError>)
    ensures
        match json_parsed(text@) {
            None => r matches Err(TemplateInfoError::InvalidJson(_)),
            Some(v) => if v is Object {
                r == Ok::<JsonValue, TemplateInfoError>(v)
            } else {
                r matches Err(TemplateInfoError::DevcontainerNotObject)
            },
        },
{
    match parse_json(text) {
        Ok(v) => if v.is_object() {
            Ok(v)
        } else {
            Err(TemplateInfoError::DevcontainerNotObject)
        },
        Err(e) => Err(TemplateInfoError::InvalidJson(e)),
    }
}

/// Parses the text of `devcontainer-template.json`, which must be a JSON object.
pub fn parse_template_json(text: &str) -> (r: Result<JsonValue, TemplateInfoError>)
    ensures
        match json_parsed(text@) {
            None => r matches Err(TemplateInfoError::InvalidJson(_)),
            Some(v) => if v is Object {
                r == Ok::<JsonValue, TemplateInfoError>(v)
            } else {
                r matches Err(TemplateInfoError::TemplateNotObject)
            },
        },
{
    match parse_json(text) {
        Ok(v) => if v.is_object() {
            Ok(v)
        } else {
            Err(TemplateInfoError::TemplateNotObject)
        },
        Err(e) => Err(TemplateInfoError::InvalidJson(e)),
    }
}

/// Reads the template information out of the texts of a template's
/// `devcontainer.json` and `devcontainer-template.json`: the first is
/// parsed and checked before the second is looked at.
pub fn template_info_from_text(devcontainer: &str, template: &str) -> (r: Result<
    TemplateInfo,
    TemplateInfoError,
>)
    ensures
        match json_parsed(devcontainer@) {
            None => r matches Err(TemplateInfoError::InvalidJson(_)),
            Some(d) => if !(d is Object) {
                r matches Err(TemplateInfoError::DevcontainerNotObject)
            } else {
                match json_parsed(template@) {
                    None => r matches Err(TemplateInfoError::InvalidJson(_)),
                    Some(t) => info_agrees(r, template_info_spec(d, t)),
                }
            },
        },
{
    let d = parse_devcontainer_json(devcontainer)?;
    let t = parse_template_json(template)?;
    template_info_from_json(&d, &t)
}

} // verus!
