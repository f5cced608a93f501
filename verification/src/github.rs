//! Reading the template catalogue of the GitHub contents API.
//!
//! The caller performs the HTTP requests and parses the directory listing;
//! the functions here build the request URLs, pick the templates out of a
//! listing, decode a file's Base64 content, drop comment lines, parse the
//! JSON, and read the image configuration out of `devcontainer.json`.
use vstd::prelude::*;
use vstd::string::*;
use vstd::utf8::{decode_utf8, valid_utf8};
use base64::Engine;
use crate::domain::models::template::{
    DevContainerTemplate, DevContainerTemplateView, ImageConfiguration,
};
use crate::json::{JsonValue, json_get, json_parsed, json_str, opt_str, parse_json};
use crate::text::{replace_all, replaced, str_eq, strip_comment_lines, without_comment_lines};

verus! {

#[verifier::external_type_specification]
#[verifier::external_body]
pub struct ExDecodeError(base64::DecodeError);

#[verifier::external_type_specification]
#[verifier::external_body]
pub struct ExFromUtf8Error(std::string::FromUtf8Error);

/// The bytes that the standard Base64 alphabet with padding decodes `input`
/// to, or `None` when `input` is not valid Base64 of that kind.
pub uninterp spec fn base64_decoded(input: Seq<char>) -> Option<Seq<u8>>;

/// Calls `base64::engine::general_purpose::STANDARD.decode` on the bytes of
/// `input`. Trusted: it succeeds exactly when `base64_decoded(input@)` is
/// `Some`, and then yields those bytes.
#[verifier::external_body]
fn decode_base64(input: &str) -> (r: Result<Vec<u8>, base64::DecodeError>)
    ensures
        match r {
            Ok(bytes) => base64_decoded(input@) == Some(bytes@),
            Err(_) => base64_decoded(input@) is None,
        },
{
    base64::engine::general_purpose::STANDARD.decode(input)
}

/// Calls std `String::from_utf8`. Trusted: it succeeds exactly on valid
/// UTF-8, and then holds the decoded characters.
#[verifier::external_body]
fn string_from_utf8(bytes: Vec<u8>) -> (r: Result<String, std::string::FromUtf8Error>)
    ensures
        match r {
            Ok(s) => valid_utf8(bytes@) && s@ == decode_utf8(bytes@),
            Err(_) => !valid_utf8(bytes@),
        },
{
    String::from_utf8(bytes)
}

/// The API base used when none is given.
pub open spec fn default_api_base_spec() -> Seq<char> {
    "https://api.github.com"@
}

/// The address of the public GitHub API.
pub fn default_api_base() -> (r: &'static str)
    ensures
        r@ == default_api_base_spec(),
{
    "https://api.github.com"
}

/// `base`, or the public GitHub API when none is given.
pub fn api_base(base: Option<&str>) -> (r: &str)
    ensures
        r@ == match base {
            Some(b) => b@,
            None => default_api_base_spec(),
        },
{
    match base {
        Some(b) => b,
        None => default_api_base(),
    }
}

/// The path of the template catalogue below an API base.
pub open spec fn catalogue_path() -> Seq<char> {
    "/repos/devcontainers/templates/contents/src"@
}

/// The URL that lists the template catalogue.
pub fn templates_url(base: &str) -> (r: String)
    ensures
        r@ == base@ + catalogue_path(),
{
    let mut r = String::from_str(base);
    r.append("/repos/devcontainers/templates/contents/src");
    r
}

/// The URL of a template's `devcontainer.json`.
pub fn devcontainer_json_url(base: &str, template: &str) -> (r: String)
    ensures
        r@ == base@ + catalogue_path() + "/"@ + template@ + "/.devcontainer/devcontainer.json"@,
{
    let mut r = templates_url(base);
    r.append("/");
    r.append(template);
    r.append("/.devcontainer/devcontainer.json");
    r
}

/// The URL of a template's `devcontainer-template.json`.
pub fn template_json_url(base: &str, template: &str) -> (r: String)
    ensures
        r@ == base@ + catalogue_path() + "/"@ + template@ + "/devcontainer-template.json"@,
{
    let mut r = templates_url(base);
    r.append("/");
    r.append(template);
    r.append("/devcontainer-template.json");
    r
}

/// An entry of a directory listing of the contents API.
#[derive(Debug, Clone)]
pub struct DirEntry {
    pub name: String,
    pub path: String,
    pub content_type: String,
}

/// The templates of a listing: one per directory entry, in listing order.
pub open spec fn listed_templates(entries: Seq<DirEntry>) -> Seq<DevContainerTemplateView>
    decreases entries.len(),
{
    if entries.len() == 0 {
        seq![]
    } else {
        let rest = listed_templates(entries.drop_last());
        let e = entries.last();
        if e.content_type@ == "dir"@ {
            rest.push(DevContainerTemplateView { name: e.name@, path: e.path@ })
        } else {
            rest
        }
    }
}

/// The templates of a catalogue listing: the directory entries, in order.
pub fn templates_from_listing(entries: Vec<DirEntry>) -> (r: Vec<DevContainerTemplate>)
    ensures
        r.deep_view() == listed_templates(entries@),
{
    let mut r: Vec<DevContainerTemplate> = Vec::new();
    let mut i: usize = 0;
    while i < entries.len()
        invariant
            0 <= i <= entries@.len(),
            r.deep_view() == listed_templates(entries@.take(i as int)),
        decreases entries@.len() - i,
    {
        assert(entries@.take(i + 1).drop_last() =~= entries@.take(i as int));
        assert(entries@.take(i + 1).last() == entries@[i as int]);
        let e = &entries[i];
        if str_eq(e.content_type.as_str(), "dir") {
            let ghost old_r = r.deep_view();
            r.push(DevContainerTemplate::new(e.name.clone(), e.path.clone()));
            assert(r.deep_view() =~= old_r.push(DevContainerTemplateView { name: e.name@, path: e.path@ }));
        }
        i = i + 1;
    }
    assert(entries@.take(i as int) =~= entries@);
    r
}

/// A file as the contents API returns it: its content and the content's encoding.
#[derive(Debug, Clone)]
pub struct GitHubContent {
    pub content: String,
    pub encoding: String,
}

/// Why a template's `devcontainer.json` could not be read.
#[derive(Debug)]
pub enum TemplateError {
    /// The content is not Base64-encoded.
    UnexpectedEncoding,
    /// The content is not valid Base64.
    InvalidBase64(base64::DecodeError),
    /// The decoded bytes are not UTF-8.
    InvalidUtf8(std::string::FromUtf8Error),
    /// The text without comment lines is not JSON.
    InvalidJson(serde_json::Error),
    /// The document has no string member `image`.
    ImageNotFound,
}

/// Decodes a file of the contents API into JSON text without comment
/// lines: the encoding must be `base64`; line feeds of the encoded text are
/// removed before decoding; the bytes must be UTF-8.
pub fn decode_template_content(content: &GitHubContent) -> (r: Result<String, TemplateError>)
    ensures
        content.encoding@ != "base64"@ ==> r matches Err(TemplateError::UnexpectedEncoding),
        content.encoding@ == "base64"@ ==> match base64_decoded(replaced(content.content@, "\n"@, ""@)) {
            None => r matches Err(TemplateError::InvalidBase64(_)),
            Some(bytes) => if valid_utf8(bytes) {
                r matches Ok(text) && text@ == without_comment_lines(decode_utf8(bytes))
            } else {
                r matches Err(TemplateError::InvalidUtf8(_))
            },
        },
{
    if !str_eq(content.encoding.as_str(), "base64") {
        return Err(TemplateError::UnexpectedEncoding);
    }
    let line_feed = "\n";
    proof {
        reveal_strlit("\n");
    }
    let joined = replace_all(content.content.as_str(), line_feed, "");
    let bytes = match decode_base64(joined.as_str()) {
        Ok(b) => b,
        Err(e) => {
            return Err(TemplateError::InvalidBase64(e));
        },
    };
    let text = match string_from_utf8(bytes) {
        Ok(t) => t,
        Err(e) => {
            return Err(TemplateError::InvalidUtf8(e));
        },
    };
    Ok(strip_comment_lines(text.as_str()))
}

/// The image configuration that `devcontainer.json` declares: the string
/// member `image`, with the variant given by the string member
/// `imageVariant`, or `latest` when there is none.
pub open spec fn image_config_spec(v: JsonValue) -> Option<(Seq<char>, Seq<char>)> {
    match json_str(json_get(v, "image"@)) {
        Some(image) => Some(
            (
                image,
                match json_str(json_get(v, "imageVariant"@)) {
                    Some(variant) => variant,
                    None => "latest"@,
                },
            ),
        ),
        None => None,
    }
}

/// Reads the image configuration out of a parsed `devcontainer.json`
/// (see `image_config_spec`); `ImageNotFound` when there is no string `image`.
pub fn image_config_from_json(v: &JsonValue) -> (r: Result<ImageConfiguration, TemplateError>)
    ensures
        match image_config_spec(*v) {
            Some((image, variant)) => r matches Ok(c) && c.base_image@ == image && c.variant@
                == variant,
            None => r matches Err(TemplateError::ImageNotFound),
        },
{
    let image = match opt_str(v.get("image")) {
        Some(s) => s.clone(),
        None => {
            return Err(TemplateError::ImageNotFound);
        },
    };
    let variant = match opt_str(v.get("imageVariant")) {
        Some(s) => s.clone(),
        None => String::from_str("latest"),
    };
    Ok(ImageConfiguration::new(image, variant))
}

/// Reads the image configuration of a template out of its `devcontainer.json`
/// as the contents API returns it: decoded as `decode_template_content`
/// does, parsed as JSON, then read as `image_config_from_json` does.
pub fn parse_template_info(content: &GitHubContent) -> (r: Result<ImageConfiguration, TemplateError>)
    ensures
        content.encoding@ != "base64"@ ==> r matches Err(TemplateError::UnexpectedEncoding),
        content.encoding@ == "base64"@ ==> match base64_decoded(replaced(content.content@, "\n"@, ""@)) {
            None => r matches Err(TemplateError::InvalidBase64(_)),
            Some(bytes) => if !valid_utf8(bytes) {
                r matches Err(TemplateError::InvalidUtf8(_))
            } else {
                match json_parsed(without_comment_lines(decode_utf8(bytes))) {
                    None => r matches Err(TemplateError::InvalidJson(_)),
                    Some(v) => match image_config_spec(v) {
                        Some((image, variant)) => r matches Ok(c) && c.base_image@ == image
                            && c.variant@ == variant,
                        None => r matches Err(TemplateError::ImageNotFound),
                    },
                }
            },
        },
{
    let text = decode_template_content(content)?;
    let value = match parse_json(text.as_str()) {
        Ok(v) => v,
        Err(e) => {
            return Err(TemplateError::InvalidJson(e));
        },
    };
    image_config_from_json(&value)
}

} // verus!
