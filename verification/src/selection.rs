//! Choosing a template from the catalogue.
use vstd::prelude::*;
use vstd::string::*;
use crate::domain::models::template::{DevContainerTemplate, DevContainerTemplateView};
use crate::text::str_eq;

verus! {

/// Why no template could be chosen.
#[derive(Debug, Clone, Copy, PartialEq, Eq)]
pub enum SelectionError {
    /// The catalogue is empty.
    NoTemplatesAvailable,
    /// No template has the chosen name.
    SelectedTemplateNotFound,
}

impl SelectionError {
    /// The text of the error.
    pub fn message(&self) -> (r: String)
        ensures
            r@ == match self {
                SelectionError::NoTemplatesAvailable => "利用可能なテンプレートがありません"@,
                SelectionError::SelectedTemplateNotFound => "選択されたテンプレートが見つかりません"@,
            },
    {
        match self {
            SelectionError::NoTemplatesAvailable => String::from_str("利用可能なテンプレートがありません"),
            SelectionError::SelectedTemplateNotFound => String::from_str(
                "選択されたテンプレートが見つかりません",
            ),
        }
    }
}

/// There must be at least one template to choose from.
pub fn check_templates_available(templates: &Vec<DevContainerTemplate>) -> (r: Result<
    (),
    SelectionError,
>)
    ensures
        r is Ok <==> templates@.len() > 0,
        r matches Err(e) ==> e == SelectionError::NoTemplatesAvailable,
{
    if templates.len() == 0 {
        Err(SelectionError::NoTemplatesAvailable)
    } else {
        Ok(())
    }
}

/// The names of the templates, in order: the choices offered to the user.
pub fn template_names(templates: &Vec<DevContainerTemplate>) -> (r: Vec<String>)
    ensures
        r.deep_view() == templates.deep_view().map_values(|t: DevContainerTemplateView| t.name),
{
    let mut r: Vec<String> = Vec::new();
    let mut i: usize = 0;
    while i < templates.len()
        invariant
            0 <= i <= templates@.len(),
            r.deep_view() == templates.deep_view().take(i as int).map_values(
                |t: DevContainerTemplateView| t.name,
            ),
        decreases templates@.len() - i,
    {
        let ghost old_r = r.deep_view();
        r.push(templates[i].name.clone());
        assert(r.deep_view() =~= old_r.push(templates[i as int].name@));
        let ghost tv = templates.deep_view();
        assert(tv[i as int] == templates@[i as int]@);
        assert(tv.take(i + 1).map_values(|t: DevContainerTemplateView| t.name) =~= tv.take(
            i as int,
        ).map_values(|t: DevContainerTemplateView| t.name).push(tv[i as int].name));
        i = i + 1;
    }
    assert(templates.deep_view().take(i as int) =~= templates.deep_view());
    r
}

/// The first template named `selected`.
pub fn find_template<'a>(templates: &'a Vec<DevContainerTemplate>, selected: &str) -> (r: Result<
    &'a DevContainerTemplate,
    SelectionError,
>)
    ensures
        r is Ok <==> exists|i: int| 0 <= i < templates@.len() && #[trigger] templates@[i].name@ == selected@,
        r matches Ok(t) ==> exists|i: int|
            0 <= i < templates@.len() && templates@[i] == *t && t.name@ == selected@ && forall|j: int|
                0 <= j < i ==> #[trigger] templates@[j].name@ != selected@,
        r matches Err(e) ==> e == SelectionError::SelectedTemplateNotFound,
{
    let mut i: usize = 0;
    while i < templates.len()
        invariant
            0 <= i <= templates@.len(),
            forall|j: int| 0 <= j < i ==> #[trigger] templates@[j].name@ != selected@,
        decreases templates@.len() - i,
    {
        if str_eq(templates[i].name.as_str(), selected) {
            return Ok(&templates[i]);
        }
        i = i + 1;
    }
    Err(SelectionError::SelectedTemplateNotFound)
}

} // verus!
