//! The Docker Compose configuration and the builder that fills in defaults.
use vstd::prelude::*;
use vstd::string::*;
use crate::path::{dir_name_of, dir_name_spec, join_path, path_joined};

verus! {

/// The Docker Compose settings of one generation run.
#[derive(Debug, Clone)]
pub struct ComposeConfig {
    pub dir: String,
    pub name: String,
    pub container_name: String,
    pub dir_name: String,
    pub image_name: String,
    pub base_image: String,
    pub force: bool,
}

/// The abstract value of a `ComposeConfig`.
pub struct ComposeConfigView {
    pub dir: Seq<char>,
    pub name: Seq<char>,
    pub container_name: Seq<char>,
    pub dir_name: Seq<char>,
    pub image_name: Seq<char>,
    pub base_image: Seq<char>,
    pub force: bool,
}

impl View for ComposeConfig {
    type V = ComposeConfigView;

    open spec fn view(&self) -> ComposeConfigView {
        ComposeConfigView {
            dir: self.dir@,
            name: self.name@,
            container_name: self.container_name@,
            dir_name: self.dir_name@,
            image_name: self.image_name@,
            base_image: self.base_image@,
            force: self.force,
        }
    }
}

/// The directory that receives the generated files: `.devcontainer` inside `dir`.
pub open spec fn output_dir_spec(dir: Seq<char>) -> Seq<char> {
    path_joined(dir, ".devcontainer"@)
}

impl ComposeConfig {
    pub fn new(
        dir: String,
        name: String,
        container_name: String,
        dir_name: String,
        image_name: String,
        base_image: String,
        force: bool,
    ) -> (r: Self)
        ensures
            r.dir == dir,
            r.name == name,
            r.container_name == container_name,
            r.dir_name == dir_name,
            r.image_name == image_name,
            r.base_image == base_image,
            r.force == force,
    {
        ComposeConfig { dir, name, container_name, dir_name, image_name, base_image, force }
    }

    /// The output directory: `.devcontainer` inside the target directory.
    pub fn output_dir(&self) -> (r: String)
        ensures
            r@ == output_dir_spec(self.dir@),
            r@ == path_joined(self.dir@, ".devcontainer"@),
    {
        join_path(self.dir.as_str(), ".devcontainer")
    }
}

/// The settings of `devcontainer.json`.
#[derive(Debug, Clone)]
pub struct DevContainerConfig {
    pub name: String,
    pub workspace_folder: String,
    pub service: String,
}

/// The workspace folder of a project directory named `dir_name`.
pub open spec fn workspace_folder_spec(dir_name: Seq<char>) -> Seq<char> {
    "/workspaces/"@ + dir_name
}

impl DevContainerConfig {
    /// A configuration named `name` whose workspace is `/workspaces/<dir_name>`,
    /// served by the compose service `app`.
    pub fn new(name: String, dir_name: String) -> (r: Self)
        ensures
            r.name == name,
            r.workspace_folder@ == workspace_folder_spec(dir_name@),
            r.workspace_folder@ == "/workspaces/"@ + dir_name@,
            r.service@ == "app"@,
    {
        let mut workspace_folder = String::from_str("/workspaces/");
        workspace_folder.append(dir_name.as_str());
        DevContainerConfig { name, workspace_folder, service: String::from_str("app") }
    }
}

/// Collects the optional settings of a run; `build` fills in the defaults.
#[derive(Debug, Clone)]
pub struct ComposeConfigBuilder {
    pub dir: String,
    pub name: Option<String>,
    pub image_name: Option<String>,
    pub container_name: Option<String>,
    pub base_image: Option<String>,
    pub force: bool,
}

/// The abstract value of a `ComposeConfigBuilder`.
pub struct ComposeConfigBuilderView {
    pub dir: Seq<char>,
    pub name: Option<Seq<char>>,
    pub image_name: Option<Seq<char>>,
    pub container_name: Option<Seq<char>>,
    pub base_image: Option<Seq<char>>,
    pub force: bool,
}

impl View for ComposeConfigBuilder {
    type V = ComposeConfigBuilderView;

    open spec fn view(&self) -> ComposeConfigBuilderView {
        ComposeConfigBuilderView {
            dir: self.dir@,
            name: self.name.deep_view(),
            image_name: self.image_name.deep_view(),
            container_name: self.container_name.deep_view(),
            base_image: self.base_image.deep_view(),
            force: self.force,
        }
    }
}

/// `o`'s value, or `d` when it has none.
pub open spec fn or_else(o: Option<Seq<char>>, d: Seq<char>) -> Seq<char> {
    match o {
        Some(v) => v,
        None => d,
    }
}

impl ComposeConfigBuilderView {
    /// The directory's name (see `dir_name_spec`).
    pub open spec fn dir_name(self) -> Seq<char> {
        dir_name_spec(self.dir)
    }

    /// The given name, else the directory's name.
    pub open spec fn resolved_name(self) -> Seq<char> {
        or_else(self.name, self.dir_name())
    }

    /// The given image name, else the resolved name.
    pub open spec fn resolved_image_name(self) -> Seq<char> {
        or_else(self.image_name, self.resolved_name())
    }

    /// The given container name, else the resolved image name.
    pub open spec fn resolved_container_name(self) -> Seq<char> {
        or_else(self.container_name, self.resolved_image_name())
    }

    /// The configuration that `build` yields for `base_image`.
    pub open spec fn build(self, base_image: Seq<char>) -> ComposeConfigView {
        ComposeConfigView {
            dir: self.dir,
            name: self.resolved_name(),
            container_name: self.resolved_container_name(),
            dir_name: self.dir_name(),
            image_name: self.resolved_image_name(),
            base_image,
            force: self.force,
        }
    }
}

fn value_or(o: &Option<String>, d: &String) -> (r: String)
    ensures
        r@ == or_else(o.deep_view(), d@),
{
    match o {
        Some(v) => v.clone(),
        None => d.clone(),
    }
}

impl ComposeConfigBuilder {
    /// A builder for `dir` with no optional setting and `force` off.
    pub fn new(dir: String) -> (r: Self)
        ensures
            r@ == (ComposeConfigBuilderView {
                dir: dir@,
                name: None,
                image_name: None,
                container_name: None,
                base_image: None,
                force: false,
            }),
    {
        ComposeConfigBuilder {
            dir,
            name: None,
            image_name: None,
            container_name: None,
            base_image: None,
            force: false,
        }
    }

    pub fn with_name(self, name: Option<String>) -> (r: Self)
        ensures
            r@ == (ComposeConfigBuilderView { name: name.deep_view(), ..self@ }),
    {
        let mut b = self;
        b.name = name;
        b
    }

    pub fn with_image_name(self, image_name: Option<String>) -> (r: Self)
        ensures
            r@ == (ComposeConfigBuilderView { image_name: image_name.deep_view(), ..self@ }),
    {
        let mut b = self;
        b.image_name = image_name;
        b
    }

    pub fn with_container_name(self, container_name: Option<String>) -> (r: Self)
        ensures
            r@ == (ComposeConfigBuilderView { container_name: container_name.deep_view(), ..self@ }),
    {
        let mut b = self;
        b.container_name = container_name;
        b
    }

    pub fn with_base_image(self, base_image: Option<String>) -> (r: Self)
        ensures
            r@ == (ComposeConfigBuilderView { base_image: base_image.deep_view(), ..self@ }),
    {
        let mut b = self;
        b.base_image = base_image;
        b
    }

    pub fn with_force(self, force: bool) -> (r: Self)
        ensures
            r@ == (ComposeConfigBuilderView { force, ..self@ }),
    {
        let mut b = self;
        b.force = force;
        b
    }

    /// The configuration with `base_image`; a missing name defaults to the
    /// directory's name, a missing image name to the name, and a missing
    /// container name to the image name.
    pub fn build(self, base_image: String) -> (r: ComposeConfig)
        ensures
            r@ == self@.build(base_image@),
    {
        self.build_with(base_image)
    }

    /// `build` without consuming the builder.
    pub fn build_with(&self, base_image: String) -> (r: ComposeConfig)
        ensures
            r@ == self@.build(base_image@),
    {
        let dir_name = dir_name_of(self.dir.as_str());
        let name = value_or(&self.name, &dir_name);
        let image_name = value_or(&self.image_name, &name);
        let container_name = value_or(&self.container_name, &image_name);
        ComposeConfig::new(
            self.dir.clone(),
            name,
            container_name,
            dir_name,
            image_name,
            base_image,
            self.force,
        )
    }

    /// Whether no base image was given, so that one has to be chosen.
    pub fn needs_base_image(&self) -> (r: bool)
        ensures
            r == (self.base_image is None),
    {
        self.base_image.is_none()
    }

    /// The base image, if one was given.
    pub fn get_base_image(&self) -> (r: Option<&String>)
        ensures
            r.deep_view() == self.base_image.deep_view(),
    {
        match &self.base_image {
            Some(b) => Some(b),
            None => None,
        }
    }
}

} // verus!
