//! Properties that relate several functions of the library.
use vstd::prelude::*;
use crate::domain::models::config::{
    ComposeConfigBuilderView, ComposeConfigView, output_dir_spec, workspace_folder_spec,
};
use crate::path::{dir_name_spec, path_file_name, path_joined};
use crate::domain::models::file::GeneratedFileView;
use crate::domain::models::template::{final_image_spec, variant_placeholder};
use crate::domain::services::generator::{
    all_files_spec, compose_yaml_file, compose_yaml_text, devcontainer_json_file, devcontainer_json_text,
    dockerfile_text,
};
use crate::overwrite::{flagged, target_files_spec};
use crate::github::{DirEntry, listed_templates};
use crate::domain::models::template::DevContainerTemplateView;
use vstd::utf8::{encode_scalar, encode_utf8};
use crate::text::{lemma_replaced_absent, occurs_at};

verus! {

/// The files checked before overwriting are exactly the files a run
/// generates, in the same order, whatever the configuration.
pub proof fn law_checked_files_are_generated_files(c: ComposeConfigView)
    ensures
        all_files_spec(c).map_values(|f: GeneratedFileView| f.filename) == target_files_spec(),
{
    assert(all_files_spec(c).map_values(|f: GeneratedFileView| f.filename) =~= target_files_spec());
}

/// Defaults of the configuration: without a name the directory's name is
/// used, without an image name the name, and without a container name the
/// image name. Given values are kept.
pub proof fn law_configuration_defaults(b: ComposeConfigBuilderView, base_image: Seq<char>)
    ensures
        b.name is None ==> b.build(base_image).name == b.build(base_image).dir_name,
        b.image_name is None ==> b.build(base_image).image_name == b.build(base_image).name,
        b.container_name is None ==> b.build(base_image).container_name == b.build(
            base_image,
        ).image_name,
        b.name matches Some(n) ==> b.build(base_image).name == n,
        b.image_name matches Some(n) ==> b.build(base_image).image_name == n,
        b.container_name matches Some(n) ==> b.build(base_image).container_name == n,
        b.build(base_image).base_image == base_image,
        b.build(base_image).dir == b.dir,
        b.build(base_image).force == b.force,
{
}

/// An image reference without the `${VARIANT}` placeholder resolves to itself.
pub proof fn law_image_without_placeholder(base_image: Seq<char>, variant: Seq<char>)
    requires
        forall|i: int| 0 <= i < base_image.len() ==> !occurs_at(base_image, variant_placeholder(), i),
    ensures
        final_image_spec(base_image, variant) == base_image,
{
    reveal_strlit("${VARIANT}");
    lemma_replaced_absent(base_image, variant_placeholder(), variant);
}

/// The files rendered for a project given by its name and directory name
/// are those of a configuration whose name, image name and container name
/// are all the project's name.
pub proof fn law_project_files_match_configuration(c: ComposeConfigView)
    requires
        c.image_name == c.name,
        c.container_name == c.name,
    ensures
        all_files_spec(c)[0].content == devcontainer_json_text(
            c.name,
            workspace_folder_spec(c.dir_name),
            "app"@,
        ),
        all_files_spec(c)[1].content == compose_yaml_text(c.name, c.name, c.dir_name),
        all_files_spec(c)[2].content == dockerfile_text(c.base_image),
{
}

/// A run generates three files: `devcontainer.json` naming the project and
/// its workspace `/workspaces/<dir_name>`, `compose.yaml`, and a
/// `Dockerfile` that starts from the base image.
pub proof fn law_generated_files(c: ComposeConfigView)
    ensures
        all_files_spec(c).len() == 3,
        all_files_spec(c)[0] == devcontainer_json_file(c.name, c.dir_name),
        all_files_spec(c)[1] == compose_yaml_file(c),
        all_files_spec(c)[2].filename == "Dockerfile"@,
        all_files_spec(c)[2].content == "FROM "@ + c.base_image,
{
}

/// A generated file is empty exactly when its size in bytes is zero.
pub proof fn law_empty_iff_size_zero(content: Seq<char>)
    ensures
        (content.len() == 0) == (encode_utf8(content).len() == 0),
{
    if content.len() > 0 {
        assert(encode_utf8(content) == encode_scalar(content[0] as u32) + encode_utf8(
            content.drop_first(),
        ));
    }
}

/// How many flags of `present` are set.
pub open spec fn set_count(present: Seq<bool>) -> nat {
    present.filter(|b: bool| b).len()
}

proof fn lemma_flagged_push(names: Seq<Seq<char>>, present: Seq<bool>, x: Seq<char>, b: bool)
    requires
        names.len() == present.len(),
    ensures
        flagged(names.push(x), present.push(b)) == if b {
            flagged(names, present).push(x)
        } else {
            flagged(names, present)
        },
{
    assert(names.push(x).drop_last() =~= names);
    assert(present.push(b).take(names.len() as int) =~= present);
}

proof fn lemma_flagged_members(names: Seq<Seq<char>>, present: Seq<bool>)
    requires
        names.len() == present.len(),
    ensures
        flagged(names, present).len() == set_count(present),
        forall|k: int| 0 <= k < names.len() && present[k] ==> flagged(names, present).contains(names[k]),
        forall|x: Seq<char>| flagged(names, present).contains(x) ==> exists|k: int|
            0 <= k < names.len() && present[k] && names[k] == x,
    decreases names.len(),
{
    if names.len() > 0 {
        let n = names.len() - 1;
        let (ns, ps) = (names.drop_last(), present.drop_last());
        assert(present.take(n) =~= ps);
        assert(ns.push(names.last()) =~= names);
        assert(ps.push(present.last()) =~= present);
        lemma_flagged_members(ns, ps);
        lemma_flagged_push(ns, ps, names.last(), present.last());
        reveal(Seq::filter);
        assert(present.filter(|b: bool| b) == if present.last() {
            ps.filter(|b: bool| b).push(present.last())
        } else {
            ps.filter(|b: bool| b)
        });
        let r = flagged(names, present);
        let rest = flagged(ns, ps);
        assert forall|k: int| 0 <= k < names.len() && present[k] implies r.contains(names[k]) by {
            if k < n {
                assert(ns[k] == names[k] && ps[k] == present[k]);
                let j = choose|j: int| 0 <= j < rest.len() && rest[j] == ns[k];
                assert(r[j] == rest[j]);
            } else {
                assert(r[r.len() - 1] == names[k]);
            }
        }
        assert forall|x: Seq<char>| r.contains(x) implies exists|k: int|
            0 <= k < names.len() && present[k] && names[k] == x by {
            let j = choose|j: int| 0 <= j < r.len() && r[j] == x;
            if j < rest.len() {
                assert(rest[j] == x);
                assert(rest.contains(x));
                let k = choose|k: int| 0 <= k < ns.len() && ps[k] && ns[k] == x;
                assert(names[k] == x && present[k]);
            } else {
                assert(present[n] && names[n] == x);
            }
        }
    }
}

/// The files found before writing are exactly the target files whose flag
/// is set: each flagged target is among them, each of them is a flagged
/// target, and there are as many as there are set flags.
pub proof fn law_existing_files_are_the_flagged_targets(names: Seq<Seq<char>>, present: Seq<bool>)
    requires
        names.len() == present.len(),
    ensures
        flagged(names, present).len() == set_count(present),
        forall|k: int| 0 <= k < names.len() && present[k] ==> flagged(names, present).contains(names[k]),
        forall|x: Seq<char>| flagged(names, present).contains(x) ==> exists|k: int|
            0 <= k < names.len() && present[k] && names[k] == x,
{
    lemma_flagged_members(names, present);
}

/// Finding the existing files of two lists of targets one after the other
/// gives the existing files of the joined list: the order of the targets
/// is kept.
pub proof fn law_existing_files_keep_order(
    n1: Seq<Seq<char>>,
    p1: Seq<bool>,
    n2: Seq<Seq<char>>,
    p2: Seq<bool>,
)
    requires
        n1.len() == p1.len(),
        n2.len() == p2.len(),
    ensures
        flagged(n1 + n2, p1 + p2) == flagged(n1, p1) + flagged(n2, p2),
    decreases n2.len(),
{
    if n2.len() == 0 {
        assert(n1 + n2 =~= n1);
        assert(p1 + p2 =~= p1);
        assert(flagged(n1, p1) + flagged(n2, p2) =~= flagged(n1, p1));
    } else {
        let (m, q) = (n2.drop_last(), p2.drop_last());
        law_existing_files_keep_order(n1, p1, m, q);
        assert(n1 + n2 =~= (n1 + m).push(n2.last()));
        assert(p1 + p2 =~= (p1 + q).push(p2.last()));
        assert(m.push(n2.last()) =~= n2);
        assert(q.push(p2.last()) =~= p2);
        lemma_flagged_push(n1 + m, p1 + q, n2.last(), p2.last());
        lemma_flagged_push(m, q, n2.last(), p2.last());
        if p2.last() {
            assert(flagged(n1, p1) + flagged(m, q).push(n2.last()) =~= (flagged(n1, p1) + flagged(
                m,
                q,
            )).push(n2.last()));
        }
    }
}

/// Whether a listing entry is a directory.
pub open spec fn is_dir_entry(e: DirEntry) -> bool {
    e.content_type@ == "dir"@
}

/// The template a listing entry stands for.
pub open spec fn entry_template(e: DirEntry) -> DevContainerTemplateView {
    DevContainerTemplateView { name: e.name@, path: e.path@ }
}

proof fn lemma_listed_push(entries: Seq<DirEntry>, e: DirEntry)
    ensures
        listed_templates(entries.push(e)) == if is_dir_entry(e) {
            listed_templates(entries).push(entry_template(e))
        } else {
            listed_templates(entries)
        },
{
    assert(entries.push(e).drop_last() =~= entries);
}

proof fn lemma_listed_members(entries: Seq<DirEntry>)
    ensures
        listed_templates(entries).len() == entries.filter(|e: DirEntry| is_dir_entry(e)).len(),
        forall|k: int| 0 <= k < entries.len() && is_dir_entry(entries[k])
            ==> listed_templates(entries).contains(entry_template(entries[k])),
        forall|t: DevContainerTemplateView| listed_templates(entries).contains(t) ==> exists|k: int|
            0 <= k < entries.len() && is_dir_entry(entries[k]) && entry_template(entries[k]) == t,
    decreases entries.len(),
{
    if entries.len() > 0 {
        let n = entries.len() - 1;
        let es = entries.drop_last();
        assert(es.push(entries.last()) =~= entries);
        lemma_listed_members(es);
        lemma_listed_push(es, entries.last());
        reveal(Seq::filter);
        assert(entries.filter(|e: DirEntry| is_dir_entry(e)) == if is_dir_entry(entries.last()) {
            es.filter(|e: DirEntry| is_dir_entry(e)).push(entries.last())
        } else {
            es.filter(|e: DirEntry| is_dir_entry(e))
        });
        let r = listed_templates(entries);
        let rest = listed_templates(es);
        assert forall|k: int| 0 <= k < entries.len() && is_dir_entry(entries[k]) implies r.contains(
            entry_template(entries[k]),
        ) by {
            if k < n {
                assert(es[k] == entries[k]);
                let j = choose|j: int| 0 <= j < rest.len() && rest[j] == entry_template(es[k]);
                assert(r[j] == rest[j]);
            } else {
                assert(r[r.len() - 1] == entry_template(entries[k]));
            }
        }
        assert forall|t: DevContainerTemplateView| r.contains(t) implies exists|k: int|
            0 <= k < entries.len() && is_dir_entry(entries[k]) && entry_template(entries[k]) == t by {
            let j = choose|j: int| 0 <= j < r.len() && r[j] == t;
            if j < rest.len() {
                assert(rest[j] == t);
                assert(rest.contains(t));
                let k = choose|k: int| 0 <= k < es.len() && is_dir_entry(es[k]) && entry_template(es[k]) == t;
                assert(entries[k] == es[k]);
            } else {
                assert(is_dir_entry(entries[n]) && entry_template(entries[n]) == t);
            }
        }
    }
}

/// The templates of a listing are exactly its directory entries: each
/// directory entry gives a template with its name and path, each template
/// comes from a directory entry, and there are as many templates as
/// directory entries.
pub proof fn law_listing_templates_are_the_directories(entries: Seq<DirEntry>)
    ensures
        listed_templates(entries).len() == entries.filter(|e: DirEntry| is_dir_entry(e)).len(),
        forall|k: int| 0 <= k < entries.len() && is_dir_entry(entries[k])
            ==> listed_templates(entries).contains(entry_template(entries[k])),
        forall|t: DevContainerTemplateView| listed_templates(entries).contains(t) ==> exists|k: int|
            0 <= k < entries.len() && is_dir_entry(entries[k]) && entry_template(entries[k]) == t,
{
    lemma_listed_members(entries);
}

/// Reading two listings one after the other gives the templates of the
/// joined listing: templates come in listing order.
pub proof fn law_listing_keeps_order(e1: Seq<DirEntry>, e2: Seq<DirEntry>)
    ensures
        listed_templates(e1 + e2) == listed_templates(e1) + listed_templates(e2),
    decreases e2.len(),
{
    if e2.len() == 0 {
        assert(e1 + e2 =~= e1);
        assert(listed_templates(e1) + listed_templates(e2) =~= listed_templates(e1));
    } else {
        let m = e2.drop_last();
        law_listing_keeps_order(e1, m);
        assert(e1 + e2 =~= (e1 + m).push(e2.last()));
        assert(m.push(e2.last()) =~= e2);
        lemma_listed_push(e1 + m, e2.last());
        lemma_listed_push(m, e2.last());
        if is_dir_entry(e2.last()) {
            assert(listed_templates(e1) + listed_templates(m).push(entry_template(e2.last()))
                =~= (listed_templates(e1) + listed_templates(m)).push(entry_template(e2.last())));
        }
    }
}

/// The files are written into the `.devcontainer` directory inside the
/// target directory itself, whatever its path.
pub proof fn law_output_dir_is_inside_target_dir(dir: Seq<char>)
    ensures
        output_dir_spec(dir) == path_joined(dir, ".devcontainer"@),
{
}

/// The directory's name is the final component of its path as std
/// `Path::file_name` gives it, and `unknown` only when there is none; a
/// configuration built without names is named after it throughout.
pub proof fn law_dir_name_is_final_component(b: ComposeConfigBuilderView, base_image: Seq<char>)
    ensures
        dir_name_spec(b.dir) == match path_file_name(b.dir) {
            Some(n) => n,
            None => "unknown"@,
        },
        b.build(base_image).dir_name == dir_name_spec(b.dir),
        b.name is None && b.image_name is None && b.container_name is None ==> {
            &&& b.build(base_image).name == dir_name_spec(b.dir)
            &&& b.build(base_image).image_name == dir_name_spec(b.dir)
            &&& b.build(base_image).container_name == dir_name_spec(b.dir)
        },
{
}

/// The workspace folder that `devcontainer.json` opens is
/// `/workspaces/<dir_name>` with the directory name unchanged, and it is
/// the very path at which `compose.yaml` mounts the project.
pub proof fn law_workspace_folder_is_mount_target(c: ComposeConfigView)
    ensures
        workspace_folder_spec(c.dir_name) == "/workspaces/"@ + c.dir_name,
        all_files_spec(c)[0].content == devcontainer_json_text(
            c.name,
            "/workspaces/"@ + c.dir_name,
            "app"@,
        ),
        exists|pre: Seq<char>, post: Seq<char>|
            all_files_spec(c)[1].content == pre + "..:"@ + workspace_folder_spec(c.dir_name) + ":cached"@
                + post,
{
    reveal_strlit("..:");
    reveal_strlit("/workspaces/");
    reveal_strlit(":cached");
    reveal_strlit(":cached\n    command: sleep infinity\n");
    reveal_strlit("\n    command: sleep infinity\n");
    reveal_strlit("\n    build:\n      context: .\n      dockerfile: Dockerfile\n    volumes:\n      - ..:/workspaces/");
    reveal_strlit("\n    build:\n      context: .\n      dockerfile: Dockerfile\n    volumes:\n      - ");
    let pre = "services:\n  app:\n    image: "@ + c.image_name + ":latest\n    container_name: "@
        + c.container_name
        + "\n    build:\n      context: .\n      dockerfile: Dockerfile\n    volumes:\n      - "@;
    let post = "\n    command: sleep infinity\n"@;
    assert(all_files_spec(c)[1].content =~= pre + "..:"@ + workspace_folder_spec(c.dir_name) + ":cached"@
        + post);
}

} // verus!
