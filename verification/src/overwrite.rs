//! Whether generating may overwrite existing files, and what to ask the user.
use vstd::prelude::*;
use vstd::string::*;
use crate::text::{join, joined};

verus! {

/// The names of the files a run writes, in the order they are generated.
pub open spec fn target_files_spec() -> Seq<Seq<char>> {
    seq!["devcontainer.json"@, "compose.yaml"@, "Dockerfile"@]
}

/// The names of the files a run writes.
pub fn target_files() -> (r: Vec<String>)
    ensures
        r.deep_view() == target_files_spec(),
{
    let mut r: Vec<String> = Vec::new();
    r.push(String::from_str("devcontainer.json"));
    r.push(String::from_str("compose.yaml"));
    r.push(String::from_str("Dockerfile"));
    assert(r.deep_view() =~= target_files_spec());
    r
}

/// The names in `names` whose flag in `present` is set, in order.
pub open spec fn flagged(names: Seq<Seq<char>>, present: Seq<bool>) -> Seq<Seq<char>>
    decreases names.len(),
{
    if names.len() == 0 {
        seq![]
    } else {
        let rest = flagged(names.drop_last(), present.take(names.len() - 1));
        if present[names.len() - 1] {
            rest.push(names.last())
        } else {
            rest
        }
    }
}

/// The target files that exist: those whose flag in `present` is set.
pub fn existing_files(targets: &Vec<String>, present: &Vec<bool>) -> (r: Vec<String>)
    requires
        targets@.len() == present@.len(),
    ensures
        r.deep_view() == flagged(targets.deep_view(), present@),
{
    let mut r: Vec<String> = Vec::new();
    let mut i: usize = 0;
    while i < targets.len()
        invariant
            targets@.len() == present@.len(),
            0 <= i <= targets@.len(),
            r.deep_view() == flagged(targets.deep_view().take(i as int), present@.take(i as int)),
        decreases targets@.len() - i,
    {
        assert(targets.deep_view().take(i + 1).drop_last() =~= targets.deep_view().take(i as int));
        assert(present@.take(i + 1).take(i as int) =~= present@.take(i as int));
        if present[i] {
            let ghost old_r = r.deep_view();
            r.push(targets[i].clone());
            assert(r.deep_view() =~= old_r.push(targets[i as int]@));
        }
        i = i + 1;
    }
    assert(targets.deep_view().take(i as int) =~= targets.deep_view());
    assert(present@.take(i as int) =~= present@);
    r
}

/// The question asked before overwriting the files `existing` in `output_dir`.
pub open spec fn overwrite_prompt_spec(output_dir: Seq<char>, existing: Seq<Seq<char>>) -> Seq<char> {
    "以下のファイルが既に存在します（"@ + output_dir + "内）：\n"@ + joined(existing, "\n"@)
        + "\n上書きしますか？"@
}

/// The question asked before overwriting the files `existing` in `output_dir`.
pub fn overwrite_prompt(output_dir: &str, existing: &Vec<String>) -> (r: String)
    ensures
        r@ == overwrite_prompt_spec(output_dir@, existing.deep_view()),
{
    let mut r = String::from_str("以下のファイルが既に存在します（");
    r.append(output_dir);
    r.append("内）：\n");
    let list = join(existing, "\n");
    r.append(list.as_str());
    r.append("\n上書きしますか？");
    r
}

/// What to do before writing.
#[derive(Debug, Clone)]
pub enum OverwriteCheck {
    /// Go on without asking.
    Proceed,
    /// Ask the user this question; go on only if they agree.
    Ask(String),
}

/// Before writing: go on when forced or when none of the target files
/// exists; otherwise ask about the existing ones.
pub fn overwrite_check(force: bool, output_dir: &str, existing: &Vec<String>) -> (r: OverwriteCheck)
    ensures
        force || existing@.len() == 0 ==> r is Proceed,
        !force && existing@.len() > 0 ==> (r matches OverwriteCheck::Ask(q) && q@
            == overwrite_prompt_spec(output_dir@, existing.deep_view())),
{
    if force || existing.len() == 0 {
        OverwriteCheck::Proceed
    } else {
        OverwriteCheck::Ask(overwrite_prompt(output_dir, existing))
    }
}

} // verus!
