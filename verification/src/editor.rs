//! The manifest editor: pure transforms on the text of a dependency
//! manifest. Every operation touches only the targeted line or section and
//! keeps every other line of the document verbatim.
//!
//! The dependency section is recognised by the marker `[dependencies]`.
//! The reserved self-reference key `pkg_root` links a task back to the host
//! project it sits in; it must not be used for any other dependency.

use vstd::prelude::*;
use vstd::string::StringExecFns;

use crate::text::contains_at;
use crate::text::contains_seq;
use crate::text::join_lines;
use crate::text::join_lines_exec;
use crate::text::lemma_contains_concat_right;
use crate::text::lemma_contains_in_some_line;
use crate::text::lemma_join_lines_of;
use crate::text::lemma_line_contains_join;
use crate::text::lemma_lines_of_join;
use crate::text::lemma_lines_of_newline_free;
use crate::text::lines_of;
use crate::text::newline_free;
use crate::text::split_lines;
use crate::text::starts_with;
use crate::text::str_contains;
use crate::text::str_starts_with;

verus! {

pub open spec fn deps_marker() -> Seq<char> {
    "[dependencies]"@
}

pub open spec fn self_dep_key() -> Seq<char> {
    "pkg_root"@
}

/// The dependency entry that links a task back to its host project.
pub open spec fn self_dep_line(app_name: Seq<char>) -> Seq<char> {
    "pkg_root = { package = \""@ + app_name + "\", path = \"../../../\" }"@
}

/// The dependency entry that registers a task in the host manifest.
pub open spec fn path_dep_line(name: Seq<char>, rel_path: Seq<char>) -> Seq<char> {
    name + " = { path = \""@ + rel_path + "\" }"@
}

/// A line opening a dependency entry keyed `name`.
pub open spec fn dep_entry_prefix(name: Seq<char>) -> Seq<char> {
    name + " = "@
}

/// The lines of `ls` that do not contain `needle`.
pub open spec fn lines_without(ls: Seq<Seq<char>>, needle: Seq<char>) -> Seq<Seq<char>>
    decreases ls.len(),
{
    if ls.len() == 0 {
        Seq::empty()
    } else if contains_seq(ls.first(), needle) {
        lines_without(ls.drop_first(), needle)
    } else {
        seq![ls.first()] + lines_without(ls.drop_first(), needle)
    }
}

/// The lines of `ls` that do not start with `prefix`.
pub open spec fn lines_without_prefix(ls: Seq<Seq<char>>, prefix: Seq<char>) -> Seq<Seq<char>>
    decreases ls.len(),
{
    if ls.len() == 0 {
        Seq::empty()
    } else if starts_with(ls.first(), prefix) {
        lines_without_prefix(ls.drop_first(), prefix)
    } else {
        seq![ls.first()] + lines_without_prefix(ls.drop_first(), prefix)
    }
}

/// Index of the first line containing `needle`, or `ls.len()` if none does.
pub open spec fn first_line_with(ls: Seq<Seq<char>>, needle: Seq<char>) -> int
    decreases ls.len(),
{
    if ls.len() == 0 {
        0
    } else if contains_seq(ls.first(), needle) {
        0
    } else {
        1 + first_line_with(ls.drop_first(), needle)
    }
}

/// Insert `line` right after the first line containing `marker`; when no
/// line does, append a line holding the marker itself, then `line`.
pub open spec fn insert_after_marker(
    ls: Seq<Seq<char>>,
    marker: Seq<char>,
    line: Seq<char>,
) -> Seq<Seq<char>> {
    let k = first_line_with(ls, marker);
    if k < ls.len() {
        ls.insert(k + 1, line)
    } else {
        ls.push(marker).push(line)
    }
}

/// A document with a dependency section: the input itself when it already
/// contains the marker, otherwise the input with an empty section appended.
pub open spec fn spec_ensure_deps_section(doc: Seq<char>) -> Seq<char> {
    if contains_seq(doc, deps_marker()) {
        doc
    } else {
        doc + "\n[dependencies]\n"@
    }
}

/// The document without any line mentioning the reserved self-reference key.
pub open spec fn spec_remove_self_dependency(doc: Seq<char>) -> Seq<char> {
    join_lines(lines_without(lines_of(doc), self_dep_key()))
}

/// The document with exactly one self-reference entry: stale ones removed,
/// a fresh one inserted into the dependency section.
pub open spec fn spec_set_self_dependency(doc: Seq<char>, app_name: Seq<char>) -> Seq<char> {
    join_lines(
        insert_after_marker(
            lines_without(lines_of(doc), self_dep_key()),
            deps_marker(),
            self_dep_line(app_name),
        ),
    )
}

/// The document with a path dependency keyed `name`: a prior entry line for
/// that key removed, the new entry inserted into the dependency section.
pub open spec fn spec_add_path_dependency(
    doc: Seq<char>,
    name: Seq<char>,
    rel_path: Seq<char>,
) -> Seq<char> {
    join_lines(
        insert_after_marker(
            lines_without_prefix(lines_of(doc), dep_entry_prefix(name)),
            deps_marker(),
            path_dep_line(name, rel_path),
        ),
    )
}

pub proof fn lemma_lines_without_snoc(ls: Seq<Seq<char>>, x: Seq<char>, needle: Seq<char>)
    ensures
        lines_without(ls.push(x), needle) == if contains_seq(x, needle) {
            lines_without(ls, needle)
        } else {
            lines_without(ls, needle) + seq![x]
        },
    decreases ls.len(),
{
    let p = ls.push(x);
    if ls.len() == 0 {
        assert(p.first() == x);
        assert(p.drop_first() =~= Seq::<Seq<char>>::empty());
        assert(lines_without(Seq::<Seq<char>>::empty(), needle) =~= Seq::<Seq<char>>::empty());
        if !contains_seq(x, needle) {
            assert(seq![x] + Seq::<Seq<char>>::empty() =~= Seq::<Seq<char>>::empty() + seq![x]);
        }
    } else {
        assert(p.first() == ls.first());
        assert(p.drop_first() =~= ls.drop_first().push(x));
        lemma_lines_without_snoc(ls.drop_first(), x, needle);
        if !contains_seq(ls.first(), needle) && !contains_seq(x, needle) {
            assert(seq![ls.first()] + (lines_without(ls.drop_first(), needle) + seq![x])
                =~= (seq![ls.first()] + lines_without(ls.drop_first(), needle)) + seq![x]);
        }
    }
}

pub proof fn lemma_lines_without_prefix_snoc(ls: Seq<Seq<char>>, x: Seq<char>, prefix: Seq<char>)
    ensures
        lines_without_prefix(ls.push(x), prefix) == if starts_with(x, prefix) {
            lines_without_prefix(ls, prefix)
        } else {
            lines_without_prefix(ls, prefix) + seq![x]
        },
    decreases ls.len(),
{
    let p = ls.push(x);
    if ls.len() == 0 {
        assert(p.first() == x);
        assert(p.drop_first() =~= Seq::<Seq<char>>::empty());
        assert(lines_without_prefix(Seq::<Seq<char>>::empty(), prefix) =~= Seq::<
            Seq<char>,
        >::empty());
        if !starts_with(x, prefix) {
            assert(seq![x] + Seq::<Seq<char>>::empty() =~= Seq::<Seq<char>>::empty() + seq![x]);
        }
    } else {
        assert(p.first() == ls.first());
        assert(p.drop_first() =~= ls.drop_first().push(x));
        lemma_lines_without_prefix_snoc(ls.drop_first(), x, prefix);
        if !starts_with(ls.first(), prefix) && !starts_with(x, prefix) {
            assert(seq![ls.first()] + (lines_without_prefix(ls.drop_first(), prefix) + seq![x])
                =~= (seq![ls.first()] + lines_without_prefix(ls.drop_first(), prefix))
                + seq![x]);
        }
    }
}

/// Filtering is the identity on a sequence with no matching line.
pub proof fn lemma_lines_without_id(ls: Seq<Seq<char>>, needle: Seq<char>)
    requires
        forall|k: int| 0 <= k < ls.len() ==> !contains_seq(#[trigger] ls[k], needle),
    ensures
        lines_without(ls, needle) == ls,
    decreases ls.len(),
{
    if ls.len() > 0 {
        assert(!contains_seq(ls[0], needle));
        assert(forall|k: int|
            0 <= k < ls.drop_first().len() ==> !contains_seq(
                #[trigger] ls.drop_first()[k],
                needle,
            ));
        lemma_lines_without_id(ls.drop_first(), needle);
        assert(seq![ls.first()] + ls.drop_first() =~= ls);
    }
}

pub proof fn lemma_lines_without_concat(a: Seq<Seq<char>>, b: Seq<Seq<char>>, needle: Seq<char>)
    ensures
        lines_without(a + b, needle) == lines_without(a, needle) + lines_without(b, needle),
    decreases a.len(),
{
    if a.len() == 0 {
        assert(a + b =~= b);
        assert(lines_without(a, needle) + lines_without(b, needle) =~= lines_without(b, needle));
    } else {
        assert((a + b).first() == a.first());
        assert((a + b).drop_first() =~= a.drop_first() + b);
        lemma_lines_without_concat(a.drop_first(), b, needle);
        if !contains_seq(a.first(), needle) {
            assert(seq![a.first()] + (lines_without(a.drop_first(), needle) + lines_without(
                b,
                needle,
            )) =~= (seq![a.first()] + lines_without(a.drop_first(), needle)) + lines_without(
                b,
                needle,
            ));
        }
    }
}

pub proof fn lemma_first_line_with(ls: Seq<Seq<char>>, needle: Seq<char>)
    ensures
        0 <= first_line_with(ls, needle) <= ls.len(),
        first_line_with(ls, needle) < ls.len() ==> contains_seq(
            ls[first_line_with(ls, needle)],
            needle,
        ),
        forall|j: int|
            0 <= j < first_line_with(ls, needle) ==> !contains_seq(#[trigger] ls[j], needle),
    decreases ls.len(),
{
    if ls.len() > 0 && !contains_seq(ls.first(), needle) {
        lemma_first_line_with(ls.drop_first(), needle);
        assert forall|j: int|
            0 <= j < first_line_with(ls, needle) implies !contains_seq(
            #[trigger] ls[j],
            needle,
        ) by {
            if j > 0 {
                assert(ls.drop_first()[j - 1] == ls[j]);
            }
        }
    }
}

/// Law: ensuring the dependency section twice yields the same document as
/// ensuring it once.
pub proof fn lemma_ensure_deps_section_idempotent(doc: Seq<char>)
    ensures
        spec_ensure_deps_section(spec_ensure_deps_section(doc)) == spec_ensure_deps_section(doc),
{
    if !contains_seq(doc, deps_marker()) {
        reveal_strlit("[dependencies]");
        reveal_strlit("\n[dependencies]\n");
        let suffix = "\n[dependencies]\n"@;
        assert(suffix.subrange(1, 15) =~= deps_marker());
        assert(contains_at(suffix, deps_marker(), 1));
        lemma_contains_concat_right(doc, suffix, deps_marker());
    }
}

/// Law: on a document that has a dependency section and no line mentioning
/// the reserved self-reference key, setting the self dependency and then
/// removing it restores the document byte for byte. The host application
/// name must not contain a newline, or the inserted entry would not be a
/// single line.
pub proof fn lemma_self_dependency_round_trip(doc: Seq<char>, app_name: Seq<char>)
    requires
        !contains_seq(doc, self_dep_key()),
        contains_seq(doc, deps_marker()),
        newline_free(app_name),
    ensures
        spec_remove_self_dependency(spec_set_self_dependency(doc, app_name)) == doc,
{
    let key = self_dep_key();
    let marker = deps_marker();
    let line = self_dep_line(app_name);
    let ls = lines_of(doc);
    reveal_strlit("pkg_root");
    reveal_strlit("[dependencies]");
    reveal_strlit("pkg_root = { package = \"");
    reveal_strlit("\", path = \"../../../\" }");
    lemma_lines_of_newline_free(doc);
    lemma_join_lines_of(doc);
    // no line of the document mentions the key, so the filter is the identity
    assert forall|k: int| 0 <= k < ls.len() implies !contains_seq(#[trigger] ls[k], key) by {
        if contains_seq(ls[k], key) {
            lemma_line_contains_join(ls, k, key);
        }
    }
    lemma_lines_without_id(ls, key);
    // some line holds the marker, so the insertion point exists
    assert(newline_free(marker));
    lemma_contains_in_some_line(doc, marker);
    lemma_first_line_with(ls, marker);
    let f = first_line_with(ls, marker);
    assert(f < ls.len()) by {
        let k = choose|k: int| 0 <= k < ls.len() && contains_seq(#[trigger] ls[k], marker);
        if f == ls.len() {
            assert(!contains_seq(ls[k], marker));
        }
    }
    let li = insert_after_marker(ls, marker, line);
    let before = ls.subrange(0, f + 1);
    let after = ls.subrange(f + 1, ls.len() as int);
    assert(li == ls.insert(f + 1, line));
    assert(before.push(line) =~= before + seq![line]);
    assert((before + seq![line]) + after =~= before + (seq![line] + after));
    assert(li == before + (seq![line] + after));
    // the inserted entry is a single line and mentions the key at its start
    let a = "pkg_root = { package = \""@;
    let b = "\", path = \"../../../\" }"@;
    assert(line == (a + app_name) + b);
    assert(newline_free(line)) by {
        assert forall|i: int| 0 <= i < line.len() implies line[i] != '\n' by {
            if i < a.len() {
                assert(line[i] == a[i]);
            } else if i < a.len() + app_name.len() {
                assert(line[i] == app_name[i - a.len()]);
            } else {
                assert(line[i] == b[i - a.len() - app_name.len()]);
            }
        }
    }
    assert(contains_at(line, key, 0)) by {
        assert(line.subrange(0, key.len() as int) =~= key);
    }
    // every line of the edited document is newline-free, so splitting the
    // joined text gives those lines back exactly
    assert(forall|k: int| 0 <= k < li.len() ==> newline_free(#[trigger] li[k])) by {
        assert(forall|k: int| 0 <= k < before.len() ==> #[trigger] before[k] == ls[k]);
        assert(forall|k: int| 0 <= k < after.len() ==> #[trigger] after[k] == ls[f + 1 + k]);
    }
    assert(li.len() >= 1);
    lemma_lines_of_join(li);
    // filtering the edited lines removes exactly the inserted entry
    lemma_lines_without_concat(before, seq![line] + after, key);
    lemma_lines_without_concat(seq![line], after, key);
    assert(lines_without(seq![line], key) =~= Seq::<Seq<char>>::empty()) by {
        assert(seq![line].first() == line);
        assert(contains_seq(line, key));
        assert(seq![line].drop_first() =~= Seq::<Seq<char>>::empty());
        assert(lines_without(Seq::<Seq<char>>::empty(), key) =~= Seq::<Seq<char>>::empty());
    }
    assert(forall|k: int| 0 <= k < before.len() ==> !contains_seq(#[trigger] before[k], key));
    assert(forall|k: int| 0 <= k < after.len() ==> !contains_seq(#[trigger] after[k], key));
    lemma_lines_without_id(before, key);
    lemma_lines_without_id(after, key);
    assert(lines_without(li, key) =~= ls);
    assert(spec_remove_self_dependency(spec_set_self_dependency(doc, app_name)) == join_lines(
        lines_without(li, key),
    ));
}

fn filter_lines_without(v: &Vec<String>, needle: &str) -> (r: Vec<String>)
    ensures
        r.deep_view() == lines_without(v.deep_view(), needle@),
{
    let mut r: Vec<String> = Vec::new();
    let mut i: usize = 0;
    proof {
        assert(v.deep_view().subrange(0, 0) =~= Seq::<Seq<char>>::empty());
        assert(r.deep_view() =~= Seq::<Seq<char>>::empty());
    }
    while i < v.len()
        invariant
            0 <= i <= v.len(),
            r.deep_view() == lines_without(v.deep_view().subrange(0, i as int), needle@),
        decreases v.len() - i,
    {
        let ghost dv = v.deep_view();
        let ghost r0 = r.deep_view();
        if !str_contains(v[i].as_str(), needle) {
            r.push(v[i].clone());
            proof {
                assert(r.deep_view() =~= r0.push(dv[i as int]));
            }
        }
        proof {
            lemma_lines_without_snoc(dv.subrange(0, i as int), dv[i as int], needle@);
            assert(dv.subrange(0, i as int + 1) =~= dv.subrange(0, i as int).push(dv[i as int]));
            if !contains_seq(dv[i as int], needle@) {
                assert(r0.push(dv[i as int]) =~= r0 + seq![dv[i as int]]);
            }
        }
        i += 1;
    }
    proof {
        assert(v.deep_view().subrange(0, v.len() as int) =~= v.deep_view());
    }
    r
}

fn filter_lines_without_prefix(v: &Vec<String>, prefix: &str) -> (r: Vec<String>)
    ensures
        r.deep_view() == lines_without_prefix(v.deep_view(), prefix@),
{
    let mut r: Vec<String> = Vec::new();
    let mut i: usize = 0;
    proof {
        assert(v.deep_view().subrange(0, 0) =~= Seq::<Seq<char>>::empty());
        assert(r.deep_view() =~= Seq::<Seq<char>>::empty());
    }
    while i < v.len()
        invariant
            0 <= i <= v.len(),
            r.deep_view() == lines_without_prefix(v.deep_view().subrange(0, i as int), prefix@),
        decreases v.len() - i,
    {
        let ghost dv = v.deep_view();
        let ghost r0 = r.deep_view();
        if !str_starts_with(v[i].as_str(), prefix) {
            r.push(v[i].clone());
            proof {
                assert(r.deep_view() =~= r0.push(dv[i as int]));
            }
        }
        proof {
            lemma_lines_without_prefix_snoc(dv.subrange(0, i as int), dv[i as int], prefix@);
            assert(dv.subrange(0, i as int + 1) =~= dv.subrange(0, i as int).push(dv[i as int]));
            if !starts_with(dv[i as int], prefix@) {
                assert(r0.push(dv[i as int]) =~= r0 + seq![dv[i as int]]);
            }
        }
        i += 1;
    }
    proof {
        assert(v.deep_view().subrange(0, v.len() as int) =~= v.deep_view());
    }
    r
}

fn insert_line_after_marker(v: &mut Vec<String>, marker: &str, line: String)
    ensures
        final(v).deep_view() == insert_after_marker(old(v).deep_view(), marker@, line@),
{
    let ghost dv = v.deep_view();
    let mut k: usize = 0;
    while k < v.len() && !str_contains(v[k].as_str(), marker)
        invariant
            0 <= k <= v.len(),
            dv == v.deep_view(),
            v.deep_view().len() == v.len(),
            forall|j: int| 0 <= j < k ==> !contains_seq(#[trigger] dv[j], marker@),
        decreases v.len() - k,
    {
        k += 1;
    }
    proof {
        lemma_first_line_with(dv, marker@);
        if k < dv.len() {
            assert(contains_seq(dv[k as int], marker@));
            assert(first_line_with(dv, marker@) == k);
        } else {
            assert(first_line_with(dv, marker@) == dv.len());
        }
    }
    if k < v.len() {
        let ghost r0 = v.deep_view();
        v.insert(k + 1, line);
        proof {
            assert(v.deep_view() =~= r0.insert(k as int + 1, line@));
        }
    } else {
        let ghost r0 = v.deep_view();
        v.push(marker.to_owned());
        v.push(line);
        proof {
            assert(v.deep_view() =~= r0.push(marker@).push(line@));
        }
    }
}

fn self_dep_line_exec(app_name: &str) -> (r: String)
    ensures
        r@ == self_dep_line(app_name@),
{
    let mut r = "pkg_root = { package = \"".to_owned();
    r.append(app_name);
    r.append("\", path = \"../../../\" }");
    r
}

fn path_dep_line_exec(name: &str, rel_path: &str) -> (r: String)
    ensures
        r@ == path_dep_line(name@, rel_path@),
{
    let mut r = name.to_owned();
    r.append(" = { path = \"");
    r.append(rel_path);
    r.append("\" }");
    proof {
        assert(((name@ + " = { path = \""@) + rel_path@) + "\" }"@ =~= (name@ + " = { path = \""@)
            + rel_path@ + "\" }"@);
    }
    r
}

fn dep_entry_prefix_exec(name: &str) -> (r: String)
    ensures
        r@ == dep_entry_prefix(name@),
{
    let mut r = name.to_owned();
    r.append(" = ");
    r
}

/// Ensure the document has a dependency section: return it unchanged when
/// the `[dependencies]` marker is present, else append an empty section.
pub fn check_deps_table_in_config_file(config_file: String) -> (r: String)
    ensures
        r@ == spec_ensure_deps_section(config_file@),
{
    if str_contains(config_file.as_str(), "[dependencies]") {
        config_file
    } else {
        let mut r = config_file;
        r.append("\n[dependencies]\n");
        r
    }
}

/// Strip every line mentioning the reserved self-reference key, so the
/// task manifest no longer links back to a host project.
pub fn remove_project_dep_from_cargo_toml(config_file: String) -> (r: String)
    ensures
        r@ == spec_remove_self_dependency(config_file@),
{
    let lines = split_lines(config_file.as_str());
    let kept = filter_lines_without(&lines, "pkg_root");
    join_lines_exec(&kept)
}

/// Replace the task manifest's self-reference entry with a fresh one that
/// names the host package and points at the host project root.
pub fn update_project_dep_in_task_cargo_toml(config_file: String, app_name: &str) -> (r: String)
    ensures
        r@ == spec_set_self_dependency(config_file@, app_name@),
{
    let lines = split_lines(config_file.as_str());
    let mut kept = filter_lines_without(&lines, "pkg_root");
    let line = self_dep_line_exec(app_name);
    insert_line_after_marker(&mut kept, "[dependencies]", line);
    join_lines_exec(&kept)
}

/// Register a path dependency keyed `task_name` in the host manifest,
/// overwriting a prior entry line for the same key.
pub fn add_deps_to_root_cargo_toml(
    config_file: String,
    task_name: &str,
    relative_path: &str,
) -> (r: String)
    ensures
        r@ == spec_add_path_dependency(config_file@, task_name@, relative_path@),
{
    let lines = split_lines(config_file.as_str());
    let prefix = dep_entry_prefix_exec(task_name);
    let mut kept = filter_lines_without_prefix(&lines, prefix.as_str());
    let line = path_dep_line_exec(task_name, relative_path);
    insert_line_after_marker(&mut kept, "[dependencies]", line);
    join_lines_exec(&kept)
}

} // verus!

