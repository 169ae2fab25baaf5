//! Reading `package.json` manifests and finding where a Next.js app lives in a
//! project's directory tree.
use vstd::prelude::*;
use vstd::string::*;
use crate::text::{chars_of, same_text, views};

verus! {

broadcast use vstd::string::group_string_axioms;

#[verifier::external_type_specification]
#[verifier::external_body]
pub struct ExJsonValue(serde_json::Value);

/// What `serde_json::from_str::<serde_json::Value>` gives for a text, `None`
/// standing for its error.
pub uninterp spec fn parsed_json(raw: Seq<char>) -> Option<serde_json::Value>;

/// What `serde_json::Value::get` gives for a string key.
pub uninterp spec fn json_member(v: serde_json::Value, key: Seq<char>) -> Option<serde_json::Value>;

/// Parses JSON text with `serde_json::from_str`; `None` when it is not JSON.
#[verifier::external_body]
fn parse_json(raw: &str) -> (r: Option<serde_json::Value>)
    ensures
        r == parsed_json(raw@),
{
    serde_json::from_str::<serde_json::Value>(raw).ok()
}

/// `serde_json::Value::get` with a string key: the member of an object.
#[verifier::external_body]
fn json_get<'a>(v: &'a serde_json::Value, key: &str) -> (r: Option<&'a serde_json::Value>)
    ensures
        match r {
            Some(m) => json_member(*v, key@) == Some(*m),
            None => json_member(*v, key@) is None,
        },
{
    v.get(key)
}

/// `dependencies` or `devDependencies` of a manifest names `next`.
pub open spec fn spec_has_next_dep(pkg: serde_json::Value) -> bool {
    ||| (json_member(pkg, "dependencies"@) matches Some(d) && json_member(d, "next"@) is Some)
    ||| (json_member(pkg, "devDependencies"@) matches Some(d) && json_member(d, "next"@) is Some)
}

fn has_dep(pkg: &serde_json::Value, section: &str, name: &str) -> (r: bool)
    ensures
        r == (json_member(*pkg, section@) matches Some(d) && json_member(d, name@) is Some),
{
    match json_get(pkg, section) {
        Some(d) => json_get(d, name).is_some(),
        None => false,
    }
}

/// The manifest depends on `next` (at run or development time).
pub fn has_next_dep(pkg: &serde_json::Value) -> (r: bool)
    ensures
        r == spec_has_next_dep(*pkg),
{
    has_dep(pkg, "dependencies", "next") || has_dep(pkg, "devDependencies", "next")
}

/// A readable manifest text that parses and depends on `next`.
pub open spec fn declares_next(manifest: Option<Seq<char>>) -> bool {
    manifest matches Some(raw) && (parsed_json(raw) matches Some(v) && spec_has_next_dep(v))
}

/// Whether the text of a `package.json` (`None`: not readable) declares Next.js.
pub fn manifest_declares_next(manifest: Option<&str>) -> (r: bool)
    ensures
        r == declares_next(
            match manifest {
                Some(m) => Some(m@),
                None => None,
            },
        ),
{
    match manifest {
        Some(raw) => match parse_json(raw) {
            Some(v) => has_next_dep(&v),
            None => false,
        },
        None => false,
    }
}

/// A directory entry with the text of its `package.json`, when readable.
pub open spec fn entry_view(e: (String, Option<String>)) -> (Seq<char>, Option<Seq<char>>) {
    (
        e.0@,
        match e.1 {
            Some(m) => Some(m@),
            None => None,
        },
    )
}

pub open spec fn entry_views(v: Seq<(String, Option<String>)>) -> Seq<
    (Seq<char>, Option<Seq<char>>),
> {
    v.map_values(|e: (String, Option<String>)| entry_view(e))
}

/// Subdirectories that are looked into: not hidden, not `node_modules`, not `vendor`.
pub open spec fn is_listed(name: Seq<char>) -> bool {
    !(name.len() > 0 && name[0] == '.') && name != "node_modules"@ && name != "vendor"@
}

fn listed(name: &str) -> (r: bool)
    ensures
        r == is_listed(name@),
{
    let v = chars_of(name);
    !(v.len() > 0 && v[0] == '.') && !same_text(name, "node_modules") && !same_text(
        name,
        "vendor",
    )
}

/// Position of a first-level subdirectory name among the usual app folders
/// (`app`, `web`, `frontend`, `client`, `site`, `www`), 6 for any other.
pub open spec fn preferred_rank(name: Seq<char>) -> nat {
    if name == "app"@ {
        0
    } else if name == "web"@ {
        1
    } else if name == "frontend"@ {
        2
    } else if name == "client"@ {
        3
    } else if name == "site"@ {
        4
    } else if name == "www"@ {
        5
    } else {
        6
    }
}

fn rank(name: &str) -> (r: usize)
    ensures
        r == preferred_rank(name@),
{
    if same_text(name, "app") {
        0
    } else if same_text(name, "web") {
        1
    } else if same_text(name, "frontend") {
        2
    } else if same_text(name, "client") {
        3
    } else if same_text(name, "site") {
        4
    } else if same_text(name, "www") {
        5
    } else {
        6
    }
}

/// Lexicographic order of texts by character (the order of `String`, since UTF-8
/// keeps the order of code points).
pub open spec fn text_lt(a: Seq<char>, b: Seq<char>) -> bool
    decreases a.len(),
{
    if b.len() == 0 {
        false
    } else if a.len() == 0 {
        true
    } else if a[0] != b[0] {
        (a[0] as u32) < (b[0] as u32)
    } else {
        text_lt(a.drop_first(), b.drop_first())
    }
}

proof fn lemma_text_lt_transitive(a: Seq<char>, b: Seq<char>, c: Seq<char>)
    requires
        text_lt(a, b),
        text_lt(b, c),
    ensures
        text_lt(a, c),
    decreases a.len(),
{
    if a.len() > 0 && b.len() > 0 && c.len() > 0 && a[0] == b[0] && b[0] == c[0] {
        lemma_text_lt_transitive(a.drop_first(), b.drop_first(), c.drop_first());
    }
}

proof fn lemma_text_lt_asymmetric(a: Seq<char>, b: Seq<char>)
    ensures
        !(text_lt(a, b) && text_lt(b, a)),
    decreases a.len(),
{
    if a.len() > 0 && b.len() > 0 && a[0] == b[0] {
        lemma_text_lt_asymmetric(a.drop_first(), b.drop_first());
    }
}

fn less_text(a: &str, b: &str) -> (r: bool)
    ensures
        r == text_lt(a@, b@),
{
    let va = chars_of(a);
    let vb = chars_of(b);
    let mut i: usize = 0;
    assert(a@.skip(0) =~= a@);
    assert(b@.skip(0) =~= b@);
    while i < va.len() && i < vb.len() && va[i] == vb[i]
        invariant
            va@ == a@,
            vb@ == b@,
            i <= va.len(),
            i <= vb.len(),
            text_lt(a@, b@) == text_lt(a@.skip(i as int), b@.skip(i as int)),
        decreases va.len() - i,
    {
        assert(a@.skip(i as int).drop_first() =~= a@.skip(i + 1));
        assert(b@.skip(i as int).drop_first() =~= b@.skip(i + 1));
        i += 1;
    }
    if i == vb.len() {
        false
    } else if i == va.len() {
        true
    } else {
        (va[i] as u32) < (vb[i] as u32)
    }
}

/// Sort key of an entry: ranked by usual app folder first when `ranked`.
pub open spec fn key_lt(ranked: bool, a: Seq<char>, b: Seq<char>) -> bool {
    if ranked && preferred_rank(a) != preferred_rank(b) {
        preferred_rank(a) < preferred_rank(b)
    } else {
        text_lt(a, b)
    }
}

proof fn lemma_key_lt_order(ranked: bool, a: Seq<char>, b: Seq<char>, c: Seq<char>)
    ensures
        key_lt(ranked, a, b) && key_lt(ranked, b, c) ==> key_lt(ranked, a, c),
        !(key_lt(ranked, a, b) && key_lt(ranked, b, a)),
{
    lemma_text_lt_asymmetric(a, b);
    if key_lt(ranked, a, b) && key_lt(ranked, b, c) {
        if ranked && (preferred_rank(a) != preferred_rank(b) || preferred_rank(b)
            != preferred_rank(c)) {
        } else {
            lemma_text_lt_transitive(a, b, c);
        }
    }
}

/// An entry that is looked into and whose manifest declares Next.js.
pub open spec fn is_next_entry(e: (Seq<char>, Option<Seq<char>>)) -> bool {
    is_listed(e.0) && declares_next(e.1)
}

/// Entry `i` is the first Next.js entry in sort order.
pub open spec fn is_first_next(
    entries: Seq<(Seq<char>, Option<Seq<char>>)>,
    ranked: bool,
    i: int,
) -> bool {
    &&& 0 <= i < entries.len()
    &&& is_next_entry(entries[i])
    &&& forall|j: int|
        0 <= j < entries.len() && is_next_entry(#[trigger] entries[j]) ==> !key_lt(
            ranked,
            entries[j].0,
            entries[i].0,
        )
}

pub open spec fn has_next_entry(entries: Seq<(Seq<char>, Option<Seq<char>>)>) -> bool {
    exists|i: int| 0 <= i < entries.len() && is_next_entry(#[trigger] entries[i])
}

/// The name of the first Next.js entry in sort order, if any.
fn first_next_entry(entries: &Vec<(String, Option<String>)>, ranked: bool) -> (r: Option<usize>)
    ensures
        match r {
            Some(i) => is_first_next(entry_views(entries@), ranked, i as int),
            None => !has_next_entry(entry_views(entries@)),
        },
{
    let ghost ev = entry_views(entries@);
    let mut best: Option<usize> = None;
    let mut i: usize = 0;
    while i < entries.len()
        invariant
            i <= entries.len(),
            ev == entry_views(entries@),
            match best {
                Some(b) => {
                    &&& b < i
                    &&& is_next_entry(ev[b as int])
                    &&& forall|j: int|
                        0 <= j < i && is_next_entry(#[trigger] ev[j]) ==> !key_lt(
                            ranked,
                            ev[j].0,
                            ev[b as int].0,
                        )
                },
                None => forall|j: int| 0 <= j < i ==> !is_next_entry(#[trigger] ev[j]),
            },
        decreases entries.len() - i,
    {
        let name = entries[i].0.as_str();
        let is_next = listed(name) && manifest_declares_next(
            match &entries[i].1 {
                Some(m) => Some(m.as_str()),
                None => None,
            },
        );
        assert(is_next == is_next_entry(ev[i as int]));
        if is_next {
            match best {
                Some(b) => {
                    let better = if ranked {
                        let ri = rank(name);
                        let rb = rank(entries[b].0.as_str());
                        if ri != rb {
                            ri < rb
                        } else {
                            less_text(name, entries[b].0.as_str())
                        }
                    } else {
                        less_text(name, entries[b].0.as_str())
                    };
                    assert(better == key_lt(ranked, ev[i as int].0, ev[b as int].0));
                    if better {
                        assert forall|j: int|
                            0 <= j < i + 1 && is_next_entry(#[trigger] ev[j]) implies !key_lt(
                            ranked,
                            ev[j].0,
                            ev[i as int].0,
                        ) by {
                            lemma_key_lt_order(ranked, ev[j].0, ev[i as int].0, ev[b as int].0);
                            lemma_key_lt_order(ranked, ev[i as int].0, ev[i as int].0, ev[i as int].0);
                        }
                        best = Some(i);
                    } else {
                        assert forall|j: int|
                            0 <= j < i + 1 && is_next_entry(#[trigger] ev[j]) implies !key_lt(
                            ranked,
                            ev[j].0,
                            ev[b as int].0,
                        ) by {}
                    }
                },
                None => {
                    proof {
                        lemma_key_lt_order(ranked, ev[i as int].0, ev[i as int].0, ev[i as int].0);
                    }
                    best = Some(i);
                },
            }
        }
        i += 1;
    }
    best
}

/// Where a project's Next.js app lives, relative to the project directory, given
/// the root's `package.json` text and the entries of the root, of `apps/` and of
/// `packages/` (each a subdirectory name with its `package.json` text).
pub open spec fn spec_next_app_dir(
    root: Option<Seq<char>>,
    subdirs: Seq<(Seq<char>, Option<Seq<char>>)>,
    apps: Seq<(Seq<char>, Option<Seq<char>>)>,
    packages: Seq<(Seq<char>, Option<Seq<char>>)>,
    r: Option<Seq<char>>,
) -> bool {
    if declares_next(root) {
        r == Some(Seq::<char>::empty())
    } else if has_next_entry(subdirs) {
        exists|i: int| is_first_next(subdirs, true, i) && r == Some(subdirs[i].0)
    } else if has_next_entry(apps) {
        exists|i: int| is_first_next(apps, false, i) && r == Some("apps/"@ + apps[i].0)
    } else if has_next_entry(packages) {
        exists|i: int| is_first_next(packages, false, i) && r == Some("packages/"@ + packages[i].0)
    } else {
        r is None
    }
}

/// Finds the Next.js app of a project: the root itself (`""`), else the first
/// first-level subdirectory with Next.js (usual app folders first, then by
/// name), else the first in `apps/*`, then in `packages/*` (by name). Hidden
/// directories, `node_modules` and `vendor` are not looked into; a directory
/// counts when its `package.json` parses and depends on `next`.
pub fn detect_next_app_dir(
    root_manifest: Option<&str>,
    subdirs: &Vec<(String, Option<String>)>,
    apps: &Vec<(String, Option<String>)>,
    packages: &Vec<(String, Option<String>)>,
) -> (r: Option<String>)
    ensures
        spec_next_app_dir(
            match root_manifest {
                Some(m) => Some(m@),
                None => None,
            },
            entry_views(subdirs@),
            entry_views(apps@),
            entry_views(packages@),
            match r {
                Some(s) => Some(s@),
                None => None,
            },
        ),
{
    if manifest_declares_next(root_manifest) {
        return Some(String::new());
    }
    if let Some(i) = first_next_entry(subdirs, true) {
        return Some(subdirs[i].0.clone());
    }
    if let Some(i) = first_next_entry(apps, false) {
        let mut s = String::from_str("apps/");
        s.append(apps[i].0.as_str());
        return Some(s);
    }
    if let Some(i) = first_next_entry(packages, false) {
        let mut s = String::from_str("packages/");
        s.append(packages[i].0.as_str());
        return Some(s);
    }
    None
}

} // verus!
