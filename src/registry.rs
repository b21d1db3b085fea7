//! The per-user registry of recent projects: a TOML document whose key
//! `projects` lists the paths of project files, oldest first.
use vstd::prelude::*;
use crate::config::is_document_of;
use crate::text::{opt_view, strip_banner, with_banner, without_banner, BANNER};
use crate::toml_doc::{
    get_texts, is_shallow, lookup_texts, new_table, parse_table, put_texts, render_table,
    strings_view, table_tree, text_array, texts_of, toml_parse, toml_text, TomlMap, TomlTree,
};

verus! {

/// Where the registry lies below the user's home directory.
pub const REGISTRY_IN_HOME: &'static str = "/.config/ai-lab.toml";

/// The registry's path: the one given, else the default below `home`; none
/// where neither is known.
pub open spec fn registry_location(given: Option<Seq<char>>, home: Option<Seq<char>>) -> Option<
    Seq<char>,
> {
    match given {
        Some(p) => Some(p),
        None => match home {
            Some(h) => Some(h + REGISTRY_IN_HOME@),
            None => None,
        },
    }
}

/// The TOML table that stores a list of projects.
pub open spec fn registry_tree(projects: Seq<Seq<char>>) -> TomlMap {
    map!["projects"@ => text_array(projects)]
}

/// The projects that a registry's text lists. A registry that is missing,
/// is no TOML document or has no list of texts under `projects` lists none.
pub open spec fn registry_projects(text: Option<Seq<char>>) -> Seq<Seq<char>> {
    match text {
        Some(t) => match toml_parse(without_banner(t)) {
            Some(m) => match lookup_texts(m, "projects"@) {
                Some(ps) => ps,
                None => Seq::empty(),
            },
            None => Seq::empty(),
        },
        None => Seq::empty(),
    }
}

pub open spec fn string_opt_view(o: Option<String>) -> Option<Seq<char>> {
    match o {
        Some(s) => Some(s@),
        None => None,
    }
}

/// The path of the registry file.
pub fn registry_path(given: Option<&str>, home: Option<&str>) -> (r: Option<String>)
    ensures
        string_opt_view(r) == registry_location(opt_view(given), opt_view(home)),
{
    match given {
        Some(p) => Some(p.to_owned()),
        None => match home {
            Some(h) => {
                let mut p = h.to_owned();
                p.append(REGISTRY_IN_HOME);
                Some(p)
            },
            None => None,
        },
    }
}

/// The projects listed in a registry's text (`None`: no registry could be
/// read).
pub fn read_projects(text: Option<&str>) -> (r: Vec<String>)
    ensures
        strings_view(r@) == registry_projects(opt_view(text)),
{
    let empty: Vec<String> = Vec::new();
    assert(strings_view(empty@) =~= Seq::<Seq<char>>::empty());
    match text {
        None => empty,
        Some(t) => match parse_table(strip_banner(t)) {
            Ok(table) => match get_texts(&table, "projects") {
                Some(ps) => ps,
                None => empty,
            },
            Err(_) => empty,
        },
    }
}

/// The new text of the registry once `new_project_path` is added at the end
/// of what `existing` lists; duplicates are kept. The text is the banner,
/// then the TOML text of the list.
pub fn register_project(existing: Option<&str>, new_project_path: &str) -> (r: String)
    ensures
        r@ == BANNER@ + toml_text(
            registry_tree(registry_projects(opt_view(existing)).push(new_project_path@)),
        ),
        is_document_of(r@, registry_tree(registry_projects(opt_view(existing)).push(new_project_path@))),
{
    let mut projects = read_projects(existing);
    let ghost before = projects@;
    projects.push(new_project_path.to_owned());
    assert(strings_view(projects@) =~= strings_view(before).push(new_project_path@));
    let mut t = new_table();
    put_texts(&mut t, "projects", &projects);
    assert(table_tree(t) =~= registry_tree(strings_view(projects@)));
    proof {
        lemma_registry_tree_shallow(strings_view(projects@));
    }
    let body = render_table(&t).unwrap();
    with_banner(body.as_str())
}

/// The table of a list of projects is shallow: one array of texts.
pub proof fn lemma_registry_tree_shallow(projects: Seq<Seq<char>>)
    ensures
        is_shallow(registry_tree(projects)),
{
    let arr = projects.map_values(|s: Seq<char>| TomlTree::Text(s));
    assert(forall|i: int| 0 <= i < arr.len() ==> #[trigger] crate::toml_doc::is_text(arr[i]));
}

/// A list of texts stored as a TOML array reads back as the same list.
pub proof fn lemma_text_array(items: Seq<Seq<char>>)
    ensures
        texts_of(text_array(items)) == Some(items),
{
    let arr = items.map_values(|s: Seq<char>| TomlTree::Text(s));
    assert(forall|i: int| 0 <= i < arr.len() ==> #[trigger] crate::toml_doc::is_text(arr[i]));
    assert(arr.map_values(|item: TomlTree| item->Text_0) =~= items);
}

/// Registering a path gives a registry that lists what was listed before,
/// then that path. A missing or unreadable registry counts as empty, so the
/// first registration lists the new path alone.
pub proof fn lemma_register_appends(
    existing: Option<Seq<char>>,
    new_project_path: Seq<char>,
    written: Seq<char>,
)
    requires
        is_document_of(written, registry_tree(registry_projects(existing).push(new_project_path))),
    ensures
        registry_projects(Some(written)) == registry_projects(existing).push(new_project_path),
        existing is None ==> registry_projects(Some(written)) == seq![new_project_path],
{
    lemma_text_array(registry_projects(existing).push(new_project_path));
    if existing is None {
        assert(Seq::<Seq<char>>::empty().push(new_project_path) =~= seq![new_project_path]);
    }
}

} // verus!
