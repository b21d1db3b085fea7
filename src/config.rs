//! The project configuration record: a title and an owner, stored as a TOML
//! document with a table `owner`.
use vstd::prelude::*;
use crate::text::{has_prefix, opt_view, strip_banner, with_banner, without_banner, BANNER};
use crate::toml_doc::{
    get_table, get_text, is_flat, is_shallow, lookup_table, lookup_text, new_table, parse_table,
    put_table, put_text, render_table, table_tree, toml_parse, toml_text, TomlMap, TomlTree,
};

verus! {

/// Why reading or writing a stored record failed.
#[derive(Clone, Copy, Debug, PartialEq, Eq, Structural)]
pub enum StoreError {
    /// The file does not exist.
    NotFound,
    /// The file could not be read or written.
    Io,
    /// The text is not a TOML document of the expected shape.
    Parse,
}

pub const DEFAULT_NAME: &'static str = "Default Name";

pub const DEFAULT_DOB: &'static str = "2000-01-01";

pub const DEFAULT_TITLE: &'static str = "Default Title";

#[derive(Clone, Debug, PartialEq, Eq)]
pub struct Owner {
    pub name: String,
    /// Date of birth, as free text.
    pub dob: String,
}

#[derive(Clone, Debug, PartialEq, Eq)]
pub struct Config {
    pub title: String,
    pub owner: Owner,
}

pub struct OwnerView {
    pub name: Seq<char>,
    pub dob: Seq<char>,
}

pub struct ConfigView {
    pub title: Seq<char>,
    pub owner: OwnerView,
}

impl View for Owner {
    type V = OwnerView;

    open spec fn view(&self) -> OwnerView {
        OwnerView { name: self.name@, dob: self.dob@ }
    }
}

impl View for Config {
    type V = ConfigView;

    open spec fn view(&self) -> ConfigView {
        ConfigView { title: self.title@, owner: self.owner@ }
    }
}

pub open spec fn or_default(o: Option<Seq<char>>, d: Seq<char>) -> Seq<char> {
    match o {
        Some(s) => s,
        None => d,
    }
}

/// The record with each field given, and the default for each left out.
pub open spec fn config_with_defaults(
    name: Option<Seq<char>>,
    dob: Option<Seq<char>>,
    title: Option<Seq<char>>,
) -> ConfigView {
    ConfigView {
        title: or_default(title, DEFAULT_TITLE@),
        owner: OwnerView { name: or_default(name, DEFAULT_NAME@), dob: or_default(dob, DEFAULT_DOB@) },
    }
}

/// The TOML table that stores a record.
pub open spec fn config_tree(c: ConfigView) -> TomlMap {
    map![
        "title"@ => TomlTree::Text(c.title),
        "owner"@ => TomlTree::Table(map!["name"@ => TomlTree::Text(c.owner.name), "dob"@ => TomlTree::Text(c.owner.dob)]),
    ]
}

/// The record that a TOML table holds, where it has a text `title` and a
/// table `owner` with texts `name` and `dob`; other keys are ignored.
pub open spec fn config_of_tree(m: TomlMap) -> Option<ConfigView> {
    match (lookup_text(m, "title"@), lookup_table(m, "owner"@)) {
        (Some(title), Some(o)) => match (lookup_text(o, "name"@), lookup_text(o, "dob"@)) {
            (Some(name), Some(dob)) => Some(ConfigView { title, owner: OwnerView { name, dob } }),
            _ => None,
        },
        _ => None,
    }
}

/// What reading a stored record from `text` gives.
pub open spec fn decoded_config(text: Seq<char>) -> Result<ConfigView, StoreError> {
    match toml_parse(without_banner(text)) {
        Some(m) => match config_of_tree(m) {
            Some(c) => Ok(c),
            None => Err(StoreError::Parse),
        },
        None => Err(StoreError::Parse),
    }
}

/// `text` is a file of this library holding the table `m`: the banner, then
/// a TOML document of `m`.
pub open spec fn is_document_of(text: Seq<char>, m: TomlMap) -> bool {
    has_prefix(text, BANNER@) && toml_parse(without_banner(text)) == Some(m)
}

/// A record from the given values, with defaults for those left out.
pub fn generate_config(name: Option<&str>, dob: Option<&str>, title: Option<&str>) -> (c: Config)
    ensures
        c@ == config_with_defaults(opt_view(name), opt_view(dob), opt_view(title)),
{
    let name = match name {
        Some(s) => s,
        None => DEFAULT_NAME,
    };
    let dob = match dob {
        Some(s) => s,
        None => DEFAULT_DOB,
    };
    let title = match title {
        Some(s) => s,
        None => DEFAULT_TITLE,
    };
    Config { title: title.to_owned(), owner: Owner { name: name.to_owned(), dob: dob.to_owned() } }
}

/// The table of a record is shallow: texts, and one table of texts.
pub proof fn lemma_config_tree_shallow(c: ConfigView)
    ensures
        is_shallow(config_tree(c)),
{
    let o = map!["name"@ => TomlTree::Text(c.owner.name), "dob"@ => TomlTree::Text(c.owner.dob)];
    assert(is_flat(o));
}

/// The text of a configuration file holding `c`: the banner, then the TOML
/// text of the record's table.
pub fn render_config(c: &Config) -> (r: String)
    ensures
        r@ == BANNER@ + toml_text(config_tree(c@)),
        is_document_of(r@, config_tree(c@)),
{
    let mut owner = new_table();
    put_text(&mut owner, "name", c.owner.name.as_str());
    put_text(&mut owner, "dob", c.owner.dob.as_str());
    let mut t = new_table();
    put_text(&mut t, "title", c.title.as_str());
    put_table(&mut t, "owner", owner);
    assert(table_tree(t) =~= config_tree(c@));
    proof {
        lemma_config_tree_shallow(c@);
    }
    let body = render_table(&t).unwrap();
    with_banner(body.as_str())
}

/// Sets a new title and owner name, keeping the date of birth.
pub fn modify_config(c: &mut Config)
    ensures
        final(c).title@ == "New Title"@,
        final(c).owner.name@ == "New Owner"@,
        final(c).owner.dob@ == old(c).owner.dob@,
{
    c.title = "New Title".to_owned();
    c.owner.name = "New Owner".to_owned();
}

/// The record that the text of a configuration file holds.
pub fn parse_config(text: &str) -> (r: Result<Config, StoreError>)
    ensures
        match r {
            Ok(c) => decoded_config(text@) == Ok::<ConfigView, StoreError>(c@),
            Err(e) => decoded_config(text@) == Err::<ConfigView, StoreError>(e),
        },
{
    let t = match parse_table(strip_banner(text)) {
        Ok(t) => t,
        Err(_) => return Err(StoreError::Parse),
    };
    let title = match get_text(&t, "title") {
        Some(s) => s,
        None => return Err(StoreError::Parse),
    };
    let owner = match get_table(&t, "owner") {
        Some(o) => o,
        None => return Err(StoreError::Parse),
    };
    let name = match get_text(&owner, "name") {
        Some(s) => s,
        None => return Err(StoreError::Parse),
    };
    let dob = match get_text(&owner, "dob") {
        Some(s) => s,
        None => return Err(StoreError::Parse),
    };
    Ok(Config { title, owner: Owner { name, dob } })
}

/// A record written by `render_config` reads back as the same record.
pub proof fn lemma_config_round_trip(c: ConfigView, text: Seq<char>)
    requires
        is_document_of(text, config_tree(c)),
    ensures
        decoded_config(text) == Ok::<ConfigView, StoreError>(c),
{
    reveal_strlit("title");
    reveal_strlit("owner");
    reveal_strlit("name");
    reveal_strlit("dob");
    assert("title"@[0] != "owner"@[0]);
    assert("name"@[0] != "dob"@[0]);
    let m = config_tree(c);
    assert(lookup_text(m, "title"@) == Some(c.title));
    let o = map!["name"@ => TomlTree::Text(c.owner.name), "dob"@ => TomlTree::Text(c.owner.dob)];
    assert(lookup_table(m, "owner"@) == Some(o));
    assert(lookup_text(o, "name"@) == Some(c.owner.name));
    assert(lookup_text(o, "dob"@) == Some(c.owner.dob));
}

} // verus!
