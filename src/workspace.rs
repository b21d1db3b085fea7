//! The decisions of the project panel: which file names a configuration may
//! be saved under, the list of class labels, and whether the clustering note
//! is still shown.
use vstd::prelude::*;
use crate::text::{ends_with, has_suffix, same_text};

verus! {

/// The label that every list holds and that cannot be deleted.
pub const DEFAULT_LABEL: &'static str = "default / background";

pub const CONFIG_SUFFIX: &'static str = ".toml";

/// A configuration is saved only under a non-empty name ending in `.toml`.
pub fn is_config_file_name(name: &str) -> (r: bool)
    ensures
        r == (name@.len() > 0 && has_suffix(name@, CONFIG_SUFFIX@)),
{
    let n = name.unicode_len();
    n > 0 && ends_with(name, CONFIG_SUFFIX)
}

/// Whether the clustering note is shown next time, after the user answered
/// it (`ok`) with "don't show again" ticked or not.
pub fn note_shown_after(shown: bool, ok: bool, dont_show_again: bool) -> (r: bool)
    ensures
        r == (shown && !(ok && dont_show_again)),
{
    shown && !(ok && dont_show_again)
}

/// The class labels of a classification project, in the order they were
/// added.
pub struct LabelList {
    items: Vec<String>,
}

impl View for LabelList {
    type V = Seq<Seq<char>>;

    closed spec fn view(&self) -> Seq<Seq<char>> {
        self.items@.map_values(|s: String| s@)
    }
}

impl LabelList {
    /// The default label is always in the list.
    pub open spec fn wf(&self) -> bool {
        self@.contains(DEFAULT_LABEL@)
    }

    /// A list holding the default label alone.
    pub fn new() -> (r: LabelList)
        ensures
            r.wf(),
            r@ == seq![DEFAULT_LABEL@],
    {
        let mut items: Vec<String> = Vec::new();
        items.push(DEFAULT_LABEL.to_owned());
        let r = LabelList { items };
        assert(r@ =~= seq![DEFAULT_LABEL@]);
        assert(r@[0] == DEFAULT_LABEL@);
        r
    }

    pub fn len(&self) -> (r: usize)
        ensures
            r == self@.len(),
    {
        self.items.len()
    }

    /// The label at index `i`.
    pub fn get(&self, i: usize) -> (r: &str)
        requires
            i < self@.len(),
        ensures
            r@ == self@[i as int],
    {
        self.items[i].as_str()
    }

    /// Adds a label at the end; an empty name is not added. Names already in
    /// the list are added again.
    pub fn add(&mut self, name: &str) -> (added: bool)
        requires
            old(self).wf(),
        ensures
            final(self).wf(),
            added == (name@.len() > 0),
            added ==> final(self)@ == old(self)@.push(name@),
            !added ==> final(self)@ == old(self)@,
    {
        if name.unicode_len() == 0 {
            return false;
        }
        let ghost before = self@;
        self.items.push(name.to_owned());
        proof {
            assert(self@ =~= before.push(name@));
            let j = choose|j: int| 0 <= j < before.len() && before[j] == DEFAULT_LABEL@;
            assert(self@[j] == DEFAULT_LABEL@);
        }
        true
    }

    /// Deletes the label at index `i`, unless it is the default label.
    pub fn remove(&mut self, i: usize) -> (removed: bool)
        requires
            old(self).wf(),
            i < old(self)@.len(),
        ensures
            final(self).wf(),
            removed == (old(self)@[i as int] != DEFAULT_LABEL@),
            removed ==> final(self)@ == old(self)@.remove(i as int),
            !removed ==> final(self)@ == old(self)@,
    {
        if same_text(self.items[i].as_str(), DEFAULT_LABEL) {
            return false;
        }
        let ghost before = self@;
        self.items.remove(i);
        proof {
            assert(self@ =~= before.remove(i as int));
            let j = choose|j: int| 0 <= j < before.len() && before[j] == DEFAULT_LABEL@;
            if j < i {
                assert(self@[j] == DEFAULT_LABEL@);
            } else {
                assert(self@[j - 1] == DEFAULT_LABEL@);
            }
        }
        true
    }
}

} // verus!
