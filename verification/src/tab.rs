//! Tabs and their identities, and the read-only text buffer used by the
//! terminal's output widgets.

use vstd::prelude::*;

use crate::hashing::str_hash;
use crate::text::dec_str;

verus! {

/// One scratch buffer in the dock.
///
/// The identity is a stable token derived from the name and the tree position
/// at creation time; it never changes afterwards, so per-tab state keyed by it
/// (scroll offsets, cached terminal output) survives renames. The editor's
/// text itself is owned by the editor collaborator and keyed by this identity.
/// The scroll offset is stored in tenths of a screen unit.
#[derive(Clone, Debug)]
pub struct Tab {
    pub name: String,
    pub id: u64,
    pub scroll_offset: Option<(i64, i64)>,
}

/// The identity seed of a tab created at a node: `{name}-{node}-{count}`.
pub open spec fn id_seed(name: Seq<char>, node: nat, count: nat) -> Seq<char> {
    name + "-"@ + dec_str(node) + "-"@ + dec_str(count)
}

/// The identity of a tab created at a node index while the node already held
/// `count - 1` tabs.
pub open spec fn tab_id_of(name: Seq<char>, node: nat, count: nat) -> u64 {
    str_hash(id_seed(name, node, count))
}

/// The identity of a tab derived from its name alone (used for the default
/// tab that exists before any other was created at a node).
pub open spec fn name_id_of(name: Seq<char>) -> u64 {
    str_hash(name)
}

/// The spec-level value of a tab: name, identity, scroll offset.
pub type TabV = (Seq<char>, u64, Option<(i64, i64)>);

/// The spec-level value of a tab.
pub open spec fn tab_view(t: Tab) -> TabV {
    (t.name@, t.id, t.scroll_offset)
}

impl Tab {
    /// Creates a tab whose identity is derived from its name alone.
    pub fn with_name_id(name: String) -> (t: Tab)
        ensures
            tab_view(t) == (name@, name_id_of(name@), None::<(i64, i64)>),
    {
        let id = crate::hashing::hash_str(name.as_str());
        Tab { name, id, scroll_offset: None }
    }

    /// Creates a tab whose identity is derived from its name and the position
    /// it is created at.
    pub fn at_position(name: String, node: usize, count: usize) -> (t: Tab)
        ensures
            tab_view(t) == (name@, tab_id_of(name@, node as nat, count as nat), None::<(i64, i64)>),
    {
        proof {
            reveal_strlit("-");
        }
        let mut seed = String::from_str(name.as_str());
        seed.append("-");
        let node_dec = crate::text::u64_to_dec(node as u64);
        seed.append(node_dec.as_str());
        seed.append("-");
        let count_dec = crate::text::u64_to_dec(count as u64);
        seed.append(count_dec.as_str());
        let id = crate::hashing::hash_str(seed.as_str());
        Tab { name, id, scroll_offset: None }
    }

    /// The display name shown in the tab's title.
    pub fn title(&self) -> (r: &String)
        ensures
            r@ == self.name@,
    {
        &self.name
    }
}

/// A read-only text buffer: hands out its contents and swallows every edit, so
/// a multiline text widget over it can select and scroll but never mutate.
pub struct ReadOnlyString<'a> {
    pub content: &'a str,
}

impl<'a> ReadOnlyString<'a> {
    pub fn new(content: &'a str) -> (r: Self)
        ensures
            r.content@ == content@,
    {
        ReadOnlyString { content }
    }

    /// A read-only buffer never reports itself as mutable.
    pub fn is_mutable(&self) -> (r: bool)
        ensures
            r == false,
    {
        false
    }

    pub fn as_str(&self) -> (r: &str)
        ensures
            r@ == self.content@,
    {
        self.content
    }

    /// Rejects the insertion: nothing is inserted and the buffer is unchanged.
    pub fn insert_text(&mut self, _text: &str, _char_index: usize) -> (r: usize)
        ensures
            r == 0,
            final(self).content@ == old(self).content@,
    {
        0
    }

    /// Ignores the deletion; the buffer is unchanged.
    pub fn delete_char_range(&mut self, _start: usize, _end: usize)
        ensures
            final(self).content@ == old(self).content@,
    {
    }

    /// Ignores the request; the buffer is unchanged.
    pub fn clear(&mut self)
        ensures
            final(self).content@ == old(self).content@,
    {
    }

    /// Ignores the replacement; the buffer is unchanged.
    pub fn replace(&mut self, _text: &str)
        ensures
            final(self).content@ == old(self).content@,
    {
    }
}

} // verus!
