//! Configuration values, as loaded once at startup.
use vstd::prelude::*;

verus! {

/// A key combination bound to a desktop index.
#[derive(Clone, Debug, PartialEq, Eq, Hash)]
pub struct HotKey {
    pub modifier_keys: Vec<String>,
    pub trigger_key: String,
    pub target_desktop_index: u32,
}

/// The configuration document. Each mapping lists one entry per key.
#[derive(Clone, Debug)]
pub struct Settings {
    pub default_icon_path: String,
    pub desktop_name_to_icon_path: Vec<(String, String)>,
    pub desktop_index_to_icon_path: Vec<(u32, String)>,
    pub switch_desktop_hotkeys: Vec<HotKey>,
    pub move_window_hotkeys: Vec<HotKey>,
    pub follow_moved_windows: bool,
}

/// Why the configuration could not be loaded.
#[derive(Clone, Debug, PartialEq, Eq)]
pub enum SettingsError {
    /// The document could not be read or parsed; the reader's message.
    ConfigError(String),
    NoHomeDirError,
}

/// The icon path configured for a desktop name: the first entry whose key is
/// that name.
pub open spec fn path_for_name(entries: Seq<(String, String)>, name: Seq<char>) -> Option<Seq<char>>
    decreases entries.len(),
{
    if entries.len() == 0 {
        None
    } else if entries[0].0@ == name {
        Some(entries[0].1@)
    } else {
        path_for_name(entries.drop_first(), name)
    }
}

/// The icon path configured for a desktop index: the first entry whose key
/// is that index.
pub open spec fn path_for_index(entries: Seq<(u32, String)>, index: u32) -> Option<Seq<char>>
    decreases entries.len(),
{
    if entries.len() == 0 {
        None
    } else if entries[0].0 == index {
        Some(entries[0].1@)
    } else {
        path_for_index(entries.drop_first(), index)
    }
}

impl Settings {
    /// The icon path configured for a desktop: by its name first, then by its
    /// index.
    pub open spec fn configured_path(&self, name: Seq<char>, index: u32) -> Option<Seq<char>> {
        match path_for_name(self.desktop_name_to_icon_path@, name) {
            Some(p) => Some(p),
            None => path_for_index(self.desktop_index_to_icon_path@, index),
        }
    }

    pub fn path_for(&self, name: &String, index: u32) -> (r: Option<String>)
        ensures
            r.is_some() == self.configured_path(name@, index).is_some(),
            r.is_some() ==> r.unwrap()@ == self.configured_path(name@, index).unwrap(),
    {
        let names = &self.desktop_name_to_icon_path;
        let mut i: usize = 0;
        assert(names@.subrange(0, names@.len() as int) =~= names@);
        while i < names.len()
            invariant
                0 <= i <= names.len(),
                names == &self.desktop_name_to_icon_path,
                path_for_name(names@, name@) == path_for_name(names@.subrange(i as int, names@.len() as int), name@),
            decreases names.len() - i,
        {
            let ghost rest = names@.subrange(i as int, names@.len() as int);
            assert(rest.drop_first() =~= names@.subrange(i + 1, names@.len() as int));
            assert(rest[0] == names@[i as int]);
            if names[i].0 == *name {
                return Some(names[i].1.clone());
            }
            i = i + 1;
        }
        let indices = &self.desktop_index_to_icon_path;
        let mut j: usize = 0;
        assert(indices@.subrange(0, indices@.len() as int) =~= indices@);
        while j < indices.len()
            invariant
                0 <= j <= indices.len(),
                names == &self.desktop_name_to_icon_path,
                indices == &self.desktop_index_to_icon_path,
                path_for_name(names@, name@).is_none(),
                path_for_index(indices@, index) == path_for_index(indices@.subrange(j as int, indices@.len() as int), index),
            decreases indices.len() - j,
        {
            let ghost rest = indices@.subrange(j as int, indices@.len() as int);
            assert(rest.drop_first() =~= indices@.subrange(j + 1, indices@.len() as int));
            assert(rest[0] == indices@[j as int]);
            if indices[j].0 == index {
                return Some(indices[j].1.clone());
            }
            j = j + 1;
        }
        None
    }
}

} // verus!
