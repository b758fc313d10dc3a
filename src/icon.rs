//! Icon selection for the active desktop.
//!
//! The selector is rebuilt whenever the desktop list changes: for each
//! desktop that exists and has a configured icon that could be loaded, it
//! records the icon under the desktop's index, and the desktop's name under
//! that index. Lookups resolve by name, then by index, then fall back to the
//! default icon; desktops without an icon of their own reach the default at
//! lookup time, not at build time.
use vstd::prelude::*;
use crate::config::Settings;
use crate::desktop::DesktopInfo;

verus! {

/// The icon recorded for `index` among the first `n` desktops: the last one
/// with that index whose icon was loaded.
pub open spec fn icon_for_index<I>(desktops: Seq<DesktopInfo>, icons: Seq<Option<I>>, n: int, index: u32) -> Option<I>
    decreases n,
{
    if n <= 0 {
        None
    } else if icons[n - 1] is Some && desktops[n - 1].index == index {
        icons[n - 1]
    } else {
        icon_for_index(desktops, icons, n - 1, index)
    }
}

/// The index recorded for `name` among the first `n` desktops: that of the
/// last one with that name whose icon was loaded.
pub open spec fn index_for_name<I>(desktops: Seq<DesktopInfo>, icons: Seq<Option<I>>, n: int, name: Seq<char>) -> Option<u32>
    decreases n,
{
    if n <= 0 {
        None
    } else if icons[n - 1] is Some && desktops[n - 1].name@ == name {
        Some(desktops[n - 1].index)
    } else {
        index_for_name(desktops, icons, n - 1, name)
    }
}

/// `r` is the reference form of `m`.
pub open spec fn refers_to<I>(r: Option<&I>, m: Option<I>) -> bool {
    &&& (r is Some <==> m is Some)
    &&& (r is Some ==> r->0 == m->0)
}

/// Maps desktop identities to icons of type `I`.
pub struct IconSelector<I> {
    settings: Settings,
    default_icon: Option<I>,
    desktops: Vec<DesktopInfo>,
    icons: Vec<Option<I>>,
}

impl<I> IconSelector<I> {
    pub closed spec fn settings(&self) -> Settings {
        self.settings
    }

    pub closed spec fn default_icon(&self) -> Option<I> {
        self.default_icon
    }

    /// The desktops of the last build.
    pub closed spec fn desktops(&self) -> Seq<DesktopInfo> {
        self.desktops@
    }

    /// For each desktop of the last build, its loaded icon, if any.
    pub closed spec fn icons(&self) -> Seq<Option<I>> {
        self.icons@
    }

    pub open spec fn wf(&self) -> bool {
        self.desktops().len() == self.icons().len()
    }

    pub open spec fn by_index(&self, index: u32) -> Option<I> {
        icon_for_index(self.desktops(), self.icons(), self.desktops().len() as int, index)
    }

    pub open spec fn by_name(&self, name: Seq<char>) -> Option<I> {
        match index_for_name(self.desktops(), self.icons(), self.desktops().len() as int, name) {
            Some(index) => self.by_index(index),
            None => None,
        }
    }

    /// Resolution order: name, then index, then the default icon; `None`
    /// only where no default icon is configured.
    pub open spec fn resolve(&self, name: Seq<char>, index: u32) -> Option<I> {
        match self.by_name(name) {
            Some(icon) => Some(icon),
            None => match self.by_index(index) {
                Some(icon) => Some(icon),
                None => self.default_icon(),
            },
        }
    }

    /// A selector with no desktops recorded yet. `default_icon` is the
    /// configured default icon as loaded, `None` where it failed to load;
    /// callers that require a default test `get_default` right away.
    pub fn new(settings: Settings, default_icon: Option<I>) -> (s: Self)
        ensures
            s.wf(),
            s.settings() == settings,
            s.default_icon() == default_icon,
            s.desktops().len() == 0,
    {
        IconSelector { settings, default_icon, desktops: Vec::new(), icons: Vec::new() }
    }

    /// The icon path configured for each desktop, in order: by name first,
    /// then by index.
    pub fn icon_paths(&self, desktops: &Vec<DesktopInfo>) -> (r: Vec<Option<String>>)
        ensures
            r@.len() == desktops@.len(),
            forall|i: int| 0 <= i < desktops@.len() ==> {
                &&& (#[trigger] r@[i]) is Some == self.settings().configured_path(desktops@[i].name@, desktops@[i].index) is Some
                &&& r@[i] is Some ==> r@[i]->0@ == self.settings().configured_path(desktops@[i].name@, desktops@[i].index)->0
            },
    {
        let mut r: Vec<Option<String>> = Vec::new();
        let mut i: usize = 0;
        while i < desktops.len()
            invariant
                0 <= i <= desktops.len(),
                r@.len() == i,
                forall|k: int| 0 <= k < i ==> {
                    &&& (#[trigger] r@[k]) is Some == self.settings().configured_path(desktops@[k].name@, desktops@[k].index) is Some
                    &&& r@[k] is Some ==> r@[k]->0@ == self.settings().configured_path(desktops@[k].name@, desktops@[k].index)->0
                },
            decreases desktops.len() - i,
        {
            let p = self.settings.path_for(&desktops[i].name, desktops[i].index);
            r.push(p);
            i = i + 1;
        }
        r
    }

    /// Rebuilds the tables from the current desktop list. `icons[i]` is the
    /// icon loaded for `desktops[i]`, `None` where none is configured or it
    /// failed to load.
    pub fn build_icons(&mut self, desktops: Vec<DesktopInfo>, icons: Vec<Option<I>>)
        requires
            desktops@.len() == icons@.len(),
        ensures
            final(self).wf(),
            final(self).desktops() == desktops@,
            final(self).icons() == icons@,
            final(self).settings() == old(self).settings(),
            final(self).default_icon() == old(self).default_icon(),
    {
        self.desktops = desktops;
        self.icons = icons;
    }

    pub fn get_by_index(&self, index: u32) -> (r: Option<&I>)
        requires
            self.wf(),
        ensures
            refers_to(r, self.by_index(index)),
    {
        let mut k: usize = self.desktops.len();
        while k > 0
            invariant
                k <= self.desktops@.len(),
                self.wf(),
                self.by_index(index) == icon_for_index(self.desktops(), self.icons(), k as int, index),
            decreases k,
        {
            k = k - 1;
            if self.desktops[k].index == index {
                match &self.icons[k] {
                    Some(icon) => {
                        return Some(icon);
                    },
                    None => {},
                }
            }
        }
        None
    }

    fn index_of_name(&self, name: &String) -> (r: Option<u32>)
        requires
            self.wf(),
        ensures
            r == index_for_name(self.desktops(), self.icons(), self.desktops().len() as int, name@),
    {
        let mut k: usize = self.desktops.len();
        while k > 0
            invariant
                k <= self.desktops@.len(),
                self.wf(),
                index_for_name(self.desktops(), self.icons(), self.desktops().len() as int, name@)
                    == index_for_name(self.desktops(), self.icons(), k as int, name@),
            decreases k,
        {
            k = k - 1;
            if self.icons[k].is_some() && self.desktops[k].name == *name {
                return Some(self.desktops[k].index);
            }
        }
        None
    }

    pub fn get_by_name(&self, name: &str) -> (r: Option<&I>)
        requires
            self.wf(),
        ensures
            refers_to(r, self.by_name(name@)),
    {
        let key = name.to_owned();
        match self.index_of_name(&key) {
            Some(index) => self.get_by_index(index),
            None => None,
        }
    }

    pub fn get_default(&self) -> (r: Option<&I>)
        ensures
            refers_to(r, self.default_icon()),
    {
        self.default_icon.as_ref()
    }

    /// The icon to show for a desktop, in the resolution order of `resolve`.
    pub fn select(&self, info: &DesktopInfo) -> (r: Option<&I>)
        requires
            self.wf(),
        ensures
            refers_to(r, self.resolve(info.name@, info.index)),
    {
        match self.get_by_name(info.name.as_str()) {
            Some(icon) => Some(icon),
            None => match self.get_by_index(info.index) {
                Some(icon) => Some(icon),
                None => self.get_default(),
            },
        }
    }
}

/// Icon lookup resolves by name, then by index, then to the default icon;
/// it finds nothing only where no default icon was given at construction.
pub proof fn lemma_resolution_order<I>(s: IconSelector<I>, name: Seq<char>, index: u32)
    ensures
        s.by_name(name) is Some ==> s.resolve(name, index) == s.by_name(name),
        s.by_name(name) is None && s.by_index(index) is Some ==> s.resolve(name, index) == s.by_index(index),
        s.by_name(name) is None && s.by_index(index) is None ==> s.resolve(name, index) == s.default_icon(),
        s.resolve(name, index) is None <==> (s.default_icon() is None && s.by_name(name) is None && s.by_index(index) is None),
        s.default_icon() is Some ==> s.resolve(name, index) is Some,
{
}

} // verus!
