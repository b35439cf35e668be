//! Hidden categories and channels.
use vstd::prelude::*;
use crate::cache::{join_path, path_join};
use crate::text::str_eq;

verus! {

/// The names in a list, as a set.
pub open spec fn name_set(v: Seq<String>) -> Set<Seq<char>> {
    Set::new(|n: Seq<char>| exists|i: int| 0 <= i < v.len() && v[i]@ == n)
}

/// The set after toggling a name: removed when present, added when absent.
pub open spec fn toggled(s: Set<Seq<char>>, name: Seq<char>) -> Set<Seq<char>> {
    if s.contains(name) { s.remove(name) } else { s.insert(name) }
}

/// No name occurs twice.
pub open spec fn names_unique(v: Seq<String>) -> bool {
    forall|i: int, j: int| 0 <= i < j < v.len() ==> v[i]@ != v[j]@
}

/// Index of `name` in the list, if present.
fn find_name(v: &Vec<String>, name: &str) -> (r: Option<usize>)
    ensures
        match r {
            Some(i) => i < v@.len() && v@[i as int]@ == name@,
            None => !name_set(v@).contains(name@),
        },
{
    let mut i: usize = 0;
    while i < v.len()
        invariant
            i <= v@.len(),
            forall|j: int| 0 <= j < i ==> v@[j]@ != name@,
        decreases v@.len() - i,
    {
        if str_eq(v[i].as_str(), name) {
            return Some(i);
        }
        i = i + 1;
    }
    None
}

/// Toggles `name` in a list of unique names; returns whether it is now present.
fn toggle_name(v: &mut Vec<String>, name: &str) -> (r: bool)
    requires
        names_unique(old(v)@),
    ensures
        names_unique(final(v)@),
        r == !name_set(old(v)@).contains(name@),
        r ==> name_set(final(v)@) == name_set(old(v)@).insert(name@),
        !r ==> name_set(final(v)@) == name_set(old(v)@).remove(name@),
{
    match find_name(v, name) {
        Some(i) => {
            let ghost old_v = v@;
            v.remove(i);
            proof {
                assert(name_set(old_v).contains(name@));
                assert forall|n: Seq<char>| name_set(v@).contains(n) == name_set(old_v).remove(name@).contains(n) by {
                    if name_set(v@).contains(n) {
                        let k = choose|k: int| 0 <= k < v@.len() && v@[k]@ == n;
                        if k < i {
                            assert(old_v[k] == v@[k]);
                            assert(k != i);
                        } else {
                            assert(old_v[k + 1] == v@[k]);
                        }
                    }
                    if name_set(old_v).remove(name@).contains(n) {
                        let k = choose|k: int| 0 <= k < old_v.len() && old_v[k]@ == n;
                        assert(k != i);
                        if k < i {
                            assert(v@[k] == old_v[k]);
                        } else {
                            assert(v@[k - 1] == old_v[k]);
                        }
                    }
                }
                assert(name_set(v@) =~= name_set(old_v).remove(name@));
                assert forall|a: int, b: int| 0 <= a < b < v@.len() implies v@[a]@ != v@[b]@ by {
                    let oa = if a < i { a } else { a + 1 };
                    let ob = if b < i { b } else { b + 1 };
                    assert(v@[a] == old_v[oa]);
                    assert(v@[b] == old_v[ob]);
                }
            }
            false
        },
        None => {
            let ghost old_v = v@;
            v.push(name.to_owned());
            proof {
                assert forall|n: Seq<char>| name_set(v@).contains(n) == name_set(old_v).insert(name@).contains(n) by {
                    if name_set(v@).contains(n) {
                        let k = choose|k: int| 0 <= k < v@.len() && v@[k]@ == n;
                        if k < old_v.len() {
                            assert(old_v[k] == v@[k]);
                        }
                    }
                    if name_set(old_v).contains(n) {
                        let k = choose|k: int| 0 <= k < old_v.len() && old_v[k]@ == n;
                        assert(v@[k] == old_v[k]);
                    }
                    if n == name@ {
                        assert(v@[old_v.len() as int]@ == name@);
                    }
                }
                assert(name_set(v@) =~= name_set(old_v).insert(name@));
                assert forall|a: int, b: int| 0 <= a < b < v@.len() implies v@[a]@ != v@[b]@ by {
                    if b == old_v.len() {
                        assert(v@[a] == old_v[a]);
                    } else {
                        assert(v@[a] == old_v[a]);
                        assert(v@[b] == old_v[b]);
                    }
                }
            }
            true
        },
    }
}

/// The categories and channels the user chose to hide, by name.
#[derive(Debug)]
pub struct IgnoreConfig {
    categories: Vec<String>,
    channels: Vec<String>,
}

impl IgnoreConfig {
    /// The hidden category names.
    pub closed spec fn category_set(self) -> Set<Seq<char>> {
        name_set(self.categories@)
    }

    /// The hidden channel names.
    pub closed spec fn channel_set(self) -> Set<Seq<char>> {
        name_set(self.channels@)
    }

    /// Each name is held once.
    pub closed spec fn wf(self) -> bool {
        names_unique(self.categories@) && names_unique(self.channels@)
    }

    /// Nothing hidden (the state when no file exists).
    pub fn new() -> (r: IgnoreConfig)
        ensures
            r.wf(),
            r.category_set() == Set::<Seq<char>>::empty(),
            r.channel_set() == Set::<Seq<char>>::empty(),
    {
        let r = IgnoreConfig { categories: Vec::new(), channels: Vec::new() };
        assert(r.category_set() =~= Set::<Seq<char>>::empty());
        assert(r.channel_set() =~= Set::<Seq<char>>::empty());
        r
    }

    /// The configuration holding the given names (a repeated name counts once).
    pub fn from_lists(categories: Vec<String>, channels: Vec<String>) -> (r: IgnoreConfig)
        ensures
            r.wf(),
            r.category_set() == name_set(categories@),
            r.channel_set() == name_set(channels@),
    {
        let mut r = IgnoreConfig::new();
        let mut i: usize = 0;
        while i < categories.len()
            invariant
                r.wf(),
                i <= categories@.len(),
                r.category_set() == name_set(categories@.subrange(0, i as int)),
                r.channel_set() == Set::<Seq<char>>::empty(),
            decreases categories@.len() - i,
        {
            if !r.is_category_ignored(categories[i].as_str()) {
                toggle_name(&mut r.categories, categories[i].as_str());
            }
            proof { lemma_name_set_push(categories@, i as int); }
            i = i + 1;
        }
        assert(categories@.subrange(0, categories@.len() as int) =~= categories@);
        let mut j: usize = 0;
        while j < channels.len()
            invariant
                r.wf(),
                j <= channels@.len(),
                r.category_set() == name_set(categories@),
                r.channel_set() == name_set(channels@.subrange(0, j as int)),
            decreases channels@.len() - j,
        {
            if !r.is_channel_ignored(channels[j].as_str()) {
                toggle_name(&mut r.channels, channels[j].as_str());
            }
            proof { lemma_name_set_push(channels@, j as int); }
            j = j + 1;
        }
        assert(channels@.subrange(0, channels@.len() as int) =~= channels@);
        r
    }

    /// Hides the category if shown, shows it if hidden; returns whether it is
    /// now hidden. Saving the file is the caller's part.
    pub fn toggle_category(&mut self, category: &str) -> (r: bool)
        requires
            old(self).wf(),
        ensures
            final(self).wf(),
            r == !old(self).category_set().contains(category@),
            final(self).category_set() == toggled(old(self).category_set(), category@),
            final(self).channel_set() == old(self).channel_set(),
    {
        toggle_name(&mut self.categories, category)
    }

    /// Hides the channel if shown, shows it if hidden; returns whether it is
    /// now hidden. Saving the file is the caller's part.
    pub fn toggle_channel(&mut self, channel: &str) -> (r: bool)
        requires
            old(self).wf(),
        ensures
            final(self).wf(),
            r == !old(self).channel_set().contains(channel@),
            final(self).channel_set() == toggled(old(self).channel_set(), channel@),
            final(self).category_set() == old(self).category_set(),
    {
        toggle_name(&mut self.channels, channel)
    }

    /// Whether the category is hidden.
    pub fn is_category_ignored(&self, category: &str) -> (r: bool)
        ensures
            r == self.category_set().contains(category@),
    {
        find_name(&self.categories, category).is_some()
    }

    /// Whether the channel is hidden.
    pub fn is_channel_ignored(&self, channel: &str) -> (r: bool)
        ensures
            r == self.channel_set().contains(channel@),
    {
        find_name(&self.channels, channel).is_some()
    }

    /// The hidden category names, each once.
    pub fn get_ignored_categories(&self) -> (r: &Vec<String>)
        requires
            self.wf(),
        ensures
            name_set(r@) == self.category_set(),
            names_unique(r@),
    {
        &self.categories
    }

    /// The hidden channel names, each once.
    pub fn get_ignored_channels(&self) -> (r: &Vec<String>)
        requires
            self.wf(),
        ensures
            name_set(r@) == self.channel_set(),
            names_unique(r@),
    {
        &self.channels
    }

    /// Where the file lives: `iptv/ignore.toml` under the configuration directory.
    pub fn config_path(config_dir: &str) -> (r: String)
        ensures
            r@ == path_join(path_join(config_dir@, "iptv"@), "ignore.toml"@),
    {
        let d = join_path(config_dir, "iptv");
        join_path(d.as_str(), "ignore.toml")
    }
}

proof fn lemma_name_set_push(v: Seq<String>, i: int)
    requires
        0 <= i < v.len(),
    ensures
        name_set(v.subrange(0, i + 1)) == name_set(v.subrange(0, i)).insert(v[i]@),
{
    let a = v.subrange(0, i + 1);
    let b = v.subrange(0, i);
    assert forall|n: Seq<char>| name_set(a).contains(n) == name_set(b).insert(v[i]@).contains(n) by {
        if name_set(a).contains(n) {
            let k = choose|k: int| 0 <= k < a.len() && a[k]@ == n;
            if k < i {
                assert(b[k] == a[k]);
            }
        }
        if name_set(b).contains(n) {
            let k = choose|k: int| 0 <= k < b.len() && b[k]@ == n;
            assert(a[k] == b[k]);
        }
        if n == v[i]@ {
            assert(a[i] == v[i]);
        }
    }
    assert(name_set(a) =~= name_set(b).insert(v[i]@));
}

/// Toggling a name twice gives back the set it started from, and one
/// toggle flips whether the name is in it (hiding or showing a category or
/// a channel twice restores what was hidden).
pub proof fn law_toggle_twice(s: Set<Seq<char>>, name: Seq<char>)
    ensures
        toggled(toggled(s, name), name) == s,
        toggled(s, name).contains(name) == !s.contains(name),
        forall|other: Seq<char>| other != name ==> toggled(s, name).contains(other) == s.contains(other),
{
    assert(toggled(toggled(s, name), name) =~= s);
}

} // verus!
