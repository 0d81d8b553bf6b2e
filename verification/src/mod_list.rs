//! A server's `mod-list.json` file, which tells which mods are enabled.
use crate::error::ModError;
use crate::text::str_equal;
use vstd::hash_map::StringHashMap;
use vstd::prelude::*;

verus! {

/// The name of the base game's mod, which is always enabled.
pub const BASE_MOD: &'static str = "base";

/// One entry of a server's mod list.
#[derive(Debug)]
pub struct ModListMod {
    /// The mod's name.
    pub name: String,
    /// Whether the mod is enabled.
    pub enabled: bool,
}

/// The entries of a server's mod list, in the file's order.
#[derive(Debug)]
pub struct ModList {
    mods: Vec<ModListMod>,
}

/// The entries of a mod list as names and flags.
pub open spec fn entries_view(s: Seq<ModListMod>) -> Seq<(Seq<char>, bool)> {
    s.map_values(|m: ModListMod| (m.name@, m.enabled))
}

impl View for ModList {
    type V = Seq<(Seq<char>, bool)>;

    closed spec fn view(&self) -> Seq<(Seq<char>, bool)> {
        entries_view(self.mods@)
    }
}

/// The index of the first entry with a name, or the number of entries.
pub open spec fn first_entry(s: Seq<(Seq<char>, bool)>, name: Seq<char>) -> int
    decreases s.len(),
{
    if s.len() == 0 {
        0
    } else if s[0].0 == name {
        0
    } else {
        1 + first_entry(s.drop_first(), name)
    }
}

/// The first entry with a name is at `m` when no earlier entry has it and the one at `m` has.
proof fn lemma_first_entry_at(s: Seq<(Seq<char>, bool)>, name: Seq<char>, m: int)
    requires
        0 <= m <= s.len(),
        forall|k: int| 0 <= k < m ==> (#[trigger] s[k]).0 != name,
        m < s.len() ==> s[m].0 == name,
    ensures
        first_entry(s, name) == m,
    decreases m,
{
    if m > 0 {
        let t = s.drop_first();
        assert(s[0].0 != name);
        assert forall|k: int| 0 <= k < m - 1 implies (#[trigger] t[k]).0 != name by {
            assert(t[k] == s[k + 1]);
        }
        if m - 1 < t.len() {
            assert(t[m - 1] == s[m]);
        }
        lemma_first_entry_at(t, name, m - 1);
    }
}

/// The first entry with a name lies within the list, and no entry before it has the name.
pub proof fn lemma_first_entry_bound(s: Seq<(Seq<char>, bool)>, name: Seq<char>)
    ensures
        0 <= first_entry(s, name) <= s.len(),
        first_entry(s, name) < s.len() ==> s[first_entry(s, name)].0 == name,
        forall|k: int| 0 <= k < first_entry(s, name) ==> (#[trigger] s[k]).0 != name,
    decreases s.len(),
{
    if s.len() > 0 && s[0].0 != name {
        let t = s.drop_first();
        lemma_first_entry_bound(t, name);
        assert forall|k: int| 0 <= k < first_entry(s, name) implies (#[trigger] s[k]).0 != name by {
            if k > 0 {
                assert(s[k] == t[k - 1]);
            }
        }
    }
}

/// Whether a mod is enabled: the flag of its first entry, or `false` when it has none.
pub open spec fn enabled_in(s: Seq<(Seq<char>, bool)>, name: Seq<char>) -> bool {
    let k = first_entry(s, name);
    if k < s.len() {
        s[k].1
    } else {
        false
    }
}

/// The entries after a mod's flag was set: the first entry with the name gets the flag, or an
/// entry is added at the end when there is none. The base mod's entry is never changed.
pub open spec fn with_enabled(s: Seq<(Seq<char>, bool)>, name: Seq<char>, enabled: bool) -> Seq<
    (Seq<char>, bool),
> {
    if name == BASE_MOD@ {
        s
    } else {
        let k = first_entry(s, name);
        if k < s.len() {
            s.update(k, (name, enabled))
        } else {
            s.push((name, enabled))
        }
    }
}

/// The flags of the mods by name; where a name has several entries, the last one's flag.
pub open spec fn enabled_map(s: Seq<(Seq<char>, bool)>) -> Map<Seq<char>, bool>
    decreases s.len(),
{
    if s.len() == 0 {
        Map::empty()
    } else {
        enabled_map(s.drop_last()).insert(s.last().0, s.last().1)
    }
}

impl ModList {
    /// A mod list with the given entries, in order.
    pub fn new(mods: Vec<ModListMod>) -> (r: Self)
        ensures
            r@ == entries_view(mods@),
    {
        ModList { mods }
    }

    /// The entries of this list, in order.
    pub fn entries(&self) -> (r: &Vec<ModListMod>)
        ensures
            entries_view(r@) == self@,
    {
        &self.mods
    }

    /// The index of the first entry with a name, or the number of entries.
    fn find(&self, name: &str) -> (r: usize)
        ensures
            r == first_entry(self@, name@),
    {
        let ghost s = self@;
        let mut j: usize = 0;
        while j < self.mods.len()
            invariant
                j <= self.mods.len(),
                s == entries_view(self.mods@),
                forall|k: int| 0 <= k < j ==> (#[trigger] s[k]).0 != name@,
            decreases self.mods.len() - j,
        {
            assert(s[j as int] == (self.mods@[j as int].name@, self.mods@[j as int].enabled));
            if str_equal(self.mods[j].name.as_str(), name) {
                proof {
                    lemma_first_entry_at(s, name@, j as int);
                }
                return j;
            }
            j = j + 1;
        }
        proof {
            lemma_first_entry_at(s, name@, s.len() as int);
        }
        j
    }

    /// Whether a mod is enabled: the flag of its first entry, or `false` when it has none.
    pub fn get_mod_enabled(&self, name: &str) -> (r: bool)
        ensures
            r == enabled_in(self@, name@),
    {
        let k = self.find(name);
        if k < self.mods.len() {
            self.mods[k].enabled
        } else {
            false
        }
    }

    /// Sets whether a mod is enabled. Enabling the base mod changes nothing; disabling it fails
    /// with `CannotDisableBaseMod`, changing nothing. Any other mod's first entry gets the flag,
    /// or an entry is added for it.
    pub fn set_mod_enabled(&mut self, name: &str, enabled: bool) -> (r: Result<(), ModError>)
        ensures
            name@ == BASE_MOD@ && !enabled ==> (r matches Err(ModError::CannotDisableBaseMod)
                && final(self)@ == old(self)@),
            !(name@ == BASE_MOD@ && !enabled) ==> (r is Ok && final(self)@ == with_enabled(
                old(self)@,
                name@,
                enabled,
            )),
    {
        if str_equal(name, BASE_MOD) {
            if enabled {
                return Ok(());
            } else {
                return Err(ModError::CannotDisableBaseMod);
            }
        }
        let k = self.find(name);
        let ghost before = self.mods@;
        if k < self.mods.len() {
            let _ = self.mods.remove(k);
            self.mods.insert(k, ModListMod { name: name.to_string(), enabled });
            assert(entries_view(self.mods@) =~= entries_view(before).update(
                k as int,
                (name@, enabled),
            ));
        } else {
            self.mods.push(ModListMod { name: name.to_string(), enabled });
            assert(entries_view(self.mods@) =~= entries_view(before).push((name@, enabled)));
        }
        Ok(())
    }

    /// The flags of all the mods by name; where a name has several entries, the last one's flag
    /// counts.
    pub fn get_mods_enabled_status(&self) -> (r: StringHashMap<bool>)
        ensures
            r@ == enabled_map(self@),
    {
        let mut r: StringHashMap<bool> = StringHashMap::new();
        let mut j: usize = 0;
        while j < self.mods.len()
            invariant
                j <= self.mods.len(),
                r@ == enabled_map(self@.take(j as int)),
            decreases self.mods.len() - j,
        {
            r.insert(self.mods[j].name.clone(), self.mods[j].enabled);
            proof {
                let t = self@.take(j + 1);
                assert(t.drop_last() =~= self@.take(j as int));
                assert(t.last() == self@[j as int]);
            }
            j = j + 1;
        }
        assert(self@.take(self.mods.len() as int) =~= self@);
        r
    }
}

/// After a mod's flag was set, reading it gives the flag back, for every mod but the base mod.
pub proof fn law_set_then_get(s: Seq<(Seq<char>, bool)>, name: Seq<char>, enabled: bool)
    requires
        name != BASE_MOD@,
    ensures
        enabled_in(with_enabled(s, name, enabled), name) == enabled,
{
    lemma_first_entry_bound(s, name);
    let k = first_entry(s, name);
    let t = with_enabled(s, name, enabled);
    if k < s.len() {
        lemma_first_entry_at(t, name, k);
    } else {
        assert forall|i: int| 0 <= i < s.len() implies (#[trigger] t[i]).0 != name by {
            assert(t[i] == s[i]);
        }
        lemma_first_entry_at(t, name, s.len() as int);
    }
}

/// Setting one mod's flag leaves every other mod's flag as it was.
pub proof fn law_set_keeps_others(
    s: Seq<(Seq<char>, bool)>,
    name: Seq<char>,
    enabled: bool,
    other: Seq<char>,
)
    requires
        other != name,
    ensures
        enabled_in(with_enabled(s, name, enabled), other) == enabled_in(s, other),
{
    lemma_first_entry_bound(s, name);
    lemma_first_entry_bound(s, other);
    let t = with_enabled(s, name, enabled);
    let m = first_entry(s, other);
    if name != BASE_MOD@ {
        assert forall|i: int| 0 <= i < m implies (#[trigger] t[i]).0 != other by {
            assert(t[i] == s[i] || t[i] == (name, enabled));
        }
        if m < s.len() {
            assert(t[m] == s[m] || t[m] == (name, enabled));
            lemma_first_entry_at(t, other, m);
        } else {
            assert(t.len() == s.len() || t[s.len() as int] == (name, enabled));
            lemma_first_entry_at(t, other, t.len() as int);
        }
    }
}

/// Whether no two entries have the same name.
pub open spec fn names_distinct(s: Seq<(Seq<char>, bool)>) -> bool {
    forall|i: int, j: int| 0 <= i < j < s.len() ==> (#[trigger] s[i]).0 != (#[trigger] s[j]).0
}

/// A mod's flag in a map of flags by name: the one it maps to, or `false` when it has none.
pub open spec fn flag_of(m: Map<Seq<char>, bool>, name: Seq<char>) -> bool {
    if m.dom().contains(name) {
        m[name]
    } else {
        false
    }
}

/// The map of flags holds exactly the names of the entries, each with its entry's flag, when
/// no two entries share a name.
proof fn lemma_enabled_map_distinct(s: Seq<(Seq<char>, bool)>)
    requires
        names_distinct(s),
    ensures
        enabled_map(s).dom().finite(),
        enabled_map(s).dom().len() == s.len(),
        forall|i: int|
            0 <= i < s.len() ==> enabled_map(s).dom().contains((#[trigger] s[i]).0)
                && enabled_map(s)[s[i].0] == s[i].1,
        forall|name: Seq<char>|
            #[trigger] enabled_map(s).dom().contains(name) ==> exists|i: int|
                0 <= i < s.len() && (#[trigger] s[i]).0 == name,
    decreases s.len(),
{
    if s.len() > 0 {
        let t = s.drop_last();
        let last = s.last();
        assert forall|i: int, j: int| 0 <= i < j < t.len() implies (#[trigger] t[i]).0 != (
        #[trigger] t[j]).0 by {
            assert(t[i] == s[i] && t[j] == s[j]);
        }
        lemma_enabled_map_distinct(t);
        let m = enabled_map(t);
        assert(!m.dom().contains(last.0)) by {
            if m.dom().contains(last.0) {
                let i = choose|i: int| 0 <= i < t.len() && (#[trigger] t[i]).0 == last.0;
                assert(t[i] == s[i]);
                assert(s[i].0 != s[s.len() - 1].0);
            }
        }
        assert forall|i: int| 0 <= i < s.len() implies enabled_map(s).dom().contains(
            (#[trigger] s[i]).0,
        ) && enabled_map(s)[s[i].0] == s[i].1 by {
            if i < s.len() - 1 {
                assert(t[i] == s[i]);
                assert(s[i].0 != s[s.len() - 1].0);
            }
        }
        assert forall|name: Seq<char>| #[trigger] enabled_map(s).dom().contains(name) implies exists|
            i: int,
        | 0 <= i < s.len() && (#[trigger] s[i]).0 == name by {
            if name == last.0 {
                assert(s[s.len() - 1].0 == name);
            } else {
                assert(m.dom().contains(name));
                let i = choose|i: int| 0 <= i < t.len() && (#[trigger] t[i]).0 == name;
                assert(t[i] == s[i]);
            }
        }
    }
}

/// When no two entries share a name, the map of all the flags agrees with reading each flag
/// alone: it holds one flag per entry, each entry's name maps to its flag, and every name reads
/// the same in the map as in the list.
pub proof fn law_enabled_map_agrees(s: Seq<(Seq<char>, bool)>, name: Seq<char>)
    requires
        names_distinct(s),
    ensures
        enabled_map(s).dom().len() == s.len(),
        forall|i: int|
            0 <= i < s.len() ==> enabled_map(s).dom().contains((#[trigger] s[i]).0)
                && enabled_map(s)[s[i].0] == s[i].1,
        flag_of(enabled_map(s), name) == enabled_in(s, name),
{
    lemma_enabled_map_distinct(s);
    lemma_first_entry_bound(s, name);
    let k = first_entry(s, name);
    if k < s.len() {
        assert(enabled_map(s).dom().contains(s[k].0));
    } else if enabled_map(s).dom().contains(name) {
        let i = choose|i: int| 0 <= i < s.len() && (#[trigger] s[i]).0 == name;
        assert(s[i].0 != name);
    }
}

} // verus!
