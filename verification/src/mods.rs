//! The decisions about a server's mods: which dependencies are missing, and which mods have
//! updates.
use crate::dependency::{Dependency, DependencyView, Requirement};
use crate::error::{ModError, ModErrorView, UpdateBatcherError};
use crate::text::{str_equal, texts};
use crate::version::{spec_meets, version_lt, HumanVersion};
use vstd::hash_map::StringHashMap;
use vstd::prelude::*;

verus! {

/// The name of the base game's mod, which every server has.
pub const BASE_MOD_NAME: &'static str = "base";

/// Why a dependency cannot be met.
pub enum DependencyFailure {
    /// An installed mod's information is missing.
    MissingInfo,
    /// A mod that the depending mod is incompatible with is installed.
    Incompatible,
}

/// What one dependency asks for, given the installed mods and their versions (`None` where a
/// mod's information is missing): the name of a mod to install, nothing, or a failure. The base
/// mod is always there; a mandatory dependency is missing when no mod of its name is installed
/// or the installed one does not meet its version requirement; an incompatible one fails when a
/// mod of its name is installed; optional ones ask for nothing.
pub open spec fn dependency_need(
    d: DependencyView,
    installed: Map<Seq<char>, Option<HumanVersion>>,
) -> Result<Option<Seq<char>>, DependencyFailure> {
    if d.name == BASE_MOD_NAME@ {
        Ok(None)
    } else {
        match d.requirement {
            Requirement::Mandatory => if installed.contains_key(d.name) {
                match installed[d.name] {
                    None => Err(DependencyFailure::MissingInfo),
                    Some(v) => match d.version {
                        Some(req) => if !spec_meets(v, req) {
                            Ok(Some(d.name))
                        } else {
                            Ok(None)
                        },
                        None => Ok(None),
                    },
                }
            } else {
                Ok(Some(d.name))
            },
            Requirement::Incompatible => if installed.contains_key(d.name) {
                Err(DependencyFailure::Incompatible)
            } else {
                Ok(None)
            },
            _ => Ok(None),
        }
    }
}

/// The mods that the first `n` dependencies ask to install, in order, or the first failure with
/// the index of its dependency.
pub open spec fn missing_upto(
    deps: Seq<DependencyView>,
    installed: Map<Seq<char>, Option<HumanVersion>>,
    n: int,
) -> Result<Seq<Seq<char>>, (DependencyFailure, int)>
    decreases n,
{
    if n <= 0 {
        Ok(Seq::empty())
    } else {
        match missing_upto(deps, installed, n - 1) {
            Err(e) => Err(e),
            Ok(m) => match dependency_need(deps[n - 1], installed) {
                Err(f) => Err((f, n - 1)),
                Ok(None) => Ok(m),
                Ok(Some(x)) => Ok(m.push(x)),
            },
        }
    }
}

/// Once a prefix of the dependencies fails, every longer prefix fails the same way.
proof fn lemma_missing_err_stays(
    deps: Seq<DependencyView>,
    installed: Map<Seq<char>, Option<HumanVersion>>,
    m: int,
    n: int,
)
    requires
        0 <= m <= n,
        missing_upto(deps, installed, m) is Err,
    ensures
        missing_upto(deps, installed, n) == missing_upto(deps, installed, m),
    decreases n,
{
    if n > m {
        lemma_missing_err_stays(deps, installed, m, n - 1);
    }
}

/// The meanings of a list of dependencies.
pub open spec fn dependency_views(s: Seq<Dependency>) -> Seq<DependencyView> {
    s.map_values(|d: Dependency| d@)
}

/// Whether a result of checking a mod's dependencies is the one that the dependencies ask for:
/// the mods to install, or the error of the first failure.
pub open spec fn missing_result(
    deps: Seq<DependencyView>,
    installed: Map<Seq<char>, Option<HumanVersion>>,
    mod_display: Seq<char>,
    r: Result<Seq<Seq<char>>, ModErrorView>,
) -> bool {
    match missing_upto(deps, installed, deps.len() as int) {
        Ok(m) => r == Ok::<Seq<Seq<char>>, ModErrorView>(m),
        Err((DependencyFailure::MissingInfo, _)) => r == Err::<Seq<Seq<char>>, ModErrorView>(
            ModErrorView::MissingInfo,
        ),
        Err((DependencyFailure::Incompatible, i)) => r == Err::<Seq<Seq<char>>, ModErrorView>(
            ModErrorView::CannotEnsureDependency { dependency: deps[i], mod_display },
        ),
    }
}

/// A result of checking dependencies, with its names and error by their meaning.
pub open spec fn names_result(r: Result<Vec<String>, ModError>) -> Result<Seq<Seq<char>>, ModErrorView> {
    match r {
        Ok(v) => Ok(texts(v@)),
        Err(e) => Err(e@),
    }
}

/// A copy of a dependency.
fn copy_dependency(d: &Dependency) -> (r: Dependency)
    ensures
        r@ == d@,
{
    Dependency { requirement: d.requirement, name: d.name.clone(), version: d.version }
}

/// Checks a mod's dependencies against the installed mods and their versions (`None` where a
/// mod's information is missing). Returns the names of the mods to install, in the order of the
/// dependencies: those of mandatory dependencies that no installed mod meets. Fails on the first
/// dependency that cannot be met: with `MissingInfo` when an installed mod's version is unknown,
/// and with `CannotEnsureDependency` when a mod that `mod_display` is incompatible with is
/// installed.
pub fn ensure_single_dependencies(
    mod_display: &str,
    dependencies: &Vec<Dependency>,
    installed: &StringHashMap<Option<HumanVersion>>,
) -> (r: Result<Vec<String>, ModError>)
    ensures
        missing_result(dependency_views(dependencies@), installed@, mod_display@, names_result(r)),
{
    let ghost deps = dependency_views(dependencies@);
    let mut missing: Vec<String> = Vec::new();
    assert(texts(missing@) =~= Seq::<Seq<char>>::empty());
    let mut j: usize = 0;
    while j < dependencies.len()
        invariant
            j <= dependencies.len(),
            deps == dependency_views(dependencies@),
            missing_upto(deps, installed@, j as int) == Ok::<
                Seq<Seq<char>>,
                (DependencyFailure, int),
            >(texts(missing@)),
        decreases dependencies.len() - j,
    {
        let dep = &dependencies[j];
        assert(deps[j as int] == dep@);
        proof {
            reveal_strlit("base");
        }
        if !str_equal(dep.name.as_str(), BASE_MOD_NAME) {
            match dep.requirement {
                Requirement::Mandatory => match installed.get(dep.name.as_str()) {
                    Some(found) => match found {
                        None => {
                            proof {
                                lemma_missing_err_stays(deps, installed@, j + 1, deps.len() as int);
                            }
                            return Err(ModError::MissingInfo);
                        },
                        Some(v) => match &dep.version {
                            Some(req) => if !v.meets(req) {
                                let ghost before = missing@;
                                missing.push(dep.name.clone());
                                assert(texts(missing@) =~= texts(before).push(dep.name@));
                            },
                            None => {},
                        },
                    },
                    None => {
                        let ghost before = missing@;
                        missing.push(dep.name.clone());
                        assert(texts(missing@) =~= texts(before).push(dep.name@));
                    },
                },
                Requirement::Incompatible => if installed.contains_key(dep.name.as_str()) {
                    proof {
                        lemma_missing_err_stays(deps, installed@, j + 1, deps.len() as int);
                    }
                    return Err(
                        ModError::CannotEnsureDependency {
                            dependency: copy_dependency(dep),
                            mod_display: mod_display.to_string(),
                        },
                    );
                },
                _ => {},
            }
        }
        j = j + 1;
    }
    Ok(missing)
}

/// The installed mods' versions by name, from a list of names and versions (`None` where a mod's
/// information is missing); where a name is listed more than once, its last entry counts.
pub open spec fn versions_map(s: Seq<(String, Option<HumanVersion>)>) -> Map<Seq<char>, Option<HumanVersion>>
    decreases s.len(),
{
    if s.len() == 0 {
        Map::empty()
    } else {
        versions_map(s.drop_last()).insert(s.last().0@, s.last().1)
    }
}

/// The installed mods' versions by name, from a list of names and versions.
pub fn installed_versions(entries: Vec<(String, Option<HumanVersion>)>) -> (r: StringHashMap<
    Option<HumanVersion>,
>)
    ensures
        r@ == versions_map(entries@),
{
    let mut m: StringHashMap<Option<HumanVersion>> = StringHashMap::new();
    let mut j: usize = 0;
    assert(m@ =~= versions_map(entries@.take(0)));
    while j < entries.len()
        invariant
            j <= entries.len(),
            m@ == versions_map(entries@.take(j as int)),
        decreases entries.len() - j,
    {
        m.insert(entries[j].0.clone(), entries[j].1);
        assert(entries@.take(j + 1).drop_last() =~= entries@.take(j as int));
        assert(entries@.take(j + 1).last() == entries@[j as int]);
        j = j + 1;
    }
    assert(entries@.take(entries.len() as int) =~= entries@);
    m
}

/// A mod and its dependencies.
#[derive(Debug)]
pub struct ModDependencies {
    /// How the mod is shown.
    pub display: String,
    /// The mod's dependencies.
    pub dependencies: Vec<Dependency>,
}

/// The mods that the first `n` mods' dependencies ask to install, mod by mod, or the error of
/// the first mod whose dependencies cannot be met.
pub open spec fn all_missing_upto(
    mods: Seq<ModDependencies>,
    installed: Map<Seq<char>, Option<HumanVersion>>,
    n: int,
) -> Result<Seq<Seq<char>>, ModErrorView>
    decreases n,
{
    if n <= 0 {
        Ok(Seq::empty())
    } else {
        match all_missing_upto(mods, installed, n - 1) {
            Err(e) => Err(e),
            Ok(m) => {
                let deps = dependency_views(mods[n - 1].dependencies@);
                match missing_upto(deps, installed, deps.len() as int) {
                    Ok(x) => Ok(m + x),
                    Err((DependencyFailure::MissingInfo, _)) => Err(ModErrorView::MissingInfo),
                    Err((DependencyFailure::Incompatible, i)) => Err(
                        ModErrorView::CannotEnsureDependency {
                            dependency: deps[i],
                            mod_display: mods[n - 1].display@,
                        },
                    ),
                }
            },
        }
    }
}

/// Once the mods up to some point fail, the mods up to every later point fail the same way.
proof fn lemma_all_missing_err_stays(
    mods: Seq<ModDependencies>,
    installed: Map<Seq<char>, Option<HumanVersion>>,
    m: int,
    n: int,
)
    requires
        0 <= m <= n,
        all_missing_upto(mods, installed, m) is Err,
    ensures
        all_missing_upto(mods, installed, n) == all_missing_upto(mods, installed, m),
    decreases n,
{
    if n > m {
        lemma_all_missing_err_stays(mods, installed, m, n - 1);
    }
}

/// Checks every mod's dependencies against the installed mods, in order. Returns the names of the
/// mods to install, mod by mod; fails with the first mod's error whose dependencies cannot be met.
pub fn ensure_dependencies(
    mods: &Vec<ModDependencies>,
    installed: &StringHashMap<Option<HumanVersion>>,
) -> (r: Result<Vec<String>, ModError>)
    ensures
        names_result(r) == all_missing_upto(mods@, installed@, mods@.len() as int),
{
    let mut missing: Vec<String> = Vec::new();
    assert(texts(missing@) =~= Seq::<Seq<char>>::empty());
    let mut j: usize = 0;
    while j < mods.len()
        invariant
            j <= mods.len(),
            all_missing_upto(mods@, installed@, j as int) == Ok::<Seq<Seq<char>>, ModErrorView>(
                texts(missing@),
            ),
        decreases mods.len() - j,
    {
        let found = ensure_single_dependencies(
            mods[j].display.as_str(),
            &mods[j].dependencies,
            installed,
        );
        match found {
            Err(e) => {
                proof {
                    lemma_all_missing_err_stays(mods@, installed@, j + 1, mods@.len() as int);
                }
                return Err(e);
            },
            Ok(more) => {
                let ghost before = missing@;
                let mut k: usize = 0;
                while k < more.len()
                    invariant
                        k <= more.len(),
                        texts(missing@) == texts(before) + texts(more@).take(k as int),
                    decreases more.len() - k,
                {
                    let ghost prev = missing@;
                    missing.push(more[k].clone());
                    assert(texts(missing@) =~= texts(prev).push(more@[k as int]@));
                    assert(texts(more@).take(k + 1) =~= texts(more@).take(k as int).push(
                        more@[k as int]@,
                    ));
                    assert(texts(missing@) =~= texts(before) + texts(more@).take(k + 1));
                    k = k + 1;
                }
                assert(texts(more@).take(more.len() as int) =~= texts(more@));
            },
        }
        j = j + 1;
    }
    Ok(missing)
}

/// A mod's installed version and the version of its latest release.
#[derive(Debug)]
pub struct ReleaseCheck {
    /// The mod's name.
    pub name: String,
    /// The installed version.
    pub own_version: HumanVersion,
    /// The latest release's version.
    pub latest_version: HumanVersion,
}

/// The names of the mods whose latest release is newer than the installed version, in order.
pub open spec fn outdated_upto(mods: Seq<ReleaseCheck>, n: int) -> Seq<Seq<char>>
    decreases n,
{
    if n <= 0 {
        Seq::empty()
    } else {
        let m = outdated_upto(mods, n - 1);
        if version_lt(mods[n - 1].own_version, mods[n - 1].latest_version) {
            m.push(mods[n - 1].name@)
        } else {
            m
        }
    }
}

/// The names of the mods whose latest release is newer than the installed version, in order:
/// the mods to update.
pub fn find_updates(mods: &Vec<ReleaseCheck>) -> (r: Vec<String>)
    ensures
        texts(r@) == outdated_upto(mods@, mods@.len() as int),
{
    let mut out: Vec<String> = Vec::new();
    let mut j: usize = 0;
    while j < mods.len()
        invariant
            j <= mods.len(),
            texts(out@) == outdated_upto(mods@, j as int),
        decreases mods.len() - j,
    {
        if mods[j].own_version.is_older_than(&mods[j].latest_version) {
            let ghost before = out@;
            out.push(mods[j].name.clone());
            assert(texts(out@) =~= texts(before).push(mods@[j as int].name@));
        }
        j = j + 1;
    }
    out
}

/// A batch of mods whose portal information is fetched at once.
pub struct UpdateBatcher {
    names: StringHashMap<()>,
}

impl View for UpdateBatcher {
    type V = Set<Seq<char>>;

    closed spec fn view(&self) -> Set<Seq<char>> {
        self.names@.dom()
    }
}

/// The first name in a list that is not in a set, if any.
pub open spec fn first_unknown_upto(names: Seq<Seq<char>>, known: Set<Seq<char>>, n: int) -> Option<
    Seq<char>,
>
    decreases n,
{
    if n <= 0 {
        None
    } else {
        match first_unknown_upto(names, known, n - 1) {
            Some(x) => Some(x),
            None => if known.contains(names[n - 1]) {
                None
            } else {
                Some(names[n - 1])
            },
        }
    }
}

/// Once an unknown name is found, it stays the first one.
proof fn lemma_unknown_stays(names: Seq<Seq<char>>, known: Set<Seq<char>>, m: int, n: int)
    requires
        0 <= m <= n,
        first_unknown_upto(names, known, m) is Some,
    ensures
        first_unknown_upto(names, known, n) == first_unknown_upto(names, known, m),
    decreases n,
{
    if n > m {
        lemma_unknown_stays(names, known, m, n - 1);
    }
}

impl UpdateBatcher {
    /// An empty batch.
    pub fn new() -> (r: Self)
        ensures
            r@ == Set::<Seq<char>>::empty(),
    {
        let r = UpdateBatcher { names: StringHashMap::new() };
        assert(r@ =~= Set::<Seq<char>>::empty());
        r
    }

    /// Adds a mod to the batch.
    pub fn add_mod(&mut self, name: String)
        ensures
            final(self)@ == old(self)@.insert(name@),
    {
        self.names.insert(name, ());
        assert(self@ =~= old(self)@.insert(name@));
    }

    /// Checks the names of the mods that the portal returned for the batch: fails with
    /// `UnknownModName` on the first one that was not asked for.
    pub fn check_returned(&self, returned: &Vec<String>) -> (r: Result<(), UpdateBatcherError>)
        ensures
            match first_unknown_upto(texts(returned@), self@, returned@.len() as int) {
                None => r is Ok,
                Some(x) => r matches Err(UpdateBatcherError::UnknownModName(m)) && m@ == x,
            },
    {
        let mut j: usize = 0;
        while j < returned.len()
            invariant
                j <= returned.len(),
                first_unknown_upto(texts(returned@), self@, j as int) is None,
            decreases returned.len() - j,
        {
            assert(texts(returned@)[j as int] == returned@[j as int]@);
            if !self.names.contains_key(returned[j].as_str()) {
                proof {
                    lemma_unknown_stays(texts(returned@), self@, j + 1, returned@.len() as int);
                }
                return Err(UpdateBatcherError::UnknownModName(returned[j].clone()));
            }
            j = j + 1;
        }
        Ok(())
    }
}

/// A built mod's name and installed version.
#[derive(Debug)]
pub struct ModVersion {
    /// The mod's name.
    pub name: String,
    /// The installed version.
    pub version: HumanVersion,
}

/// Which of the first `n` mods are kept, by name: the first mod of each name, replaced by each
/// later one of the same name whose version is newer than the kept one's.
pub open spec fn newest_upto(mods: Seq<ModVersion>, n: int) -> Map<Seq<char>, usize>
    decreases n,
{
    if n <= 0 {
        Map::empty()
    } else {
        let m = newest_upto(mods, n - 1);
        let name = mods[n - 1].name@;
        if m.contains_key(name) && !version_lt(mods[m[name] as int].version, mods[n - 1].version) {
            m
        } else {
            m.insert(name, (n - 1) as usize)
        }
    }
}

/// Which of the built mods are kept, by name (the index of each kept mod): of the mods that
/// share a name, the first of the newest version.
pub fn newest_mods(mods: &Vec<ModVersion>) -> (r: StringHashMap<usize>)
    ensures
        r@ == newest_upto(mods@, mods@.len() as int),
{
    let mut kept: StringHashMap<usize> = StringHashMap::new();
    let mut j: usize = 0;
    assert(kept@ =~= newest_upto(mods@, 0));
    while j < mods.len()
        invariant
            j <= mods.len(),
            kept@ == newest_upto(mods@, j as int),
            forall|k: Seq<char>| #[trigger] kept@.contains_key(k) ==> kept@[k] < j,
        decreases mods.len() - j,
    {
        let name = mods[j].name.as_str();
        let replace = match kept.get(name) {
            Some(i) => mods[*i].version.is_older_than(&mods[j].version),
            None => true,
        };
        if replace {
            kept.insert(mods[j].name.clone(), j);
        }
        j = j + 1;
    }
    kept
}

/// Every built mod's name is kept, by a mod of that name whose version is not older than any
/// other mod's of the name.
pub proof fn law_newest_kept(mods: Seq<ModVersion>, n: int)
    requires
        0 <= n <= mods.len(),
        mods.len() <= usize::MAX,
    ensures
        forall|i: int|
            0 <= i < n ==> {
                let m = newest_upto(mods, n);
                let name = #[trigger] mods[i].name@;
                &&& m.contains_key(name)
                &&& m[name] < n
                &&& mods[m[name] as int].name@ == name
                &&& !version_lt(mods[m[name] as int].version, mods[i].version)
            },
        forall|k: Seq<char>|
            #[trigger] newest_upto(mods, n).contains_key(k) ==> newest_upto(mods, n)[k] < n
                && mods[newest_upto(mods, n)[k] as int].name@ == k,
    decreases n,
{
    if n > 0 {
        law_newest_kept(mods, n - 1);
        let m0 = newest_upto(mods, n - 1);
        let m = newest_upto(mods, n);
        let name = mods[n - 1].name@;
        let last = mods[n - 1].version;
        let keep = m0.contains_key(name) && !version_lt(mods[m0[name] as int].version, last);
        assert((n - 1) as usize == n - 1);
        assert forall|k: Seq<char>| #[trigger] m.contains_key(k) implies m[k] < n && mods[m[k] as int].name@
            == k by {
            assert(m0.contains_key(k) ==> m0[k] < n - 1 && mods[m0[k] as int].name@ == k);
            if !keep && k == name {
                assert(m[k] == (n - 1) as usize);
            }
        }
        assert forall|i: int| 0 <= i < n implies {
            let nm = #[trigger] mods[i].name@;
            &&& m.contains_key(nm)
            &&& m[nm] < n
            &&& mods[m[nm] as int].name@ == nm
            &&& !version_lt(mods[m[nm] as int].version, mods[i].version)
        } by {
            let nm = mods[i].name@;
            if i < n - 1 {
                assert(m0.contains_key(nm));
                assert(m0[nm] < n - 1);
                assert(mods[m0[nm] as int].name@ == nm);
                assert(!version_lt(mods[m0[nm] as int].version, mods[i].version));
            }
            if keep {
                assert(m == m0);
                if i == n - 1 {
                    assert(nm == name);
                }
                assert(m.contains_key(nm));
                assert(m[nm] < n);
                assert(mods[m[nm] as int].name@ == nm);
                assert(!version_lt(mods[m[nm] as int].version, mods[i].version));
            } else {
                assert(m == m0.insert(name, (n - 1) as usize));
                if nm != name {
                    assert(m[nm] == m0[nm]);
                } else {
                    assert(m[nm] == (n - 1) as usize);
                    if i < n - 1 {
                        let a = mods[m0[nm] as int].version;
                        assert(m0.contains_key(nm));
                        assert(version_lt(a, last));
                        assert(!version_lt(a, mods[i].version));
                    }
                }
                assert(m.contains_key(nm));
                assert(m[nm] < n);
                assert(mods[m[nm] as int].name@ == nm);
                assert(!version_lt(mods[m[nm] as int].version, mods[i].version));
            }
        }
    }
}

/// Whether a list of zip archives repeats one, and the first repeated one.
pub open spec fn first_repeat_upto(zips: Seq<Seq<char>>, n: int) -> Option<Seq<char>>
    decreases n,
{
    if n <= 0 {
        None
    } else {
        match first_repeat_upto(zips, n - 1) {
            Some(z) => Some(z),
            None => if zips.take(n - 1).contains(zips[n - 1]) {
                Some(zips[n - 1])
            } else {
                None
            },
        }
    }
}

/// The zip archives of the mods loaded from the store, as a set; fails with `DuplicateMod` on the
/// first archive that two mods share.
pub fn stored_zips(zips: &Vec<String>) -> (r: Result<StringHashMap<()>, ModError>)
    ensures
        match first_repeat_upto(texts(zips@), zips@.len() as int) {
            None => r matches Ok(set) && forall|x: Seq<char>|
                #[trigger] set@.contains_key(x) <==> texts(zips@).contains(x),
            Some(z) => r matches Err(ModError::DuplicateMod(m)) && m@ == z,
        },
{
    let ghost t = texts(zips@);
    let mut set: StringHashMap<()> = StringHashMap::new();
    let mut j: usize = 0;
    while j < zips.len()
        invariant
            j <= zips.len(),
            t == texts(zips@),
            first_repeat_upto(t, j as int) is None,
            forall|x: Seq<char>| #[trigger] set@.contains_key(x) <==> t.take(j as int).contains(x),
        decreases zips.len() - j,
    {
        let ghost before = t.take(j as int);
        let ghost after = t.take(j + 1);
        assert(t[j as int] == zips@[j as int]@);
        assert(after =~= before.push(t[j as int]));
        if set.contains_key(zips[j].as_str()) {
            proof {
                lemma_repeat_stays(t, j + 1, t.len() as int);
            }
            return Err(ModError::DuplicateMod(zips[j].clone()));
        }
        let ghost old_set = set@;
        set.insert(zips[j].clone(), ());
        assert forall|x: Seq<char>| #[trigger] set@.contains_key(x) <==> after.contains(x) by {
            assert(old_set.contains_key(x) <==> before.contains(x));
            assert(set@.contains_key(x) <==> (old_set.contains_key(x) || x == t[j as int]));
            assert(after[j as int] == t[j as int]);
            if after.contains(x) {
                let w = choose|w: int| 0 <= w < after.len() && #[trigger] after[w] == x;
                if w < j {
                    assert(before[w] == x);
                }
            }
            if before.contains(x) {
                let w = choose|w: int| 0 <= w < before.len() && #[trigger] before[w] == x;
                assert(after[w] == x);
            }
        }
        j = j + 1;
    }
    assert(t.take(zips.len() as int) =~= t);
    Ok(set)
}

/// Once a repeat is found, it stays the first one.
proof fn lemma_repeat_stays(zips: Seq<Seq<char>>, m: int, n: int)
    requires
        0 <= m <= n,
        first_repeat_upto(zips, m) is Some,
    ensures
        first_repeat_upto(zips, n) == first_repeat_upto(zips, m),
    decreases n,
{
    if n > m {
        lemma_repeat_stays(zips, m, n - 1);
    }
}

/// The indices of the zip archives in a mods directory that no stored mod uses, in order: the
/// mods to load from their archives.
pub fn unstored_zips(stored: &StringHashMap<()>, entries: &Vec<String>) -> (r: Vec<usize>)
    ensures
        r@.len() <= entries@.len(),
        forall|k: int| 0 <= k < r@.len() ==> r@[k] < entries@.len(),
        forall|k: int, l: int| 0 <= k < l < r@.len() ==> r@[k] < r@[l],
        forall|i: int|
            0 <= i < entries@.len() ==> (r@.contains(i as usize) <==> !stored@.contains_key(
                #[trigger] entries@[i]@,
            )),
{
    let mut out: Vec<usize> = Vec::new();
    let mut j: usize = 0;
    while j < entries.len()
        invariant
            j <= entries.len(),
            out@.len() <= j,
            forall|k: int| 0 <= k < out@.len() ==> out@[k] < j,
            forall|k: int, l: int| 0 <= k < l < out@.len() ==> out@[k] < out@[l],
            forall|i: int|
                0 <= i < j ==> (out@.contains(i as usize) <==> !stored@.contains_key(
                    #[trigger] entries@[i]@,
                )),
        decreases entries.len() - j,
    {
        if !stored.contains_key(entries[j].as_str()) {
            let ghost before = out@;
            out.push(j);
            assert forall|i: int| 0 <= i < j + 1 implies (out@.contains(i as usize)
                <==> !stored@.contains_key(#[trigger] entries@[i]@)) by {
                if i < j {
                    if before.contains(i as usize) {
                        let w = choose|w: int| 0 <= w < before.len() && before[w] == i as usize;
                        assert(out@[w] == i as usize);
                    }
                    if out@.contains(i as usize) {
                        let w = choose|w: int| 0 <= w < out@.len() && out@[w] == i as usize;
                        assert(w < before.len());
                        assert(before[w] == i as usize);
                    }
                } else {
                    assert(out@[before.len() as int] == j);
                }
            }
        } else {
            assert forall|i: int| 0 <= i < j + 1 implies (out@.contains(i as usize)
                <==> !stored@.contains_key(#[trigger] entries@[i]@)) by {
                if i == j {
                    if out@.contains(i as usize) {
                        let w = choose|w: int| 0 <= w < out@.len() && out@[w] == i as usize;
                    }
                }
            }
        }
        j = j + 1;
    }
    out
}

/// Where a mod is added from.
#[derive(Debug)]
pub enum ModSource {
    /// The mod portal: the mod's name and the version wanted, else the latest.
    Portal { name: String, version: Option<HumanVersion> },
    /// A zip archive at a path.
    Zip { path: String },
}

/// The latest release of a mod on the portal: its version and when it was released, in
/// milliseconds since the Unix epoch.
#[derive(Clone, Copy, Debug)]
pub struct LatestRelease {
    /// The release's version.
    pub version: HumanVersion,
    /// When the release was released.
    pub released_on: i64,
}

/// An installed mod and its latest release, when the portal could tell it.
#[derive(Debug)]
pub struct UpdateCandidate {
    /// The mod's name.
    pub name: String,
    /// The mod's title.
    pub title: String,
    /// The installed version.
    pub current_version: HumanVersion,
    /// The latest release, if the portal could tell it.
    pub latest: Option<LatestRelease>,
}

/// An update of a mod: a newer release than the installed version.
#[derive(Debug)]
pub struct ModUpdate {
    /// The mod's name.
    pub name: String,
    /// The mod's title.
    pub title: String,
    /// The installed version.
    pub current_version: HumanVersion,
    /// The newer release's version.
    pub new_version: HumanVersion,
    /// When the newer release was released.
    pub released_on: i64,
}

/// Whether a candidate has an update: its latest release is known and newer.
pub open spec fn has_update(c: UpdateCandidate) -> bool {
    c.latest matches Some(l) && version_lt(c.current_version, l.version)
}

/// The indices of the candidates with updates among the first `n`, in order.
pub open spec fn updates_upto(cands: Seq<UpdateCandidate>, n: int) -> Seq<int>
    decreases n,
{
    if n <= 0 {
        Seq::empty()
    } else if has_update(cands[n - 1]) {
        updates_upto(cands, n - 1).push(n - 1)
    } else {
        updates_upto(cands, n - 1)
    }
}

/// Whether an update is the one of a candidate.
pub open spec fn update_of(u: ModUpdate, c: UpdateCandidate) -> bool {
    &&& u.name@ == c.name@
    &&& u.title@ == c.title@
    &&& u.current_version == c.current_version
    &&& c.latest matches Some(l) && u.new_version == l.version && u.released_on == l.released_on
}

/// Whether the portal told the latest release of every candidate.
pub open spec fn all_releases_known(cands: Seq<UpdateCandidate>) -> bool {
    forall|k: int| 0 <= k < cands.len() ==> (#[trigger] cands[k]).latest is Some
}

/// The updates of the mods whose latest release is newer than the installed version, in order.
/// Fails with `NoReleases` when the latest release of some mod is not known.
pub fn check_updates(candidates: &Vec<UpdateCandidate>) -> (r: Result<Vec<ModUpdate>, ModError>)
    ensures
        !all_releases_known(candidates@) ==> r matches Err(ModError::NoReleases),
        all_releases_known(candidates@) ==> (r matches Ok(v) && v@.len() == updates_upto(
            candidates@,
            candidates@.len() as int,
        ).len() && forall|k: int|
            0 <= k < v@.len() ==> update_of(
                #[trigger] v@[k],
                candidates@[updates_upto(candidates@, candidates@.len() as int)[k]],
            )),
{
    let mut out: Vec<ModUpdate> = Vec::new();
    let mut j: usize = 0;
    while j < candidates.len()
        invariant
            j <= candidates.len(),
            forall|k: int| 0 <= k < j ==> (#[trigger] candidates@[k]).latest is Some,
            out@.len() == updates_upto(candidates@, j as int).len(),
            forall|k: int|
                0 <= k < out@.len() ==> update_of(
                    #[trigger] out@[k],
                    candidates@[updates_upto(candidates@, j as int)[k]],
                ),
        decreases candidates.len() - j,
    {
        let c = &candidates[j];
        match c.latest {
            Some(l) => if c.current_version.is_older_than(&l.version) {
                let ghost before = out@;
                out.push(
                    ModUpdate {
                        name: c.name.clone(),
                        title: c.title.clone(),
                        current_version: c.current_version,
                        new_version: l.version,
                        released_on: l.released_on,
                    },
                );
                assert forall|k: int| 0 <= k < out@.len() implies update_of(
                    #[trigger] out@[k],
                    candidates@[updates_upto(candidates@, j + 1)[k]],
                ) by {
                    if k < before.len() {
                        assert(out@[k] == before[k]);
                    }
                }
            },
            None => {
                return Err(ModError::NoReleases);
            },
        }
        j = j + 1;
    }
    Ok(out)
}

/// Where a game's mods are built from.
#[derive(Clone, Copy, Debug, PartialEq, Eq, Structural)]
pub enum ModsOrigin {
    /// The program store's record of the stored game with this ID, then the archives it lacks.
    Store(i64),
    /// The zip archives in the mods directory.
    Filesystem,
}

/// A builder of a game's mods from its mods directory.
#[derive(Debug)]
pub struct ModsBuilder {
    /// The mods directory.
    pub directory: String,
    /// The store ID of the game the mods belong to, if it is stored.
    pub game_store_id: Option<i64>,
}

impl ModsBuilder {
    /// A builder of the mods in a directory, of a game that is not stored.
    pub fn root(directory: String) -> (r: Self)
        ensures
            r.directory@ == directory@,
            r.game_store_id is None,
    {
        ModsBuilder { directory, game_store_id: None }
    }

    /// This builder for the stored game with an ID.
    pub fn with_game_store_id(self, game_store_id: i64) -> (r: Self)
        ensures
            r.directory@ == self.directory@,
            r.game_store_id == Some(game_store_id),
    {
        ModsBuilder { game_store_id: Some(game_store_id), ..self }
    }

    /// Where the mods are built from: the store for a stored game, else the directory's archives.
    pub fn origin(&self) -> (r: ModsOrigin)
        ensures
            self.game_store_id matches Some(id) ==> r == ModsOrigin::Store(id),
            self.game_store_id is None ==> r == ModsOrigin::Filesystem,
    {
        match self.game_store_id {
            Some(id) => ModsOrigin::Store(id),
            None => ModsOrigin::Filesystem,
        }
    }
}

} // verus!
