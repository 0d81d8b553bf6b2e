use modtorio::mods::{ModsBuilder, ModsOrigin};
use modtorio::dependency::{Dependency, Requirement};
use modtorio::error::{DependencyParsingError, HumanVersionError, ModError, UpdateBatcherError};
use modtorio::mod_list::{ModList, ModListMod};
use modtorio::mods::{
    check_updates, ensure_dependencies, ensure_single_dependencies, find_updates, installed_versions, newest_mods,
    stored_zips,
    unstored_zips, LatestRelease, ModDependencies, ModVersion, ReleaseCheck, UpdateBatcher, UpdateCandidate,
};
use modtorio::version::{HumanVersion, HumanVersionReq, VersionComparator};
use regex::Regex;

fn dep(s: &str) -> Dependency {
    Dependency::from_str(s).expect("dependency failed to parse")
}

#[test]
fn dependency_strings() {
    let d = dep("? some-mod >= 1.2.3");
    assert_eq!(d.requirement, Requirement::Optional);
    assert_eq!(d.name, "some-mod");
    assert_eq!(
        d.version,
        Some(HumanVersionReq { comparator: VersionComparator::GreaterOrEqual, version: HumanVersion::new(1, 2, 3) })
    );
    let d = dep("base");
    assert_eq!(d.requirement, Requirement::Mandatory);
    assert_eq!(d.name, "base");
    assert_eq!(d.version, None);
    let d = dep("! bad");
    assert_eq!(d.requirement, Requirement::Incompatible);
    assert_eq!(d.name, "bad");
    let d = dep("(?)hidden < 0.1.0");
    assert_eq!(d.requirement, Requirement::OptionalHidden);
    assert_eq!(d.name, "hidden");
    assert_eq!(d.version.map(|v| v.comparator), Some(VersionComparator::Less));
}

#[test]
fn dependency_version_errors() {
    match Dependency::from_str("mod 1.0.0") {
        Err(DependencyParsingError::InvalidVersionRequirementString(HumanVersionError::MissingComparator(s))) => {
            assert_eq!(s, "1.0.0")
        }
        other => panic!("unexpected result {:?}", other),
    }
    match Dependency::from_str("mod >= 1.0") {
        Err(DependencyParsingError::InvalidVersionRequirementString(HumanVersionError::MissingComponent)) => {}
        other => panic!("unexpected result {:?}", other),
    }
}

#[test]
fn dependency_grammar_agrees_with_regex() {
    let re = Regex::new(r"(\?|!|\(\?\))? ?(\S*) ?(.+)?").expect("bad pattern");
    let lines = ["? a >= 1.0.0", "b", "! c", "(?) d = 0.1.0", "e  >= 1.0.0", "?f", "", " g"];
    for line in lines.iter() {
        let caps = re.captures(line).expect("always matches");
        let name = caps.get(2).map(|m| m.as_str()).unwrap_or("");
        let version = caps.get(3).map(|m| m.as_str());
        match Dependency::from_str(line) {
            Ok(d) => {
                assert_eq!(d.name, name, "line {:?}", line);
                assert_eq!(d.version.is_some(), version.is_some(), "line {:?}", line);
            }
            Err(DependencyParsingError::InvalidVersionRequirementString(_)) => {
                assert!(version.is_some(), "line {:?}", line)
            }
            Err(e) => panic!("line {:?}: {:?}", line, e),
        }
    }
}

fn entries(list: &[(&str, Option<HumanVersion>)]) -> Vec<(String, Option<HumanVersion>)> {
    list.iter().map(|(n, v)| (n.to_string(), *v)).collect()
}

#[test]
fn missing_dependencies() {
    let deps = vec![dep("base"), dep("a >= 1.0.0"), dep("b"), dep("? c"), dep("d")];
    let inst = installed_versions(entries(&[("a", Some(HumanVersion::new(0, 9, 0))), ("d", Some(HumanVersion::new(1, 0, 0)))]));
    let missing = ensure_single_dependencies("Target", &deps, &inst).expect("no failure");
    assert_eq!(missing, vec![String::from("a"), String::from("b")]);
}

#[test]
fn incompatible_dependency_fails() {
    let deps = vec![dep("a"), dep("! d")];
    let inst = installed_versions(entries(&[("d", Some(HumanVersion::new(1, 0, 0)))]));
    match ensure_single_dependencies("Target 1.0.0", &deps, &inst) {
        Err(ModError::CannotEnsureDependency { dependency, mod_display }) => {
            assert_eq!(dependency.name, "d");
            assert_eq!(dependency.requirement, Requirement::Incompatible);
            assert_eq!(mod_display, "Target 1.0.0");
        }
        other => panic!("unexpected result {:?}", other),
    }
    let inst = installed_versions(entries(&[("a", None)]));
    match ensure_single_dependencies("T", &vec![dep("a >= 1.0.0")], &inst) {
        Err(ModError::MissingInfo) => {}
        other => panic!("unexpected result {:?}", other),
    }
}

#[test]
fn missing_dependencies_of_all_mods() {
    let mods = vec![
        ModDependencies { display: String::from("one"), dependencies: vec![dep("x"), dep("y")] },
        ModDependencies { display: String::from("two"), dependencies: vec![dep("z"), dep("? w")] },
    ];
    let inst = installed_versions(entries(&[("y", Some(HumanVersion::new(1, 0, 0)))]));
    let missing = ensure_dependencies(&mods, &inst).expect("no failure");
    assert_eq!(missing, vec![String::from("x"), String::from("z")]);
}

#[test]
fn updates_found() {
    let mods = vec![
        ReleaseCheck { name: String::from("a"), own_version: HumanVersion::new(1, 0, 0), latest_version: HumanVersion::new(1, 0, 1) },
        ReleaseCheck { name: String::from("b"), own_version: HumanVersion::new(2, 0, 0), latest_version: HumanVersion::new(1, 9, 9) },
        ReleaseCheck { name: String::from("c"), own_version: HumanVersion::new(0, 1, 0), latest_version: HumanVersion::new(0, 1, 0) },
    ];
    assert_eq!(find_updates(&mods), vec![String::from("a")]);
    let candidates = vec![
        UpdateCandidate {
            name: String::from("a"),
            title: String::from("A"),
            current_version: HumanVersion::new(1, 0, 0),
            latest: Some(LatestRelease { version: HumanVersion::new(1, 1, 0), released_on: 99 }),
        },
        UpdateCandidate {
            name: String::from("b"),
            title: String::from("B"),
            current_version: HumanVersion::new(1, 0, 0),
            latest: Some(LatestRelease { version: HumanVersion::new(1, 0, 0), released_on: 5 }),
        },
    ];
    let updates = check_updates(&candidates).expect("every release is known");
    assert_eq!(updates.len(), 1);
    assert_eq!(updates[0].name, "a");
    assert_eq!(updates[0].new_version, HumanVersion::new(1, 1, 0));
    assert_eq!(updates[0].released_on, 99);
    let mut unknown = candidates;
    unknown.push(UpdateCandidate {
        name: String::from("c"),
        title: String::from("C"),
        current_version: HumanVersion::new(1, 0, 0),
        latest: None,
    });
    assert!(matches!(check_updates(&unknown), Err(ModError::NoReleases)));
}

#[test]
fn newest_of_duplicate_mods_is_kept() {
    let mods = vec![
        ModVersion { name: String::from("a"), version: HumanVersion::new(1, 0, 0) },
        ModVersion { name: String::from("b"), version: HumanVersion::new(1, 0, 0) },
        ModVersion { name: String::from("a"), version: HumanVersion::new(1, 2, 0) },
        ModVersion { name: String::from("a"), version: HumanVersion::new(1, 1, 0) },
        ModVersion { name: String::from("b"), version: HumanVersion::new(1, 0, 0) },
    ];
    let kept = newest_mods(&mods);
    assert_eq!(kept.len(), 2);
    assert_eq!(kept.get("a"), Some(&2));
    assert_eq!(kept.get("b"), Some(&1));
}

#[test]
fn stored_zip_names() {
    let zips = vec![String::from("a_1.0.0.zip"), String::from("b_1.0.0.zip")];
    let set = stored_zips(&zips).expect("no duplicates");
    let entries = vec![String::from("c_1.0.0.zip"), String::from("a_1.0.0.zip"), String::from("d.zip")];
    assert_eq!(unstored_zips(&set, &entries), vec![0, 2]);
    let dup = vec![String::from("a.zip"), String::from("b.zip"), String::from("a.zip")];
    match stored_zips(&dup) {
        Err(ModError::DuplicateMod(z)) => assert_eq!(z, "a.zip"),
        other => panic!("unexpected result {:?}", other.map(|_| ())),
    }
}

#[test]
fn update_batcher_names() {
    let mut batch = UpdateBatcher::new();
    batch.add_mod(String::from("a"));
    batch.add_mod(String::from("b"));
    assert!(batch.check_returned(&vec![String::from("b"), String::from("a")]).is_ok());
    match batch.check_returned(&vec![String::from("a"), String::from("z"), String::from("y")]) {
        Err(UpdateBatcherError::UnknownModName(n)) => assert_eq!(n, "z"),
        other => panic!("unexpected result {:?}", other),
    }
}

fn list(entries: &[(&str, bool)]) -> ModList {
    ModList::new(entries.iter().map(|(n, e)| ModListMod { name: n.to_string(), enabled: *e }).collect())
}

#[test]
fn mod_list_enabled() {
    let mut l = list(&[("base", true), ("a", false), ("a", true)]);
    assert!(l.get_mod_enabled("base"));
    assert!(!l.get_mod_enabled("a"));
    assert!(!l.get_mod_enabled("missing"));
    l.set_mod_enabled("a", true).expect("set");
    assert!(l.get_mod_enabled("a"));
    l.set_mod_enabled("new", true).expect("set");
    assert!(l.get_mod_enabled("new"));
    assert_eq!(l.entries().len(), 4);
    l.set_mod_enabled("base", true).expect("enabling base is fine");
    match l.set_mod_enabled("base", false) {
        Err(ModError::CannotDisableBaseMod) => {}
        other => panic!("unexpected result {:?}", other),
    }
    let status = l.get_mods_enabled_status();
    assert_eq!(status.len(), 3);
    assert_eq!(status.get("a"), Some(&true));
    assert_eq!(status.get("new"), Some(&true));
}

#[test]
fn mods_enabled_status_takes_the_last_entry() {
    let l = list(&[("a", true), ("a", false)]);
    assert!(l.get_mod_enabled("a"));
    assert_eq!(l.get_mods_enabled_status().get("a"), Some(&false));
}

#[test]
fn dependency_and_version_texts() {
    assert_eq!(dep("? a >= 1.2.3").to_string(), "? a >= 1.2.3");
    assert_eq!(dep("(?)b").to_string(), "(?)b");
    assert_eq!(dep("! c = 0.1.0").to_string(), "! c = 0.1.0");
    assert_eq!(dep("d < 10.0.0").to_string(), "d < 10.0.0");
    let text = dep("? e >= 1.0.0").to_string();
    let again = dep(&text);
    assert_eq!(again.name, "e");
    assert_eq!(again.requirement, Requirement::Optional);
    let v = HumanVersion::new(0, 18, 47);
    assert_eq!(v.to_string(), "0.18.47");
    assert_eq!(HumanVersion::parse(&v.to_string()).unwrap(), v);
    let big = HumanVersion::new(u64::MAX, 0, 10);
    assert_eq!(HumanVersion::parse(&big.to_string()).unwrap(), big);
    let req = HumanVersionReq { comparator: VersionComparator::LessOrEqual, version: v };
    assert_eq!(req.to_string(), "<= 0.18.47");
    assert_eq!(HumanVersionReq::parse(&req.to_string()).unwrap(), req);
}

#[test]
fn mods_without_dependencies_depend_on_base() {
    let deps = modtorio::dependency::default_dependencies();
    assert_eq!(deps.len(), 1);
    assert_eq!(deps[0].name, "base");
    assert_eq!(deps[0].requirement, Requirement::Mandatory);
    assert_eq!(deps[0].version, None);
}

#[test]
fn mods_builder_origin() {
    let b = ModsBuilder::root(String::from("/srv/mods"));
    assert_eq!(b.origin(), ModsOrigin::Filesystem);
    let b = b.with_game_store_id(9);
    assert_eq!(b.directory, "/srv/mods");
    assert_eq!(b.origin(), ModsOrigin::Store(9));
}

#[test]
fn dependency_text_reads_back() {
    let req = HumanVersionReq { comparator: VersionComparator::Greater, version: HumanVersion::new(1, 2, 3) };
    let cases = vec![
        Dependency { requirement: Requirement::Mandatory, name: "base".to_string(), version: Some(req) },
        Dependency { requirement: Requirement::OptionalHidden, name: "x".to_string(), version: None },
        Dependency { requirement: Requirement::Incompatible, name: "y".to_string(), version: Some(req) },
        Dependency { requirement: Requirement::Optional, name: String::new(), version: Some(req) },
        Dependency { requirement: Requirement::Mandatory, name: String::new(), version: None },
    ];
    for d in cases {
        let again = Dependency::from_str(&d.to_string()).unwrap();
        assert_eq!(again.requirement, d.requirement);
        assert_eq!(again.name, d.name);
        assert_eq!(again.version, d.version);
    }
    let odd = Dependency { requirement: Requirement::Mandatory, name: "?x".to_string(), version: None };
    let again = Dependency::from_str(&odd.to_string()).unwrap();
    assert_eq!(again.requirement, Requirement::Optional);
    assert_eq!(again.name, "x");
}

#[test]
fn enabled_map_agrees_with_lookup_for_distinct_names() {
    let l = list(&[("base", true), ("a", false), ("b", true)]);
    let m = l.get_mods_enabled_status();
    assert_eq!(m.len(), 3);
    for name in ["base", "a", "b", "missing"].iter() {
        assert_eq!(m.get(*name).copied().unwrap_or(false), l.get_mod_enabled(name), "name {}", name);
    }
}
