//! A mod's dependency on another mod, as its `info.json` states it: `? name >= 1.0.0`.
use crate::error::{DependencyParsingError, DependencyParsingErrorView};
use crate::grammar::{
    alt, class_has, find, find_from, find_match, has_lit_at, is_white_space, lemma_run_end_at,
    match_from, pat_of, prepend_span, rep, try_alt, try_greedy, CharClass, Item, Pat,
};
use crate::text::{span_string, str_to_chars};
use crate::version::{
    law_req_text_roundtrip, lemma_req_text_shape, req_text, span_is, span_text, spec_parse_req,
    HumanVersionReq,
};
use vstd::prelude::*;
use vstd::string::StringExecFns;

verus! {

/// How a mod depends on another.
#[derive(Clone, Copy, Debug, PartialEq, Eq, Structural)]
pub enum Requirement {
    /// The other mod is required (no prefix).
    Mandatory,
    /// The other mod is optional (`?`).
    Optional,
    /// The other mod is optional and not shown (`(?)`).
    OptionalHidden,
    /// The other mod must not be installed (`!`).
    Incompatible,
}

/// A mod's dependency on another mod.
#[derive(Debug)]
pub struct Dependency {
    /// How the mod depends on the other.
    pub requirement: Requirement,
    /// The other mod's name.
    pub name: String,
    /// The versions of the other mod that meet the dependency, when restricted.
    pub version: Option<HumanVersionReq>,
}

/// The meaning of a [`Dependency`].
pub struct DependencyView {
    pub requirement: Requirement,
    pub name: Seq<char>,
    pub version: Option<HumanVersionReq>,
}

impl View for Dependency {
    type V = DependencyView;

    open spec fn view(&self) -> DependencyView {
        DependencyView { requirement: self.requirement, name: self.name@, version: self.version }
    }
}

/// The grammar of a dependency: an optional requirement prefix, an optional space, the name (a
/// run of characters other than white space), an optional space and an optional version
/// requirement (the rest of the line).
pub open spec fn dependency_pattern() -> Seq<Pat> {
    seq![
        Pat::Alt { options: seq!["?"@, "!"@, "(?)"@], optional: true },
        Pat::Alt { options: seq![" "@], optional: true },
        Pat::Rep { class: CharClass::NonSpace, min: 0, lazy: false, optional: false },
        Pat::Alt { options: seq![" "@], optional: true },
        Pat::Rep { class: CharClass::NotNewline, min: 1, lazy: false, optional: true },
    ]
}

/// The requirement that a prefix denotes, if any: none is mandatory.
pub open spec fn requirement_of(prefix: Seq<char>) -> Option<Requirement> {
    if prefix.len() == 0 {
        Some(Requirement::Mandatory)
    } else if prefix == "?"@ {
        Some(Requirement::Optional)
    } else if prefix == "!"@ {
        Some(Requirement::Incompatible)
    } else if prefix == "(?)"@ {
        Some(Requirement::OptionalHidden)
    } else {
        None
    }
}

/// The dependency that a string denotes, or why it denotes none.
pub open spec fn spec_parse_dependency(s: Seq<char>) -> Result<DependencyView, DependencyParsingErrorView> {
    match find(dependency_pattern(), s) {
        None => Err(DependencyParsingErrorView::NoRegexCaptures(s)),
        Some(sp) => {
            let prefix = span_text(s, sp, 0);
            let name = span_text(s, sp, 2);
            let ver = span_text(s, sp, 4);
            match requirement_of(prefix) {
                None => Err(DependencyParsingErrorView::InvalidRequirementString(prefix)),
                Some(requirement) => if ver.len() == 0 {
                    Ok(DependencyView { requirement, name, version: None })
                } else {
                    match spec_parse_req(ver) {
                        Err(e) => Err(DependencyParsingErrorView::InvalidVersionRequirementString(e)),
                        Ok(req) => Ok(DependencyView { requirement, name, version: Some(req) }),
                    }
                },
            }
        },
    }
}

/// The text of a requirement's prefix: `? `, `! `, `(?)`, or nothing for a mandatory one.
pub open spec fn prefix_text(r: Requirement) -> Seq<char> {
    match r {
        Requirement::Mandatory => Seq::empty(),
        Requirement::Optional => "? "@,
        Requirement::Incompatible => "! "@,
        Requirement::OptionalHidden => "(?)"@,
    }
}

/// The text of a dependency: its prefix, its name and, when restricted, a space and its version
/// requirement.
pub open spec fn dependency_text(d: DependencyView) -> Seq<char> {
    prefix_text(d.requirement) + d.name + match d.version {
        Some(req) => seq![' '] + req_text(req),
        None => Seq::empty(),
    }
}

/// No prefix makes a dependency mandatory, `?` optional, `(?)` optional and hidden, and `!`
/// incompatible; each requirement is written with its prefix (and a space after `?` and `!`),
/// and no other prefix stands for a requirement.
pub proof fn law_requirement_prefixes(p: Seq<char>)
    ensures
        requirement_of(Seq::empty()) == Some(Requirement::Mandatory),
        requirement_of("?"@) == Some(Requirement::Optional),
        requirement_of("(?)"@) == Some(Requirement::OptionalHidden),
        requirement_of("!"@) == Some(Requirement::Incompatible),
        prefix_text(Requirement::Mandatory) == Seq::<char>::empty(),
        prefix_text(Requirement::Optional) == "? "@,
        prefix_text(Requirement::OptionalHidden) == "(?)"@,
        prefix_text(Requirement::Incompatible) == "! "@,
        requirement_of(p) is Some ==> p.len() == 0 || p == "?"@ || p == "(?)"@ || p == "!"@,
{
    reveal_strlit("?");
    reveal_strlit("!");
    reveal_strlit("(?)");
    assert("?"@.len() == 1 && "?"@[0] == '?');
    assert("!"@.len() == 1 && "!"@[0] == '!');
    assert("(?)"@.len() == 3);
}

/// Whether a name begins with the text of a requirement prefix.
pub open spec fn starts_with_prefix(name: Seq<char>) -> bool {
    has_lit_at(name, 0, "?"@) || has_lit_at(name, 0, "!"@) || has_lit_at(name, 0, "(?)"@)
}

/// The spans of the name, the space and the version requirement in the text `s` of a
/// dependency whose name starts at `a`.
pub open spec fn tail_spans(d: DependencyView, s: Seq<char>, a: int) -> Seq<(usize, usize)> {
    let e = a + d.name.len();
    let n = s.len() as int;
    match d.version {
        Some(_) => seq![
            (a as usize, e as usize),
            (e as usize, (e + 1) as usize),
            ((e + 1) as usize, n as usize),
        ],
        None => seq![(a as usize, n as usize), (n as usize, n as usize), (n as usize, n as usize)],
    }
}

/// From the name on, the grammar reads the name, the space and the version requirement.
proof fn lemma_dependency_tail(d: DependencyView)
    requires
        dependency_text(d).len() <= usize::MAX,
        forall|k: int| 0 <= k < d.name.len() ==> !is_white_space(#[trigger] d.name[k]),
    ensures
        match_from(
            dependency_pattern(),
            dependency_text(d),
            2,
            prefix_text(d.requirement).len() as int,
        ) == Some(
            tail_spans(d, dependency_text(d), prefix_text(d.requirement).len() as int),
        ),
{
    let p = dependency_pattern();
    let s = dependency_text(d);
    let a = prefix_text(d.requirement).len() as int;
    let e = a + d.name.len();
    let n = s.len() as int;
    reveal_strlit(" ");
    assert forall|k: int| a <= k < e implies class_has(CharClass::NonSpace, #[trigger] s[k]) by {
        assert(s[k] == d.name[k - a]);
    }
    assert(match_from(p, s, 5, n) == Some(Seq::<(usize, usize)>::empty()));
    match d.version {
        Some(req) => {
            let rt = req_text(req);
            lemma_req_text_shape(req);
            assert(s[e] == ' ');
            lemma_run_end_at(s, CharClass::NonSpace, a, e);
            assert forall|k: int| e + 1 <= k < n implies class_has(
                CharClass::NotNewline,
                #[trigger] s[k],
            ) by {
                assert(s[k] == rt[k - e - 1]);
            }
            lemma_run_end_at(s, CharClass::NotNewline, e + 1, n);
            assert(try_greedy(p, s, 4, e + 1, n, e + 2) == Some(seq![((e + 1) as usize, n as usize)]));
            assert(match_from(p, s, 4, e + 1) == Some(seq![((e + 1) as usize, n as usize)]));
            assert(has_lit_at(s, e, " "@)) by {
                assert(s.subrange(e, e + 1) =~= " "@);
            }
            assert(try_alt(p, s, 3, e, 0) == prepend_span(e, e + 1, match_from(p, s, 4, e + 1)));
            assert(match_from(p, s, 3, e) == Some(
                seq![(e as usize, (e + 1) as usize), ((e + 1) as usize, n as usize)],
            ));
            assert(try_greedy(p, s, 2, a, e, a) == Some(
                seq![(a as usize, e as usize)] + seq![
                    (e as usize, (e + 1) as usize),
                    ((e + 1) as usize, n as usize),
                ],
            ));
        },
        None => {
            assert(e == n);
            lemma_run_end_at(s, CharClass::NonSpace, a, e);
            lemma_run_end_at(s, CharClass::NotNewline, n, n);
            assert(try_greedy(p, s, 4, n, n, n + 1) is None);
            assert(match_from(p, s, 4, n) == Some(seq![(n as usize, n as usize)]));
            assert(!has_lit_at(s, n, " "@));
            assert(try_alt(p, s, 3, n, 1) is None);
            assert(try_alt(p, s, 3, n, 0) is None);
            assert(match_from(p, s, 3, n) == Some(
                seq![(n as usize, n as usize), (n as usize, n as usize)],
            ));
            assert(try_greedy(p, s, 2, a, e, a) == Some(
                seq![(a as usize, n as usize)] + seq![
                    (n as usize, n as usize),
                    (n as usize, n as usize),
                ],
            ));
        },
    }
    assert(tail_spans(d, s, a) =~= match_from(p, s, 2, a).unwrap());
}

/// A literal without spaces that the name of a mandatory dependency does not begin with does
/// not begin the dependency's text either.
proof fn lemma_no_lit_at_start(d: DependencyView, l: Seq<char>)
    requires
        d.requirement == Requirement::Mandatory,
        d.name.len() == 0 ==> d.version is None,
        l.len() >= 1,
        forall|k: int| 0 <= k < l.len() ==> #[trigger] l[k] != ' ',
        !has_lit_at(d.name, 0, l),
    ensures
        !has_lit_at(dependency_text(d), 0, l),
{
    let s = dependency_text(d);
    let nl = d.name.len() as int;
    if has_lit_at(s, 0, l) {
        if nl >= l.len() {
            assert(d.name.subrange(0, l.len() as int) =~= s.subrange(0, l.len() as int));
        } else {
            assert(d.version is Some);
            assert(s[nl] == ' ');
            assert(s.subrange(0, l.len() as int)[nl] == s[nl]);
        }
    }
}

/// The spans of the requirement prefix and of the space after it.
pub open spec fn head_spans(r: Requirement) -> Seq<(usize, usize)> {
    match r {
        Requirement::Mandatory => seq![(0usize, 0usize), (0usize, 0usize)],
        Requirement::OptionalHidden => seq![(0usize, 3usize), (3usize, 3usize)],
        _ => seq![(0usize, 1usize), (1usize, 2usize)],
    }
}

/// How the dependency grammar matches the text of a dependency.
proof fn lemma_dependency_match(d: DependencyView)
    requires
        dependency_text(d).len() <= usize::MAX,
        forall|k: int| 0 <= k < d.name.len() ==> !is_white_space(#[trigger] d.name[k]),
        d.requirement == Requirement::Mandatory ==> !starts_with_prefix(d.name),
        d.name.len() == 0 && d.version is Some ==> d.requirement == Requirement::Optional
            || d.requirement == Requirement::Incompatible,
    ensures
        match_from(dependency_pattern(), dependency_text(d), 0, 0) == Some(
            head_spans(d.requirement) + tail_spans(
                d,
                dependency_text(d),
                prefix_text(d.requirement).len() as int,
            ),
        ),
{
    let p = dependency_pattern();
    let s = dependency_text(d);
    let a = prefix_text(d.requirement).len() as int;
    let nl = d.name.len() as int;
    reveal_strlit("?");
    reveal_strlit("!");
    reveal_strlit("(?)");
    reveal_strlit("? ");
    reveal_strlit("! ");
    reveal_strlit(" ");
    lemma_dependency_tail(d);
    let tail = match_from(p, s, 2, a);
    assert(tail is Some);
    assert(nl > 0 ==> s[a] == d.name[0]);
    match d.requirement {
        Requirement::Mandatory => {
            lemma_no_lit_at_start(d, "?"@);
            lemma_no_lit_at_start(d, "!"@);
            lemma_no_lit_at_start(d, "(?)"@);
            assert(try_alt(p, s, 0, 0, 3) is None);
            assert(try_alt(p, s, 0, 0, 0) is None);
            assert(!has_lit_at(s, 0, " "@)) by {
                if has_lit_at(s, 0, " "@) {
                    assert(s.subrange(0, 1)[0] == s[0]);
                    assert(!is_white_space(d.name[0]));
                }
            }
            assert(try_alt(p, s, 1, 0, 1) is None);
            assert(try_alt(p, s, 1, 0, 0) is None);
            assert(match_from(p, s, 1, 0) == prepend_span(0, 0, tail));
            assert(match_from(p, s, 0, 0) == prepend_span(0, 0, prepend_span(0, 0, tail)));
        },
        Requirement::Optional => {
            assert(has_lit_at(s, 0, "?"@)) by {
                assert(s.subrange(0, 1) =~= "?"@);
            }
            assert(has_lit_at(s, 1, " "@)) by {
                assert(s.subrange(1, 2) =~= " "@);
            }
            assert(try_alt(p, s, 1, 1, 0) == prepend_span(1, 2, tail));
            assert(match_from(p, s, 1, 1) == prepend_span(1, 2, tail));
            assert(try_alt(p, s, 0, 0, 0) == prepend_span(0, 1, prepend_span(1, 2, tail)));
            assert(match_from(p, s, 0, 0) == prepend_span(0, 1, prepend_span(1, 2, tail)));
        },
        Requirement::Incompatible => {
            assert(!has_lit_at(s, 0, "?"@)) by {
                if has_lit_at(s, 0, "?"@) {
                    assert(s.subrange(0, 1)[0] == s[0]);
                }
            }
            assert(has_lit_at(s, 0, "!"@)) by {
                assert(s.subrange(0, 1) =~= "!"@);
            }
            assert(has_lit_at(s, 1, " "@)) by {
                assert(s.subrange(1, 2) =~= " "@);
            }
            assert(try_alt(p, s, 1, 1, 0) == prepend_span(1, 2, tail));
            assert(match_from(p, s, 1, 1) == prepend_span(1, 2, tail));
            assert(try_alt(p, s, 0, 0, 1) == prepend_span(0, 1, prepend_span(1, 2, tail)));
            assert(try_alt(p, s, 0, 0, 0) == prepend_span(0, 1, prepend_span(1, 2, tail)));
            assert(match_from(p, s, 0, 0) == prepend_span(0, 1, prepend_span(1, 2, tail)));
        },
        Requirement::OptionalHidden => {
            assert(!has_lit_at(s, 0, "?"@)) by {
                if has_lit_at(s, 0, "?"@) {
                    assert(s.subrange(0, 1)[0] == s[0]);
                }
            }
            assert(!has_lit_at(s, 0, "!"@)) by {
                if has_lit_at(s, 0, "!"@) {
                    assert(s.subrange(0, 1)[0] == s[0]);
                }
            }
            assert(has_lit_at(s, 0, "(?)"@)) by {
                assert(s.subrange(0, 3) =~= "(?)"@);
            }
            assert(!has_lit_at(s, 3, " "@)) by {
                if has_lit_at(s, 3, " "@) {
                    assert(s.subrange(3, 4)[0] == s[3]);
                    assert(!is_white_space(d.name[0]));
                }
            }
            assert(try_alt(p, s, 1, 3, 1) is None);
            assert(try_alt(p, s, 1, 3, 0) is None);
            assert(match_from(p, s, 1, 3) == prepend_span(3, 3, tail));
            assert(try_alt(p, s, 0, 0, 2) == prepend_span(0, 3, prepend_span(3, 3, tail)));
            assert(try_alt(p, s, 0, 0, 1) == prepend_span(0, 3, prepend_span(3, 3, tail)));
            assert(try_alt(p, s, 0, 0, 0) == prepend_span(0, 3, prepend_span(3, 3, tail)));
            assert(match_from(p, s, 0, 0) == prepend_span(0, 3, prepend_span(3, 3, tail)));
        },
    }
    assert(match_from(p, s, 0, 0).unwrap() =~= head_spans(d.requirement) + tail.unwrap());
}

/// A dependency's text reads back as the dependency, unless its name holds white space, a
/// mandatory dependency's name begins with a requirement prefix, or the name is empty while the
/// version is restricted and no space follows the prefix.
pub proof fn law_dependency_text_roundtrip(d: DependencyView)
    requires
        dependency_text(d).len() <= usize::MAX,
        forall|k: int| 0 <= k < d.name.len() ==> !is_white_space(#[trigger] d.name[k]),
        d.requirement == Requirement::Mandatory ==> !starts_with_prefix(d.name),
        d.name.len() == 0 && d.version is Some ==> d.requirement == Requirement::Optional
            || d.requirement == Requirement::Incompatible,
    ensures
        spec_parse_dependency(dependency_text(d)) == Ok::<DependencyView, DependencyParsingErrorView>(d),
{
    let p = dependency_pattern();
    let s = dependency_text(d);
    reveal_strlit("?");
    reveal_strlit("!");
    reveal_strlit("(?)");
    reveal_strlit("? ");
    reveal_strlit("! ");
    lemma_dependency_match(d);
    let sp = match_from(p, s, 0, 0).unwrap();
    assert(find_from(p, s, 0) == Some(sp));
    assert(find(p, s) == Some(sp));
    assert(sp[0] == head_spans(d.requirement)[0]);
    match d.requirement {
        Requirement::Mandatory => {
            assert(span_text(s, sp, 0) =~= Seq::<char>::empty());
            assert(requirement_of(Seq::<char>::empty()) == Some(Requirement::Mandatory));
        },
        Requirement::Optional => {
            assert(span_text(s, sp, 0) =~= "?"@);
            assert(requirement_of("?"@) == Some(Requirement::Optional));
        },
        Requirement::Incompatible => {
            assert(span_text(s, sp, 0) =~= "!"@);
            assert("!"@[0] != "?"@[0]);
            assert(requirement_of("!"@) == Some(Requirement::Incompatible));
        },
        Requirement::OptionalHidden => {
            assert(span_text(s, sp, 0) =~= "(?)"@);
            assert(requirement_of("(?)"@) == Some(Requirement::OptionalHidden));
        },
    }
    assert(requirement_of(span_text(s, sp, 0)) == Some(d.requirement));
    let name = span_text(s, sp, 2);
    assert(name =~= d.name);
    match d.version {
        Some(req) => {
            law_req_text_roundtrip(req);
            assert(span_text(s, sp, 4) =~= req_text(req));
            assert(spec_parse_dependency(s) == Ok::<DependencyView, DependencyParsingErrorView>(
                DependencyView { requirement: d.requirement, name, version: Some(req) },
            ));
        },
        None => {
            assert(span_text(s, sp, 4).len() == 0);
            assert(spec_parse_dependency(s) == Ok::<DependencyView, DependencyParsingErrorView>(
                DependencyView { requirement: d.requirement, name, version: None },
            ));
        },
    }
}

/// The grammar of a dependency.
fn dependency_grammar() -> (p: Vec<Item>)
    ensures
        pat_of(p@) == dependency_pattern(),
{
    let mut p: Vec<Item> = Vec::new();
    let prefixes = vec!["?", "!", "(?)"];
    p.push(alt(&prefixes, true));
    let space = vec![" "];
    p.push(alt(&space, true));
    p.push(rep(CharClass::NonSpace, 0, false, false));
    let space2 = vec![" "];
    p.push(alt(&space2, true));
    p.push(rep(CharClass::NotNewline, 1, false, true));
    assert(prefixes@.map_values(|o: &str| o@) =~= seq!["?"@, "!"@, "(?)"@]);
    assert(space@.map_values(|o: &str| o@) =~= seq![" "@]);
    assert(space2@.map_values(|o: &str| o@) =~= seq![" "@]);
    assert(pat_of(p@) =~= dependency_pattern());
    p
}

impl Dependency {
    /// Parses a dependency from a string such as `? name >= 1.0.0`.
    pub fn from_str(s: &str) -> (r: Result<Dependency, DependencyParsingError>)
        ensures
            match spec_parse_dependency(s@) {
                Ok(d) => r matches Ok(x) && x@ == d,
                Err(e) => r matches Err(x) && x@ == e,
            },
    {
        let chars = str_to_chars(s);
        let p = dependency_grammar();
        let sp = match find_match(&p, &chars) {
            None => return Err(DependencyParsingError::NoRegexCaptures(String::from_str(s))),
            Some(sp) => sp,
        };
        let (pa, pb) = sp[0];
        let (na, nb) = sp[2];
        let (va, vb) = sp[4];
        proof {
            assert(sp@[0] == (pa, pb) && sp@[2] == (na, nb) && sp@[4] == (va, vb));
            reveal_strlit("?");
            reveal_strlit("!");
            reveal_strlit("(?)");
        }
        let requirement = if pa == pb {
            Requirement::Mandatory
        } else if span_is(&chars, pa, pb, "?") {
            Requirement::Optional
        } else if span_is(&chars, pa, pb, "!") {
            Requirement::Incompatible
        } else if span_is(&chars, pa, pb, "(?)") {
            Requirement::OptionalHidden
        } else {
            return Err(DependencyParsingError::InvalidRequirementString(span_string(s, pa, pb)));
        };
        let name = span_string(s, na, nb);
        if va == vb {
            return Ok(Dependency { requirement, name, version: None });
        }
        let vtext = span_string(s, va, vb);
        match HumanVersionReq::parse(vtext.as_str()) {
            Ok(req) => Ok(Dependency { requirement, name, version: Some(req) }),
            Err(e) => Err(DependencyParsingError::InvalidVersionRequirementString(e)),
        }
    }

    /// The text of this dependency, such as `? name >= 1.0.0`.
    pub fn to_string(&self) -> (r: String)
        ensures
            r@ == dependency_text(self@),
    {
        let mut out = String::new();
        match self.requirement {
            Requirement::Mandatory => {},
            Requirement::Optional => out.append("? "),
            Requirement::Incompatible => out.append("! "),
            Requirement::OptionalHidden => out.append("(?)"),
        }
        out.append(self.name.as_str());
        match &self.version {
            Some(req) => {
                out.append(" ");
                let t = req.to_string();
                out.append(t.as_str());
                proof {
                    reveal_strlit(" ");
                }
            },
            None => {},
        }
        proof {
            assert(out@ =~= dependency_text(self@));
        }
        out
    }
}

/// The dependencies of a mod whose `info.json` lists none: the base mod.
pub fn default_dependencies() -> (r: Vec<Dependency>)
    ensures
        r@.len() == 1,
        r@[0]@ == (DependencyView { requirement: Requirement::Mandatory, name: "base"@, version: None }),
{
    let mut r: Vec<Dependency> = Vec::new();
    r.push(
        Dependency { requirement: Requirement::Mandatory, name: String::from_str("base"), version: None },
    );
    r
}

} // verus!
