//! The version report that a Factorio server executable prints for `--version`.
use crate::error::{ExecutableError, HumanVersionError, HumanVersionErrorView};
use crate::grammar::{find, find_match, lit, pat_of, rep, CharClass, Item, Pat};
use crate::text::{span_string, str_to_chars, sub_chars, trim_bounds, trimmed};
use crate::version::{parse_version_chars, span_text, spec_parse_version, HumanVersion};
use vstd::prelude::*;
use vstd::string::StringExecFns;

verus! {

/// A server executable's version information.
#[derive(Debug)]
pub struct VersionInformation {
    /// The server's version.
    pub version: HumanVersion,
    /// The server's meta information (e.g. build number, platform).
    pub meta: String,
    /// The server's binary version.
    pub binary: String,
    /// The server's map input version.
    pub map_input: String,
    /// The server's map output version.
    pub map_output: String,
}

/// The meaning of a [`VersionInformation`], with its texts as character sequences.
pub struct VersionInformationView {
    pub version: HumanVersion,
    pub meta: Seq<char>,
    pub binary: Seq<char>,
    pub map_input: Seq<char>,
    pub map_output: Seq<char>,
}

impl View for VersionInformation {
    type V = VersionInformationView;

    open spec fn view(&self) -> VersionInformationView {
        VersionInformationView {
            version: self.version,
            meta: self.meta@,
            binary: self.binary@,
            map_input: self.map_input@,
            map_output: self.map_output@,
        }
    }
}

/// Why a version report could not be read.
#[derive(Debug)]
pub enum VersionInformationFailure {
    /// The report does not have the form of a version report.
    NoMatch,
    /// The reported version is not a version.
    InvalidVersion(HumanVersionError),
}

/// The meaning of a [`VersionInformationFailure`].
pub enum VersionInformationFailureView {
    NoMatch,
    InvalidVersion(HumanVersionErrorView),
}

impl View for VersionInformationFailure {
    type V = VersionInformationFailureView;

    open spec fn view(&self) -> VersionInformationFailureView {
        match self {
            VersionInformationFailure::NoMatch => VersionInformationFailureView::NoMatch,
            VersionInformationFailure::InvalidVersion(e) => VersionInformationFailureView::InvalidVersion(e@),
        }
    }
}

/// The grammar of a version report, such as
/// `Version: 0.18.47 (build 54412, linux64, headless)`, then on their own lines
/// `Binary version: 64`, `Map input version: 0.16.0-0` and `Map output version: 0.18.47-0`.
/// The version and the three others are runs of word characters, `.` and `-`; the text in
/// brackets runs to the last `)` of its line.
pub open spec fn version_info_pattern() -> Seq<Pat> {
    seq![
        Pat::Start,
        Pat::Lit("Version: "@),
        Pat::Rep { class: CharClass::VersionChar, min: 1, lazy: false, optional: false },
        Pat::Lit(" ("@),
        Pat::Rep { class: CharClass::NotNewline, min: 1, lazy: false, optional: false },
        Pat::Lit(")\nBinary version: "@),
        Pat::Rep { class: CharClass::VersionChar, min: 1, lazy: false, optional: false },
        Pat::Lit("\nMap input version: "@),
        Pat::Rep { class: CharClass::VersionChar, min: 1, lazy: false, optional: false },
        Pat::Lit("\nMap output version: "@),
        Pat::Rep { class: CharClass::VersionChar, min: 1, lazy: false, optional: false },
        Pat::End,
    ]
}

/// The version information that a report denotes, read from the report without its leading and
/// trailing white space.
pub open spec fn spec_version_information(s: Seq<char>) -> Result<
    VersionInformationView,
    VersionInformationFailureView,
> {
    let t = trimmed(s);
    match find(version_info_pattern(), t) {
        None => Err(VersionInformationFailureView::NoMatch),
        Some(sp) => match spec_parse_version(span_text(t, sp, 2)) {
            Err(e) => Err(VersionInformationFailureView::InvalidVersion(e)),
            Ok(version) => Ok(
                VersionInformationView {
                    version,
                    meta: span_text(t, sp, 4),
                    binary: span_text(t, sp, 6),
                    map_input: span_text(t, sp, 8),
                    map_output: span_text(t, sp, 10),
                },
            ),
        },
    }
}

/// Whether a result of reading the report `s` is what the report denotes: the information, or
/// the error that holds the whole report and why it could not be read.
pub open spec fn version_information_result(
    s: Seq<char>,
    r: Result<VersionInformation, ExecutableError>,
) -> bool {
    match spec_version_information(s) {
        Ok(v) => r matches Ok(x) && x@ == v,
        Err(f) => r matches Err(ExecutableError::InvalidVersionInformation { ver_str, reason })
            && ver_str@ == s && reason@ == f,
    }
}

/// The grammar of a version report.
fn version_info_grammar() -> (p: Vec<Item>)
    ensures
        pat_of(p@) == version_info_pattern(),
{
    let mut p: Vec<Item> = Vec::new();
    p.push(Item::Start);
    p.push(lit("Version: "));
    p.push(rep(CharClass::VersionChar, 1, false, false));
    p.push(lit(" ("));
    p.push(rep(CharClass::NotNewline, 1, false, false));
    p.push(lit(")\nBinary version: "));
    p.push(rep(CharClass::VersionChar, 1, false, false));
    p.push(lit("\nMap input version: "));
    p.push(rep(CharClass::VersionChar, 1, false, false));
    p.push(lit("\nMap output version: "));
    p.push(rep(CharClass::VersionChar, 1, false, false));
    p.push(Item::End);
    assert(pat_of(p@) =~= version_info_pattern());
    p
}

impl VersionInformation {
    /// Reads a server's version report.
    pub fn from_str(s: &str) -> (r: Result<VersionInformation, ExecutableError>)
        ensures
            version_information_result(s@, r),
    {
        let chars = str_to_chars(s);
        let (a, b) = trim_bounds(&chars);
        let t = sub_chars(&chars, a, b);
        let p = version_info_grammar();
        let sp = match find_match(&p, &t) {
            Some(sp) => sp,
            None => {
                return Err(
                    ExecutableError::InvalidVersionInformation {
                        ver_str: String::from_str(s),
                        reason: VersionInformationFailure::NoMatch,
                    },
                );
            },
        };
        let ghost tv = t@;
        let vtext = sub_chars(&t, sp[2].0, sp[2].1);
        let version = match parse_version_chars(&vtext) {
            Ok(v) => v,
            Err(e) => {
                return Err(
                    ExecutableError::InvalidVersionInformation {
                        ver_str: String::from_str(s),
                        reason: VersionInformationFailure::InvalidVersion(e),
                    },
                );
            },
        };
        proof {
            assert forall|x: int, y: int| 0 <= x <= y <= tv.len() implies tv.subrange(x, y)
                =~= s@.subrange(a + x, a + y) by {}
        }
        let meta = span_string(s, a + sp[4].0, a + sp[4].1);
        let binary = span_string(s, a + sp[6].0, a + sp[6].1);
        let map_input = span_string(s, a + sp[8].0, a + sp[8].1);
        let map_output = span_string(s, a + sp[10].0, a + sp[10].1);
        Ok(VersionInformation { version, meta, binary, map_input, map_output })
    }
}

} // verus!
