//! File names of Unix paths, of zip archive entries and of download URLs.
use crate::error::{PathError, ResponseError, ZipError};
use crate::text::{split_on, split_string, str_equal, texts};
use crate::version::{version_text, HumanVersion};
use vstd::prelude::*;
use vstd::string::StringExecFns;

verus! {

/// The components of a path that name something: the pieces between `/` other than empty ones
/// and `.`.
pub open spec fn named_components(p: Seq<char>) -> Seq<Seq<char>> {
    split_on(p, '/').filter(|c: Seq<char>| c.len() > 0 && c != seq!['.'])
}

/// The file name of a path: its last named component, unless there is none or it is `..`.
pub open spec fn file_name_of(p: Seq<char>) -> Option<Seq<char>> {
    let comps = named_components(p);
    if comps.len() == 0 || comps.last() == seq!['.', '.'] {
        None
    } else {
        Some(comps.last())
    }
}

/// The index of the last `.` in a name, if any.
pub open spec fn last_dot(name: Seq<char>, n: int) -> Option<int>
    decreases n,
{
    if n <= 0 {
        None
    } else if name[n - 1] == '.' {
        Some(n - 1)
    } else {
        last_dot(name, n - 1)
    }
}

/// The stem of a file name: the part before its last `.`, unless that `.` is its first character
/// (or there is none), when it is the whole name.
pub open spec fn stem_of(name: Seq<char>) -> Seq<char> {
    match last_dot(name, name.len() as int) {
        Some(i) => if i == 0 {
            name
        } else {
            name.take(i)
        },
        None => name,
    }
}

/// The last named component of a path, if there is one.
fn last_named_component(p: &str) -> (r: Option<String>)
    ensures
        named_components(p@).len() == 0 ==> r is None,
        named_components(p@).len() > 0 ==> (r matches Some(c) && c@ == named_components(p@).last()),
{
    let pieces = split_string(p, '/');
    let ghost all = texts(pieces@);
    let ghost f = |c: Seq<char>| c.len() > 0 && c != seq!['.'];
    let mut found: Option<usize> = None;
    let mut j: usize = 0;
    while j < pieces.len()
        invariant
            j <= pieces.len(),
            all == texts(pieces@),
            all == split_on(p@, '/'),
            f == (|c: Seq<char>| c.len() > 0 && c != seq!['.']),
            found matches Some(k) ==> k < j && all.take(j as int).filter(f).len() > 0
                && all.take(j as int).filter(f).last() == all[k as int],
            found is None ==> all.take(j as int).filter(f).len() == 0,
        decreases pieces.len() - j,
    {
        let ghost before = all.take(j as int);
        assert(all.take(j + 1) =~= before.push(all[j as int]));
        assert(all.take(j + 1).drop_last() =~= before);
        proof {
            reveal(Seq::filter);
        }
        let c = &pieces[j];
        assert(all[j as int] == c@);
        let chars = crate::text::str_to_chars(c.as_str());
        let is_dot = chars.len() == 1 && chars[0] == '.';
        assert(is_dot == (c@ == seq!['.'])) by {
            if c@.len() == 1 {
                assert(c@ =~= seq![c@[0]]);
            }
        }
        if chars.len() > 0 && !is_dot {
            found = Some(j);
        }
        j = j + 1;
    }
    assert(all.take(pieces.len() as int) =~= all);
    match found {
        Some(k) => Some(pieces[k].clone()),
        None => None,
    }
}

/// The file name of a path, if it has one.
pub fn file_name(p: &str) -> (r: Option<String>)
    ensures
        match file_name_of(p@) {
            Some(n) => r matches Some(x) && x@ == n,
            None => r is None,
        },
{
    proof {
        reveal_strlit("..");
        assert(".."@ =~= seq!['.', '.']);
    }
    match last_named_component(p) {
        None => None,
        Some(c) => if str_equal(c.as_str(), "..") {
            None
        } else {
            Some(c)
        },
    }
}

/// The stem of a file name.
fn stem(name: &String) -> (r: String)
    ensures
        r@ == stem_of(name@),
{
    let chars = crate::text::str_to_chars(name.as_str());
    let mut j: usize = chars.len();
    while j > 0 && chars[j - 1] != '.'
        invariant
            j <= chars.len(),
            chars@ == name@,
            last_dot(name@, name@.len() as int) == last_dot(name@, j as int),
        decreases j,
    {
        proof {
            lemma_last_dot_skip(name@, name@.len() as int, j as int);
        }
        j = j - 1;
    }
    if j == 0 || j == 1 {
        name.clone()
    } else {
        crate::text::span_string(name.as_str(), 0, j - 1)
    }
}

/// Skipping a character that is not `.` leaves the last `.` where it was.
proof fn lemma_last_dot_skip(name: Seq<char>, n: int, j: int)
    requires
        0 < j <= n,
        last_dot(name, n) == last_dot(name, j),
        name[j - 1] != '.',
    ensures
        last_dot(name, n) == last_dot(name, j - 1),
{
}

/// The file names and stems of Unix paths.
pub trait PathExt {
    /// The path's file name; fails with `NoFilename` when it has none.
    fn get_file_name(&self) -> Result<String, PathError>;

    /// The stem of the path's file name; fails with `NoFilename` when it has none.
    fn get_file_stem(&self) -> Result<String, PathError>;
}

impl PathExt for str {
    fn get_file_name(&self) -> (r: Result<String, PathError>)
        ensures
            match file_name_of(self@) {
                Some(n) => r matches Ok(x) && x@ == n,
                None => r == Err::<String, PathError>(PathError::NoFilename),
            },
    {
        match file_name(self) {
            Some(n) => Ok(n),
            None => Err(PathError::NoFilename),
        }
    }

    fn get_file_stem(&self) -> (r: Result<String, PathError>)
        ensures
            match file_name_of(self@) {
                Some(n) => r matches Ok(x) && x@ == stem_of(n),
                None => r == Err::<String, PathError>(PathError::NoFilename),
            },
    {
        match file_name(self) {
            Some(n) => Ok(stem(&n)),
            None => Err(PathError::NoFilename),
        }
    }
}

/// The index of the first entry whose file name is `name`, or the number of entries.
pub open spec fn first_entry_named(entries: Seq<Seq<char>>, name: Seq<char>, n: int) -> int
    decreases n,
{
    if n <= 0 {
        0
    } else if first_entry_named(entries, name, n - 1) < n - 1 {
        first_entry_named(entries, name, n - 1)
    } else if file_name_of(entries[n - 1]) == Some(name) {
        n - 1
    } else {
        n
    }
}

/// The path of the first entry of a zip archive whose file name is `name`, whatever directory it
/// is in; fails with `NoFile` when no entry has the name.
pub fn find_file(entries: &Vec<String>, name: &str) -> (r: Result<String, ZipError>)
    ensures
        ({
            let k = first_entry_named(texts(entries@), name@, entries@.len() as int);
            &&& k < entries@.len() ==> (r matches Ok(p) && p@ == entries@[k]@)
            &&& k >= entries@.len() ==> (r matches Err(ZipError::NoFile(m)) && m@ == name@)
        }),
{
    let ghost t = texts(entries@);
    let mut j: usize = 0;
    while j < entries.len()
        invariant
            j <= entries.len(),
            t == texts(entries@),
            first_entry_named(t, name@, j as int) == j,
        decreases entries.len() - j,
    {
        assert(t[j as int] == entries@[j as int]@);
        let hit = match file_name(entries[j].as_str()) {
            Some(n) => str_equal(n.as_str(), name),
            None => false,
        };
        if hit {
            proof {
                lemma_entry_found_stays(t, name@, j + 1, t.len() as int);
            }
            return Ok(entries[j].clone());
        }
        j = j + 1;
    }
    Err(ZipError::NoFile(String::from_str(name)))
}

/// Once an entry is found, it stays the first one.
proof fn lemma_entry_found_stays(entries: Seq<Seq<char>>, name: Seq<char>, m: int, n: int)
    requires
        0 < m <= n,
        first_entry_named(entries, name, m) < m,
    ensures
        first_entry_named(entries, name, n) == first_entry_named(entries, name, m),
    decreases n,
{
    if n > m {
        lemma_entry_found_stays(entries, name, m, n - 1);
    }
}

/// The file name of a download: the last segment of its URL's path, which must not be empty.
pub fn url_file_name(url_path: &str) -> (r: Result<String, ResponseError>)
    ensures
        split_on(url_path@, '/').last().len() > 0 ==> (r matches Ok(n) && n@ == split_on(
            url_path@,
            '/',
        ).last()),
        split_on(url_path@, '/').last().len() == 0 ==> r == Err::<String, ResponseError>(
            ResponseError::NoFilename,
        ),
{
    let segments = split_string(url_path, '/');
    proof {
        crate::text::lemma_split_nonempty(url_path@, '/');
    }
    let last = &segments[segments.len() - 1];
    assert(last@ == split_on(url_path@, '/').last());
    if last.as_str().is_empty() {
        Err(ResponseError::NoFilename)
    } else {
        Ok(last.clone())
    }
}

/// The name of a mod release's zip archive: `name_version.zip`.
pub fn archive_filename(name: &str, version: &HumanVersion) -> (r: String)
    ensures
        r@ == name@ + seq!['_'] + version_text(*version) + ".zip"@,
{
    let mut out = String::from_str(name);
    out.append("_");
    let v = version.to_string();
    out.append(v.as_str());
    out.append(".zip");
    proof {
        reveal_strlit("_");
    }
    out
}

} // verus!
