//! The grammar of paths: components separated by `/`, the file name and its
//! extension.
//!
//! A path is a sequence of characters. Its components are the pieces between
//! separators; empty pieces and the piece `.` name nothing and are passed
//! over. The file name is the last component that is left, unless that is
//! `..`. The extension is what follows the last dot of the file name, provided
//! that dot is not the first character of the name.
use crate::text::{after_last, chars_of, equals_at, find_after_last, lemma_after_last_is, occurs_at,
    CharClass};
use vstd::prelude::*;

verus! {

/// The component `.`, which stands for the directory it is found in.
pub open spec fn cur_dir() -> Seq<char> {
    seq!['.']
}

/// The component `..`, which stands for the parent directory.
pub open spec fn parent_dir() -> Seq<char> {
    seq!['.', '.']
}

/// The file name of `path`: its last component other than the empty one and
/// `.`; `None` where there is no such component or it is `..`.
pub open spec fn file_name_of(path: Seq<char>) -> Option<Seq<char>>
    decreases path.len(),
{
    let start = after_last(path, CharClass::Slash);
    let last = path.skip(start);
    if last.len() == 0 || last == cur_dir() {
        if 0 < start <= path.len() {
            file_name_of(path.take(start - 1))
        } else {
            None
        }
    } else if last == parent_dir() {
        None
    } else {
        Some(last)
    }
}

/// The extension of the file name `name`: what follows its last dot. A name
/// without a dot has none, nor has one whose only dot is its first character.
pub open spec fn extension_in(name: Seq<char>) -> Option<Seq<char>> {
    let dot = after_last(name, CharClass::Dot);
    if dot <= 1 {
        None
    } else {
        Some(name.skip(dot))
    }
}

/// The extension of the file name of `path`.
pub open spec fn extension_of(path: Seq<char>) -> Option<Seq<char>> {
    match file_name_of(path) {
        Some(name) => extension_in(name),
        None => None,
    }
}

/// `dir` followed by `name`, with one separator between them where `dir` does
/// not end in one. An empty `dir` gives `name`, and so does a `name` that
/// starts at the root.
pub open spec fn joined(dir: Seq<char>, name: Seq<char>) -> Seq<char> {
    if dir.len() == 0 || (name.len() > 0 && name[0] == '/') {
        name
    } else if dir.last() == '/' {
        dir + name
    } else {
        dir + seq!['/'] + name
    }
}

/// The bounds of the file name within the characters of a path.
pub fn file_name_bounds(path: &[char]) -> (r: Option<(usize, usize)>)
    ensures
        match r {
            Some((from, to)) => from < to <= path.len() && file_name_of(path@) == Some(
                path@.subrange(from as int, to as int),
            ),
            None => file_name_of(path@) is None,
        },
{
    let mut end: usize = path.len();
    assert(path@.take(end as int) =~= path@);
    loop
        invariant
            end <= path.len(),
            file_name_of(path@) == file_name_of(path@.take(end as int)),
        decreases end,
    {
        let start = find_after_last(path, 0, end, CharClass::Slash);
        let ghost head = path@.take(end as int);
        let ghost last = head.skip(start as int);
        proof {
            if start > 0 {
                assert(head.take(start - 1) =~= path@.take(start - 1));
            }
        }
        let len = end - start;
        let is_cur = len == 1 && path[start] == '.';
        let is_parent = len == 2 && path[start] == '.' && path[start + 1] == '.';
        proof {
            if is_cur {
                assert(last =~= cur_dir());
            } else if len == 1 {
                assert(last[0] != cur_dir()[0]);
            }
            if is_parent {
                assert(last =~= parent_dir());
            }
        }
        if len == 0 || is_cur {
            if start == 0 {
                return None;
            }
            end = start - 1;
        } else if is_parent {
            return None;
        } else {
            return Some((start, end));
        }
    }
}

/// The start of the extension within a file name that lies at `from..to` of `s`.
pub fn extension_start(s: &[char], from: usize, to: usize) -> (r: Option<usize>)
    requires
        from <= to <= s.len(),
    ensures
        match r {
            Some(at) => from <= at <= to && extension_in(s@.subrange(from as int, to as int))
                == Some(s@.subrange(at as int, to as int)),
            None => extension_in(s@.subrange(from as int, to as int)) is None,
        },
{
    let at = find_after_last(s, from, to, CharClass::Dot);
    if at - from <= 1 {
        None
    } else {
        Some(at)
    }
}

/// The file name of `path`.
pub fn file_name(path: &str) -> (r: Option<String>)
    ensures
        match r {
            Some(name) => file_name_of(path@) == Some(name@),
            None => file_name_of(path@) is None,
        },
{
    let chars = chars_of(path);
    match file_name_bounds(chars.as_slice()) {
        Some((from, to)) => Some(path.substring_char(from, to).to_owned()),
        None => None,
    }
}

/// The extension of the file name of `path`.
pub fn extension(path: &str) -> (r: Option<String>)
    ensures
        match r {
            Some(ext) => extension_of(path@) == Some(ext@),
            None => extension_of(path@) is None,
        },
{
    let chars = chars_of(path);
    match file_name_bounds(chars.as_slice()) {
        Some((from, to)) => match extension_start(chars.as_slice(), from, to) {
            Some(at) => Some(path.substring_char(at, to).to_owned()),
            None => None,
        },
        None => None,
    }
}

/// Tests whether the extension of the file name of `path` is `ext`.
pub fn has_extension(path: &[char], ext: &[char]) -> (b: bool)
    ensures
        b == (extension_of(path@) == Some(ext@)),
{
    match file_name_bounds(path) {
        Some((from, to)) => match extension_start(path, from, to) {
            Some(at) => equals_at(path, at, to, ext),
            None => false,
        },
        None => false,
    }
}

/// Joins a directory and a name into one path.
pub fn join(dir: &str, name: &str) -> (r: String)
    ensures
        r@ == joined(dir@, name@),
{
    let d = chars_of(dir);
    let n = chars_of(name);
    if d.len() == 0 || (n.len() > 0 && n[0] == '/') {
        name.to_owned()
    } else if d[d.len() - 1] == '/' {
        dir.to_owned().concat(name)
    } else {
        proof {
            reveal_strlit("/");
        }
        dir.to_owned().concat("/").concat(name)
    }
}

/// A file name is a component of its path: it is not empty, holds no
/// separator, is neither `.` nor `..`, and stands in the path as it is.
pub proof fn law_file_name_is_a_component(path: Seq<char>)
    requires
        file_name_of(path) is Some,
    ensures
        ({
            let name = file_name_of(path).unwrap();
            &&& name.len() > 0
            &&& forall|j: int| 0 <= j < name.len() ==> name[j] != '/'
            &&& name != cur_dir()
            &&& name != parent_dir()
            &&& exists|i: int| occurs_at(path, name, i)
        }),
    decreases path.len(),
{
    let start = after_last(path, CharClass::Slash);
    lemma_after_last_is(path, CharClass::Slash);
    let last = path.skip(start);
    if last.len() == 0 || last == cur_dir() {
        let head = path.take(start - 1);
        law_file_name_is_a_component(head);
        let name = file_name_of(head).unwrap();
        let i = choose|i: int| occurs_at(head, name, i);
        assert(head.subrange(i, i + name.len()) =~= path.subrange(i, i + name.len()));
        assert(occurs_at(path, name, i));
    } else {
        assert(occurs_at(path, last, start));
    }
}

/// An extension ends its file name: the name is a stem that is not empty, a
/// dot and the extension, and the extension holds no dot.
pub proof fn law_extension_ends_the_name(name: Seq<char>)
    requires
        extension_in(name) is Some,
    ensures
        ({
            let ext = extension_in(name).unwrap();
            let stem = name.take(name.len() - ext.len() - 1);
            &&& stem.len() > 0
            &&& name == stem + seq!['.'] + ext
            &&& forall|j: int| 0 <= j < ext.len() ==> ext[j] != '.'
        }),
{
    lemma_after_last_is(name, CharClass::Dot);
}

} // verus!
