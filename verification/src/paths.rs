//! Unix paths as texts.
use crate::text::{chars_of, concat2, concat3, same};
use vstd::prelude::*;
use vstd::string::*;

verus! {

/// The position of the last `wanted` in `s`, or -1.
pub open spec fn last_position(s: Seq<char>, wanted: char) -> int
    decreases s.len(),
{
    if s.len() == 0 {
        -1
    } else if s.last() == wanted {
        s.len() - 1
    } else {
        last_position(s.drop_last(), wanted)
    }
}

pub open spec fn is_absolute(path: Seq<char>) -> bool {
    path.len() > 0 && path.first() == '/'
}

/// `path` as seen from `base`: an absolute path stands for itself.
pub open spec fn path_joined(base: Seq<char>, path: Seq<char>) -> Seq<char> {
    if is_absolute(path) {
        path
    } else if base.len() == 0 || base.last() == '/' {
        base + path
    } else {
        base + "/"@ + path
    }
}

/// The last component of a path that is neither empty nor `.`, unless it is `..`.
pub open spec fn path_file_name(path: Seq<char>) -> Option<Seq<char>>
    decreases path.len(),
    via path_file_name_shrinks
{
    let slash = last_position(path, '/');
    let last = path.skip(slash + 1);
    if last == ""@ || last == "."@ {
        if slash < 0 {
            None
        } else {
            path_file_name(path.take(slash))
        }
    } else if last == ".."@ {
        None
    } else {
        Some(last)
    }
}

#[via_fn]
proof fn path_file_name_shrinks(path: Seq<char>) {
    lemma_last_position(path, '/');
}

/// What follows the last dot of the file name, unless the name has no dot but a leading one.
pub open spec fn path_extension(path: Seq<char>) -> Option<Seq<char>> {
    match path_file_name(path) {
        None => None,
        Some(name) => {
            let dot = last_position(name, '.');
            if dot <= 0 {
                None
            } else {
                Some(name.skip(dot + 1))
            }
        },
    }
}

pub proof fn lemma_last_position(s: Seq<char>, wanted: char)
    ensures
        -1 <= last_position(s, wanted) < s.len(),
        last_position(s, wanted) >= 0 ==> s[last_position(s, wanted)] == wanted,
        forall|i: int| last_position(s, wanted) < i < s.len() ==> s[i] != wanted,
    decreases s.len(),
{
    if s.len() > 0 && s.last() != wanted {
        lemma_last_position(s.drop_last(), wanted);
        assert forall|i: int| last_position(s, wanted) < i < s.len() implies s[i] != wanted by {
            if i < s.len() - 1 {
                assert(s.drop_last()[i] == s[i]);
            }
        }
    }
}

/// The position after the last `wanted` in `text`, or 0.
pub fn after_last(text: &str, wanted: char) -> (start: usize)
    ensures
        start == last_position(text@, wanted) + 1,
{
    let chars = chars_of(text);
    let mut n: usize = chars.len();
    assert(text@.take(n as int) =~= text@);
    while n > 0 && chars[n - 1] != wanted
        invariant
            n <= chars@.len(),
            chars@ == text@,
            last_position(text@.take(n as int), wanted) == last_position(text@, wanted),
        decreases n,
    {
        assert(text@.take(n as int).drop_last() =~= text@.take(n - 1));
        n -= 1;
    }
    n
}

pub fn path_is_absolute(path: &str) -> (absolute: bool)
    ensures
        absolute == is_absolute(path@),
{
    path.unicode_len() > 0 && path.get_char(0) == '/'
}

/// `path` as seen from `base`.
pub fn join_path(base: &str, path: &str) -> (whole: String)
    ensures
        whole@ == path_joined(base@, path@),
{
    if path_is_absolute(path) {
        return path.to_owned();
    }
    let n: usize = base.unicode_len();
    if n == 0 || base.get_char(n - 1) == '/' {
        concat2(base, path)
    } else {
        concat3(base, "/", path)
    }
}

/// The file name of a path.
pub fn file_name<'a>(path: &'a str) -> (name: Option<&'a str>)
    ensures
        name.deep_view() == path_file_name(path@),
    decreases path@.len(),
{
    proof {
        lemma_last_position(path@, '/');
    }
    let start: usize = after_last(path, '/');
    let n: usize = path.unicode_len();
    let last = path.substring_char(start, n);
    assert(last@ =~= path@.skip(start as int));
    if same(last, "") || same(last, ".") {
        if start == 0 {
            None
        } else {
            let rest = path.substring_char(0, start - 1);
            assert(rest@ =~= path@.take(start - 1));
            file_name(rest)
        }
    } else if same(last, "..") {
        None
    } else {
        Some(last)
    }
}

/// The extension of a path's file name.
pub fn extension<'a>(path: &'a str) -> (ext: Option<&'a str>)
    ensures
        ext.deep_view() == path_extension(path@),
{
    match file_name(path) {
        None => None,
        Some(name) => {
            proof {
                lemma_last_position(name@, '.');
            }
            let start: usize = after_last(name, '.');
            if start <= 1 {
                None
            } else {
                let ext = name.substring_char(start, name.unicode_len());
                assert(ext@ =~= name@.skip(start as int));
                Some(ext)
            }
        },
    }
}

} // verus!
