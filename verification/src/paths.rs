//! File names and their extensions.
use vstd::prelude::*;
use vstd::string::*;

verus! {

/// The pieces of a text between its `/`s, in order (one empty piece for the empty text).
pub open spec fn slash_pieces(s: Seq<char>) -> Seq<Seq<char>>
    decreases s.len(),
{
    if s.len() == 0 {
        seq![Seq::<char>::empty()]
    } else {
        let before = slash_pieces(s.drop_last());
        if s.last() == '/' {
            before.push(Seq::<char>::empty())
        } else {
            before.update(before.len() - 1, before.last().push(s.last()))
        }
    }
}

/// The pieces of a path that name something: the non-empty ones other than `.`.
pub open spec fn named_pieces(path: Seq<char>) -> Seq<Seq<char>> {
    slash_pieces(path).filter(|p: Seq<char>| p.len() > 0 && p != seq!['.'])
}

/// The final component of a path as `std::path::Path::file_name` documents it on Unix:
/// separators repeat freely and `.` pieces are normalised away, so the file name is the last
/// piece that names something; there is none where no piece names anything or where that
/// piece is `..`.
pub open spec fn path_file_name(path: Seq<char>) -> Option<Seq<char>> {
    let named = named_pieces(path);
    if named.len() == 0 || named.last() == seq!['.', '.'] {
        None
    } else {
        Some(named.last())
    }
}

/// The final component of a path (`std::path::Path::file_name`, as a string slice, which on
/// Unix always converts). The contract claims what the documentation of `file_name` and of
/// `Path::components` says (see `path_file_name`).
#[verifier::external_body]
pub(crate) fn file_name_of<'a>(path: &'a str) -> (r: Option<&'a str>)
    ensures
        match r {
            Some(n) => path_file_name(path@) == Some(n@),
            None => path_file_name(path@) is None,
        },
{
    std::path::Path::new(path).file_name().and_then(|n| n.to_str())
}

/// The position of the last `.` in the text, if any.
pub open spec fn last_dot(s: Seq<char>) -> Option<int>
    decreases s.len(),
{
    if s.len() == 0 {
        None
    } else if s.last() == '.' {
        Some(s.len() - 1)
    } else {
        last_dot(s.drop_last())
    }
}

/// The extension of a file name, as `std::path::Path::extension` documents it: `None` if
/// there is no `.`, or if the name begins with `.` and has no other `.`; otherwise the text
/// after the final `.`.
pub open spec fn name_extension(name: Seq<char>) -> Option<Seq<char>> {
    match last_dot(name) {
        None => None,
        Some(k) => if k == 0 {
            None
        } else {
            Some(name.subrange(k + 1, name.len() as int))
        },
    }
}

/// The extension of a path: that of its file name.
pub open spec fn spec_path_extension(path: Seq<char>) -> Option<Seq<char>> {
    match path_file_name(path) {
        None => None,
        Some(name) => name_extension(name),
    }
}

proof fn lemma_last_dot(s: Seq<char>, k: int)
    requires
        0 <= k <= s.len(),
        forall|j: int| k <= j < s.len() ==> s[j] != '.',
    ensures
        last_dot(s) == last_dot(s.subrange(0, k)),
    decreases s.len() - k,
{
    if k < s.len() {
        assert(s.last() == s[s.len() - 1]);
        assert(s.drop_last() =~= s.subrange(0, s.len() - 1));
        lemma_last_dot(s.drop_last(), k);
        assert(s.drop_last().subrange(0, k) =~= s.subrange(0, k));
    } else {
        assert(s.subrange(0, k) =~= s);
    }
}

/// The extension of a file name (see `name_extension`).
pub fn extension_of_name<'a>(name: &'a str) -> (r: Option<&'a str>)
    ensures
        match r {
            Some(e) => name_extension(name@) == Some(e@),
            None => name_extension(name@) is None,
        },
{
    let n = name.unicode_len();
    let mut i: usize = n;
    while i > 0
        invariant
            n == name@.len(),
            i <= n,
            forall|j: int| i <= j < n ==> name@[j] != '.',
        decreases i,
    {
        if name.get_char(i - 1) == '.' {
            proof {
                lemma_last_dot(name@, i as int);
                let p = name@.subrange(0, i as int);
                assert(p.last() == '.');
            }
            if i - 1 == 0 {
                return None;
            }
            return Some(name.substring_char(i, n));
        }
        i = i - 1;
    }
    proof {
        lemma_last_dot(name@, 0);
        assert(name@.subrange(0, 0).len() == 0);
    }
    None
}

/// Extracts the extension from a file name (`Path::new(filename).extension()`).
pub fn get_extension_from_filename<'a>(filename: &'a str) -> (r: Option<&'a str>)
    ensures
        match r {
            Some(e) => spec_path_extension(filename@) == Some(e@),
            None => spec_path_extension(filename@) is None,
        },
{
    match file_name_of(filename) {
        None => None,
        Some(name) => extension_of_name(name),
    }
}

} // verus!
