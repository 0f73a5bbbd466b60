//! Paths as text, with `/` between their components.
use vstd::prelude::*;
use vstd::string::*;

use crate::text::chars_of;

verus! {

/// The components of a path that count: neither empty nor `.`.
pub open spec fn components(path: Seq<char>) -> Seq<Seq<char>> {
    crate::text::pieces(path, '/').filter(|c: Seq<char>| c.len() > 0 && c != seq!['.'])
}

/// The last component, unless it is `..`.
pub open spec fn file_name_of(path: Seq<char>) -> Option<Seq<char>> {
    let c = components(path);
    if c.len() == 0 || c.last() == seq!['.', '.'] {
        None
    } else {
        Some(c.last())
    }
}

/// The last position of `c` in `s`.
pub open spec fn last_position(s: Seq<char>, c: char) -> Option<int>
    decreases s.len(),
{
    if s.len() == 0 {
        None
    } else if s.last() == c {
        Some(s.len() - 1)
    } else {
        last_position(s.drop_last(), c)
    }
}

/// A file name without its extension: what stands before the last dot, or all
/// of it where there is no dot or only one at the beginning.
pub open spec fn stem_of(name: Seq<char>) -> Seq<char> {
    match last_position(name, '.') {
        Some(i) => if i > 0 {
            name.take(i)
        } else {
            name
        },
        None => name,
    }
}

/// The stem of a path's file name.
pub open spec fn file_stem_of(path: Seq<char>) -> Option<Seq<char>> {
    match file_name_of(path) {
        Some(name) => Some(stem_of(name)),
        None => None,
    }
}

/// What `std::path::Path::parent` gives for a path.
pub uninterp spec fn parent_of(path: Seq<char>) -> Option<Seq<char>>;

/// What `std::path::Path::with_extension` gives for a path and an extension.
pub uninterp spec fn extended(path: Seq<char>, extension: Seq<char>) -> Seq<char>;

/// Whether a text is the name of a file: not empty, without a `/`, and neither
/// `.` nor `..`.
pub open spec fn is_plain_name(name: Seq<char>) -> bool {
    name.len() > 0 && crate::text::lacks(name, '/') && name != seq!['.'] && name != seq!['.', '.']
}

/// Whether a text is a directory's path in its shortest form at the end: not
/// empty, and ending neither in `/` nor in `/.`.
pub open spec fn is_trimmed_dir(dir: Seq<char>) -> bool {
    dir.len() > 0 && dir.last() != '/' && !(dir.len() > 1 && dir.last() == '.' && dir[dir.len() - 2]
        == '/')
}

/// The path of a file in a directory.
pub open spec fn in_dir(dir: Seq<char>, name: Seq<char>) -> Seq<char> {
    dir + seq!['/'] + name
}

/// The text behind the last `/` is the last piece.
proof fn lemma_last_piece(dir: Seq<char>, name: Seq<char>)
    requires
        crate::text::lacks(name, '/'),
    ensures
        crate::text::pieces(in_dir(dir, name), '/').len() > 0,
        crate::text::pieces(in_dir(dir, name), '/').last() == name,
    decreases dir.len(),
{
    crate::text::lemma_first_position(dir, '/');
    match crate::text::first_position(dir, '/') {
        None => {
            crate::text::lemma_first_piece(dir, name, '/');
            crate::text::lemma_one_piece(name, '/');
        },
        Some(i) => {
            let head = dir.take(i);
            let rest = dir.skip(i + 1);
            assert(in_dir(dir, name) =~= head + seq!['/'] + in_dir(rest, name));
            crate::text::lemma_first_piece(head, in_dir(rest, name), '/');
            lemma_last_piece(rest, name);
        },
    }
}

/// The file name of a plain name in a directory is that name.
pub proof fn lemma_file_in_dir(dir: Seq<char>, name: Seq<char>)
    requires
        is_plain_name(name),
    ensures
        file_name_of(in_dir(dir, name)) == Some(name),
{
    lemma_last_piece(dir, name);
    reveal(Seq::filter);
}

/// The last piece of a path that was joined to a directory is that path, where
/// it holds no `/`.
pub proof fn lemma_joined_last(dir: Seq<char>, name: Seq<char>)
    requires
        name.len() > 0,
        crate::text::lacks(name, '/'),
    ensures
        crate::text::pieces(joined(dir, name), '/').last() == name,
{
    assert(name[0] != '/');
    if dir.len() == 0 {
        assert(joined(dir, name) =~= name);
        crate::text::lemma_one_piece(name, '/');
    } else if dir.last() == '/' {
        assert(joined(dir, name) =~= in_dir(dir.drop_last(), name));
        lemma_last_piece(dir.drop_last(), name);
    } else {
        lemma_last_piece(dir, name);
    }
}

/// Filtered texts lack what all of the texts lack.
proof fn lemma_filter_lacks(s: Seq<Seq<char>>, keep: spec_fn(Seq<char>) -> bool, c: char)
    requires
        forall|i: int| 0 <= i < s.len() ==> crate::text::lacks(#[trigger] s[i], c),
    ensures
        forall|i: int| 0 <= i < s.filter(keep).len() ==> crate::text::lacks(
            #[trigger] s.filter(keep)[i],
            c,
        ),
    decreases s.len(),
{
    reveal(Seq::filter);
    if s.len() > 0 {
        assert forall|i: int| 0 <= i < s.drop_last().len() implies crate::text::lacks(
            #[trigger] s.drop_last()[i],
            c,
        ) by {
            assert(s.drop_last()[i] == s[i]);
        }
        let before = s.drop_last().filter(keep);
        lemma_filter_lacks(s.drop_last(), keep, c);
        assert(crate::text::lacks(s[s.len() - 1], c));
        assert forall|i: int| 0 <= i < s.filter(keep).len() implies crate::text::lacks(
            #[trigger] s.filter(keep)[i],
            c,
        ) by {
            if i < before.len() {
                assert(s.filter(keep)[i] == before[i]);
            }
        }
    }
}

/// A file name holds no `/`, and is not empty.
pub proof fn lemma_file_name(path: Seq<char>)
    ensures
        file_name_of(path) matches Some(name) ==> name.len() > 0 && crate::text::lacks(name, '/'),
{
    let keep = |c: Seq<char>| c.len() > 0 && c != seq!['.'];
    let all = crate::text::pieces(path, '/');
    crate::text::lemma_pieces_lack(path, '/');
    lemma_filter_lacks(all, keep, '/');
    broadcast use vstd::seq_lib::group_filter_ensures;

    let c = components(path);
    assert(c == all.filter(keep));
    if c.len() > 0 {
        assert(crate::text::lacks(c[c.len() - 1], '/'));
        assert(keep(c[c.len() - 1]));
    }
}

/// What stands before the last dot of a file name holds no `/` where the name
/// holds none.
pub proof fn lemma_stem(name: Seq<char>)
    ensures
        stem_of(name).len() <= name.len(),
        forall|i: int| 0 <= i < stem_of(name).len() ==> #[trigger] stem_of(name)[i] == name[i],
{
    lemma_last_position(name, '.');
}

/// `last_position` names an index that holds `c`.
proof fn lemma_last_position(s: Seq<char>, c: char)
    ensures
        last_position(s, c) matches Some(i) ==> 0 <= i < s.len() && s[i] == c,
    decreases s.len(),
{
    if s.len() > 0 && s.last() != c {
        lemma_last_position(s.drop_last(), c);
    }
}

/// `std::path::Path::file_name`: claims that it is the last component that is
/// neither empty nor `.`, and that there is none where that component is `..`.
#[verifier::external_body]
pub(crate) fn file_name(path: &str) -> (r: Option<String>)
    ensures
        crate::text::text_of(r) == file_name_of(path@),
{
    std::path::Path::new(path).file_name().and_then(|n| n.to_str()).map(|n| n.to_owned())
}

/// `std::path::Path::file_stem`: claims that it is the file name up to its
/// last dot, a dot at the beginning not counted.
#[verifier::external_body]
pub(crate) fn file_stem(path: &str) -> (r: Option<String>)
    ensures
        crate::text::text_of(r) == file_stem_of(path@),
{
    std::path::Path::new(path).file_stem().and_then(|n| n.to_str()).map(|n| n.to_owned())
}

/// `std::path::Path::parent`: claims that the parent of a plain file name in a
/// directory is that directory, and that an absolute path that ends in a file
/// name has a parent, which is absolute. How repeated separators and `.`
/// components are dropped from the end is left to the name `parent_of`.
#[verifier::external_body]
pub(crate) fn parent(path: &str) -> (r: Option<String>)
    ensures
        crate::text::text_of(r) == parent_of(path@),
        forall|dir: Seq<char>, name: Seq<char>|
            is_trimmed_dir(dir) && is_plain_name(name) && path@ == #[trigger] in_dir(dir, name)
                ==> crate::text::text_of(r) == Some(dir),
        crate::models::common::is_absolute(path@) && file_name_of(path@) is Some ==> r is Some
            && crate::models::common::is_absolute(r->0@),
{
    std::path::Path::new(path).parent().and_then(|p| p.to_str()).map(|p| p.to_owned())
}

/// `std::path::Path::with_extension`: claims that a plain file name in a
/// directory keeps its stem and gets the extension behind a dot. What becomes
/// of other paths, of a name whose stem is a single dot, and of an empty
/// extension, is left to the name `extended`.
#[verifier::external_body]
pub(crate) fn with_extension(path: &str, extension: &str) -> (r: String)
    requires
        crate::text::lacks(extension@, '/'),
    ensures
        r@ == extended(path@, extension@),
        forall|dir: Seq<char>, name: Seq<char>|
            is_plain_name(name) && stem_of(name) != seq!['.'] && extension@.len() > 0 && path@
                == #[trigger] in_dir(dir, name) ==> r@ == in_dir(dir, stem_of(name)) + seq!['.'] + extension@,
{
    let p = std::path::Path::new(path).with_extension(extension);
    p.to_str().map(|s| s.to_owned()).unwrap_or_default()
}

/// A path joined to a directory: an absolute one stands for itself.
pub open spec fn joined(dir: Seq<char>, path: Seq<char>) -> Seq<char> {
    if path.len() > 0 && path[0] == '/' {
        path
    } else if dir.len() == 0 || dir.last() == '/' {
        dir + path
    } else {
        in_dir(dir, path)
    }
}

/// Joins a path to a directory.
pub fn join(dir: &str, path: &str) -> (r: String)
    ensures
        r@ == joined(dir@, path@),
{
    let d = chars_of(dir);
    let p = chars_of(path);
    if p.len() > 0 && p[0] == '/' {
        return path.to_owned();
    }
    let mut r = dir.to_owned();
    if d.len() > 0 && d[d.len() - 1] != '/' {
        proof {
            reveal_strlit("/");
        }
        r.append("/");
        assert("/"@ =~= seq!['/']);
    }
    r.append(path);
    r
}

/// Joining: an absolute path stands for itself, and any other is put behind
/// the directory with exactly one `/` between them, or none where the
/// directory is empty.
pub proof fn law_join(dir: &str, path: &str, r: String)
    requires
        call_ensures(join, (dir, path), r),
    ensures
        path@.len() > 0 && path@[0] == '/' ==> r@ == path@,
        !(path@.len() > 0 && path@[0] == '/') && dir@.len() == 0 ==> r@ == path@,
        !(path@.len() > 0 && path@[0] == '/') && dir@.len() > 0 && dir@.last() == '/' ==> r@
            == dir@ + path@,
        !(path@.len() > 0 && path@[0] == '/') && dir@.len() > 0 && dir@.last() != '/' ==> r@
            == dir@ + seq!['/'] + path@,
{
}

} // verus!
