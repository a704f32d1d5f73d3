use vstd::prelude::*;

verus! {

/// What `std::path::Path::parent` gives for the path written as `p`, as text.
pub uninterp spec fn path_parent_of(p: Seq<char>) -> Option<Seq<char>>;

/// What `std::path::Path::file_name` gives for the path written as `p`, as text.
pub uninterp spec fn path_file_name_of(p: Seq<char>) -> Option<Seq<char>>;

/// The index of the last `.` of `name`, or -1 where it has none.
pub open spec fn last_dot(name: Seq<char>) -> int
    decreases name.len(),
{
    if name.len() == 0 {
        -1
    } else if name.last() == '.' {
        name.len() - 1
    } else {
        last_dot(name.drop_last())
    }
}

/// The index of the last `/` of `p`, or -1 where it has none.
pub open spec fn last_slash(p: Seq<char>) -> int
    decreases p.len(),
{
    if p.len() == 0 {
        -1
    } else if p.last() == '/' {
        p.len() - 1
    } else {
        last_slash(p.drop_last())
    }
}

/// What precedes the last component of `p`: everything up to and including
/// its last `/`.
pub open spec fn dir_part(p: Seq<char>) -> Seq<char> {
    p.subrange(0, last_slash(p) + 1)
}

/// What follows the last `/` of `p`.
pub open spec fn last_part(p: Seq<char>) -> Seq<char> {
    p.subrange(last_slash(p) + 1, p.len() as int)
}

/// A plain file name: not empty, not `.` or `..`, and holding no character
/// that a path gives a meaning to (`/`, `\`, `:`).
pub open spec fn plain_name(n: Seq<char>) -> bool {
    &&& n.len() > 0
    &&& !n.contains('/')
    &&& !n.contains('\\')
    &&& !n.contains(':')
    &&& n != "."@
    &&& n != ".."@
}

/// The stem of the file name `n`: `n` up to its last `.`, or all of `n` where
/// it has no `.` or only a leading one.
pub open spec fn file_stem_of_name(n: Seq<char>) -> Seq<char> {
    if last_dot(n) > 0 {
        n.subrange(0, last_dot(n))
    } else {
        n
    }
}

/// The file name of the path `p`: its last component where that is a plain
/// name, and otherwise what `Path::file_name` gives.
pub open spec fn file_name_of(p: Seq<char>) -> Option<Seq<char>> {
    if plain_name(last_part(p)) {
        Some(last_part(p))
    } else {
        path_file_name_of(p)
    }
}

/// The extension of a path whose file name is `name`: none without a file
/// name, without a `.` in it, or where its only `.` leads it; otherwise what
/// follows its last `.`.
pub open spec fn extension_of_name(name: Option<Seq<char>>) -> Option<Seq<char>> {
    match name {
        None => None,
        Some(n) => if last_dot(n) <= 0 {
            None
        } else {
            Some(n.subrange(last_dot(n) + 1, n.len() as int))
        },
    }
}

/// The path written as `p` after `std::path::PathBuf::set_extension(ext)`, as text.
pub uninterp spec fn path_with_extension_of(p: Seq<char>, ext: Seq<char>) -> Seq<char>;

/// Whether `std::path::Path`'s `==` holds of the paths written as `a` and `b`
/// (it compares them component by component, not as text).
pub uninterp spec fn paths_equal(a: Seq<char>, b: Seq<char>) -> bool;

/// The view of an optional string.
pub open spec fn opt_view(o: Option<String>) -> Option<Seq<char>> {
    match o {
        Some(s) => Some(s@),
        None => None,
    }
}

/// `Path::parent`: the path without its last component, or `None` for a root
/// or an empty path. The contract names the result and states nothing more.
#[verifier::external_body]
pub(crate) fn path_parent(p: &str) -> (r: Option<String>)
    ensures
        opt_view(r) == path_parent_of(p@),
{
    std::path::Path::new(p).parent().map(|q| q.to_string_lossy().into_owned())
}

/// `Path::file_name`: the last component unless it is `..`. The contract names
/// the result; of a path whose last component (after its last `/`) is a plain
/// name it also states, as the documentation says, that this is the file name.
#[verifier::external_body]
pub(crate) fn path_file_name(p: &str) -> (r: Option<String>)
    ensures
        opt_view(r) == path_file_name_of(p@),
        plain_name(last_part(p@)) ==> opt_view(r) == Some(last_part(p@)),
{
    std::path::Path::new(p).file_name().map(|f| f.to_string_lossy().into_owned())
}

/// `Path::extension`: as its documentation says, `None` where there is no file
/// name, no `.` in it, or only a leading `.`; otherwise the part of the file
/// name after its last `.`. The file name itself is the named
/// `path_file_name_of`, which for a last component that is a plain name is that
/// component (`file_name_of`).
#[verifier::external_body]
pub(crate) fn path_extension(p: &str) -> (r: Option<String>)
    ensures
        opt_view(r) == extension_of_name(path_file_name_of(p@)),
        opt_view(r) == extension_of_name(file_name_of(p@)),
{
    std::path::Path::new(p).extension().map(|e| e.to_string_lossy().into_owned())
}

/// `PathBuf::set_extension`: replaces (or with an empty `ext` removes) the
/// extension of the file name. That method panics on an extension that holds a
/// path separator, which `requires` leaves out. The contract names the result;
/// of a path that is a single file name without a `.` (no separator, no drive
/// prefix, not empty) it also states, as the documentation says, that a
/// non-empty extension is added after a `.`; and of a path whose last component
/// is a plain name, that the stem of that name is kept and the new extension,
/// if not empty, follows it after a `.`.
#[verifier::external_body]
pub(crate) fn path_with_extension(p: &str, ext: &str) -> (r: String)
    requires
        !ext@.contains('/'),
        !ext@.contains('\\'),
    ensures
        r@ == path_with_extension_of(p@, ext@),
        p@.len() > 0 && !p@.contains('/') && !p@.contains('\\') && !p@.contains(':') && !p@.contains('.')
            && ext@.len() > 0 ==> r@ == p@ + "."@ + ext@,
        plain_name(last_part(p@)) ==> r@ == dir_part(p@) + file_stem_of_name(last_part(p@)) + (if ext@.len()
            > 0 {
            "."@ + ext@
        } else {
            Seq::empty()
        }),
{
    let mut buf = std::path::PathBuf::from(p);
    buf.set_extension(ext);
    buf.to_string_lossy().into_owned()
}

/// `==` on `Path`: equal when the components are equal. The contract names the
/// result and states nothing more.
#[verifier::external_body]
pub(crate) fn same_path(a: &str, b: &str) -> (r: bool)
    ensures
        r == paths_equal(a@, b@),
{
    std::path::Path::new(a) == std::path::Path::new(b)
}

/// The last `/` of a path followed by text without `/` is the path's own.
proof fn lemma_last_slash_append(a: Seq<char>, b: Seq<char>)
    requires
        !b.contains('/'),
    ensures
        last_slash(a + b) == last_slash(a),
    decreases b.len(),
{
    if b.len() > 0 {
        assert((a + b).drop_last() =~= a + b.drop_last());
        assert((a + b).last() == b.last());
        assert(b.contains(b.last()) ) by {
            assert(b[b.len() - 1] == b.last());
        }
        if !b.drop_last().contains('/') {
            lemma_last_slash_append(a, b.drop_last());
        } else {
            let i = choose|i: int| 0 <= i < b.drop_last().len() && b.drop_last()[i] == '/';
            assert(b[i] == '/');
        }
    } else {
        assert(a + b =~= a);
    }
}

/// `last_slash` lies within `p`, and where it is not -1 it points at a `/`.
proof fn lemma_last_slash_bounds(p: Seq<char>)
    ensures
        -1 <= last_slash(p) < p.len(),
        last_slash(p) >= 0 ==> p[last_slash(p)] == '/',
        forall|i: int| last_slash(p) < i < p.len() ==> p[i] != '/',
    decreases p.len(),
{
    if p.len() > 0 && p.last() != '/' {
        lemma_last_slash_bounds(p.drop_last());
        assert forall|i: int| last_slash(p) < i < p.len() implies p[i] != '/' by {
            if i < p.len() - 1 {
                assert(p.drop_last()[i] == p[i]);
            }
        }
    }
}

/// Replacing the last component of a path by text without `/` makes that text
/// the last component.
pub proof fn lemma_last_part_after_dir(p: Seq<char>, name: Seq<char>)
    requires
        !name.contains('/'),
    ensures
        last_part(dir_part(p) + name) == name,
        dir_part(dir_part(p) + name) == dir_part(p),
{
    lemma_last_slash_bounds(p);
    let d = dir_part(p);
    assert(last_slash(d) == last_slash(p)) by {
        if last_slash(p) >= 0 {
            assert(d.last() == '/');
        } else {
            assert(d.len() == 0);
        }
    }
    lemma_last_slash_append(d, name);
    assert(last_part(d + name) =~= name);
    assert(dir_part(d + name) =~= d);
}

} // verus!
