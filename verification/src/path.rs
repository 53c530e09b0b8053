//! File paths as text.

use vstd::prelude::*;

verus! {

/// The position of the last `c` in `s`; -1 where there is none.
pub open spec fn last_at(s: Seq<char>, c: char) -> int
    decreases s.len(),
{
    if s.len() == 0 {
        -1
    } else if s.last() == c {
        s.len() - 1
    } else {
        last_at(s.drop_last(), c)
    }
}

/// [`last_at`] is the one position of a `c` that no other `c` follows.
pub proof fn last_at_is(s: Seq<char>, c: char, k: int)
    requires
        -1 <= k < s.len(),
        k >= 0 ==> s[k] == c,
        forall|i: int| k < i < s.len() ==> s[i] != c,
    ensures
        last_at(s, c) == k,
    decreases s.len(),
{
    if s.len() > 0 && s.last() != c {
        last_at_is(s.drop_last(), c, k);
    }
}

/// At [`last_at`] there is a `c`, and none follows it.
pub proof fn last_at_found(s: Seq<char>, c: char)
    ensures
        -1 <= last_at(s, c) < s.len(),
        last_at(s, c) >= 0 ==> s[last_at(s, c)] == c,
        forall|i: int| last_at(s, c) < i < s.len() ==> s[i] != c,
    decreases s.len(),
{
    if s.len() > 0 && s.last() != c {
        let rest = s.drop_last();
        last_at_found(rest, c);
        assert forall|i: int| last_at(s, c) < i < s.len() implies s[i] != c by {
            if i < rest.len() {
                assert(rest[i] == s[i]);
            }
        }
    }
}

/// The later of two positions.
pub open spec fn later(a: int, b: int) -> int {
    if a >= b {
        a
    } else {
        b
    }
}

/// The position of the last slash or backslash in `path`; -1 where there is
/// none.
pub open spec fn last_slash(path: Seq<char>) -> int {
    later(last_at(path, '/'), last_at(path, '\\'))
}

/// The position of the last character in `path` that separates its components
/// on some platform: a slash, a backslash or a colon; -1 where there is none.
pub open spec fn last_separator(path: Seq<char>) -> int {
    later(last_slash(path), last_at(path, ':'))
}

/// Whether `c` is a slash or a backslash.
pub open spec fn any_slash(c: char) -> bool {
    c == '/' || c == '\\'
}

/// Whether `path` plainly ends in a file name, on Unix and on Windows alike.
/// It does not end in a separator, nor in a component `.` or one that begins
/// with two dots, and it does not begin with two slashes or backslashes, which
/// on Windows name a share or a device.
pub open spec fn named(path: Seq<char>) -> bool {
    let name = last_separator(path) + 1;
    &&& name < path.len()
    &&& path[name] == '.' ==> name + 1 < path.len() && path[name + 1] != '.'
    &&& !(path.len() > 1 && any_slash(path[0]) && any_slash(path[1]))
}

/// Whether, moreover, Unix and Windows find the same extension at the end of
/// `path`. They do where its last component begins after a slash. Where one of
/// them lets it begin after a backslash or a colon and the other after an
/// earlier slash, they do if there is no dot after that slash, or if there is
/// one inside the shorter of the two components, which does not begin with a
/// dot.
pub open spec fn named_alike(path: Seq<char>) -> bool {
    let slash = last_at(path, '/');
    let separator = last_separator(path);
    let dot = last_at(path, '.');
    &&& named(path)
    &&& separator == slash || dot <= slash || (dot > separator + 1 && path[separator + 1] != '.')
}

/// Whether a component of `path` begins at `i`, for components between slashes.
pub open spec fn component_at(path: Seq<char>, i: int) -> bool {
    i == 0 || path[i - 1] == '/'
}

/// Whether Unix and Windows take `path` apart in the same way, at its slashes,
/// with nothing to skip: it plainly ends in a file name, has no backslash and
/// no colon, no empty component but the one before a leading slash, and no
/// component `.` but a leading one.
pub open spec fn portable(path: Seq<char>) -> bool {
    &&& named(path)
    &&& forall|i: int| 0 <= i < path.len() ==> #[trigger] path[i] != '\\' && path[i] != ':'
    &&& forall|i: int|
        0 <= i < path.len() && #[trigger] component_at(path, i) ==> {
            &&& path[i] == '/' ==> i == 0
            &&& path[i] == '.' && path[i + 1] == '/' ==> i == 0
        }
}

/// The directory that a portable path names a file in: what stands before the
/// last slash; the root where that slash is the first character; the empty
/// path where there is no slash.
pub open spec fn directory(path: Seq<char>) -> Seq<char> {
    let slash = last_at(path, '/');
    if slash < 0 {
        Seq::empty()
    } else if slash == 0 {
        path.take(1)
    } else {
        path.take(slash)
    }
}

/// Whether the character at `i` does not count in a path: it is a slash or a
/// backslash, or a dot between two of these.
pub open spec fn skipped_at(path: Seq<char>, i: int) -> bool {
    any_slash(path[i]) || (path[i] == '.' && 0 < i < path.len() - 1 && any_slash(path[i - 1])
        && any_slash(path[i + 1]))
}

/// Whether the first `n` characters of `path` are all that counts up to and
/// with the slash or backslash at `cut` (none where `cut` is -1).
pub open spec fn reaches(path: Seq<char>, n: int, cut: int) -> bool {
    &&& n <= cut + 1
    &&& cut >= 0 ==> n >= 1
    &&& forall|i: int| n <= i <= cut ==> #[trigger] skipped_at(path, i)
}

/// The path with another extension: its last component (after the last slash)
/// without what stands from its last dot on (unless that dot begins the
/// component), then a dot and the extension.
pub open spec fn sibling(path: Seq<char>, extension: Seq<char>) -> Seq<char> {
    let dot = last_at(path, '.');
    let stem = if dot > last_at(path, '/') + 1 {
        dot
    } else {
        path.len() as int
    };
    path.take(stem) + "."@ + extension
}

/// What is known of the parent of `path` on Unix and on Windows. It is a
/// shorter prefix of the path. A path that plainly ends in a file name has
/// one: what counts of the path up to its last slash (on Unix), slash or
/// backslash (on Windows); there it is the drive where a file is named right
/// after that. The parent of a portable path is its directory.
pub open spec fn is_parent(path: Seq<char>, parent: Option<Seq<char>>) -> bool {
    &&& parent matches Some(dir) ==> dir.len() < path.len() && dir.is_prefix_of(path)
    &&& named(path) ==> (parent matches Some(dir) && {
        ||| reaches(path, dir.len() as int, last_at(path, '/'))
        ||| reaches(path, dir.len() as int, last_slash(path))
        ||| last_slash(path) < 0 && path[1] == ':' && dir.len() == 2
    })
    &&& portable(path) ==> parent == Some(directory(path))
}

/// What is known of `path` with another extension on Unix and on Windows. It
/// is a prefix of the path (such as the path itself, where it has no file
/// name), or one with a dot and the extension. Of a path that plainly ends in
/// a file name an extension with a dot in it makes another path, as the
/// extension of a path has none. Where both platforms find the same extension,
/// it is replaced.
pub open spec fn is_with_extension(
    path: Seq<char>,
    extension: Seq<char>,
    changed: Seq<char>,
) -> bool {
    &&& changed.is_prefix_of(path) || exists|n: int|
        0 <= n <= path.len() && changed == #[trigger] path.take(n) + "."@ + extension
    &&& named(path) && extension.contains('.') ==> changed != path
    &&& named_alike(path) ==> changed == sibling(path, extension)
}

/// `std::path::Path::parent`: the path without its final component; `None`
/// only where it ends in a root or a prefix, or is empty. What the components
/// are depends on the platform: a backslash and the colon after a drive
/// separate them on Windows only. So nothing is said of which of these
/// separators counts, nor, where a path does not plainly end in a file name,
/// of more than that the parent is a shorter prefix.
#[verifier::external_body]
pub(crate) fn parent(path: &str) -> (r: Option<String>)
    ensures
        is_parent(
            path@,
            match r {
                Some(dir) => Some(dir@),
                None => None,
            },
        ),
{
    match std::path::Path::new(path).parent() {
        Some(dir) => Some(dir.display().to_string()),
        None => None,
    }
}

/// `std::path::Path::with_extension`: the path with its extension replaced, or
/// added where there is none; a path without a file name stays as it is. What
/// the file name is depends on the platform, so where platforms may differ
/// nothing is said but that a prefix of the path is kept, and, of a path that
/// plainly ends in a file name, that it does not stay as it is. An extension
/// with a separator in it would make it panic.
#[verifier::external_body]
pub(crate) fn with_extension(path: &str, extension: &str) -> (r: String)
    requires
        extension@.len() > 0,
        forall|i: int|
            0 <= i < extension@.len() ==> #[trigger] extension@[i] != '/' && extension@[i] != '\\',
    ensures
        is_with_extension(path@, extension@, r@),
{
    std::path::Path::new(path).with_extension(extension).display().to_string()
}

/// Putting characters without `c` behind a prefix of `s` that reaches beyond
/// its last `c` leaves that one the last.
proof fn lemma_last_at_kept(s: Seq<char>, c: char, n: int, tail: Seq<char>)
    requires
        last_at(s, c) < n <= s.len(),
        forall|i: int| 0 <= i < tail.len() ==> tail[i] != c,
    ensures
        last_at(s.take(n) + tail, c) == last_at(s, c),
{
    last_at_found(s, c);
    last_at_is(s.take(n) + tail, c, last_at(s, c));
}

/// A path with another extension is in the same directory, where platforms
/// agree on its extension: it is the same up to its last separator, and what
/// follows has none. With an extension that has a dot in it, it is another
/// path.
pub proof fn siblings_share_a_directory(path: Seq<char>, extension: Seq<char>)
    requires
        named_alike(path),
        forall|i: int|
            0 <= i < extension.len() ==> !any_slash(#[trigger] extension[i]) && extension[i] != ':',
    ensures
        path.take(last_separator(path) + 1).is_prefix_of(sibling(path, extension)),
        last_separator(sibling(path, extension)) == last_separator(path),
        last_slash(sibling(path, extension)) == last_slash(path),
        directory(sibling(path, extension)) == directory(path),
        extension.contains('.') ==> sibling(path, extension) != path,
{
    let slash = last_at(path, '/');
    let dot = last_at(path, '.');
    let other = sibling(path, extension);
    reveal_strlit(".");
    last_at_found(path, '/');
    last_at_found(path, '\\');
    last_at_found(path, ':');
    last_at_found(path, '.');
    let stem = if dot > slash + 1 {
        dot
    } else {
        path.len() as int
    };
    let tail = "."@ + extension;
    assert(other =~= path.take(stem) + tail);
    assert(forall|i: int|
        0 <= i < tail.len() ==> !any_slash(#[trigger] tail[i]) && tail[i] != ':');
    lemma_last_at_kept(path, '/', stem, tail);
    lemma_last_at_kept(path, '\\', stem, tail);
    lemma_last_at_kept(path, ':', stem, tail);
    if extension.contains('.') {
        let at = choose|i: int| 0 <= i < extension.len() && extension[i] == '.';
        assert(other[stem + 1 + at] == '.');
    }
    if slash > 0 {
        assert(other.take(slash) =~= path.take(slash));
    } else if slash == 0 {
        assert(other.take(1) =~= path.take(1));
    }
}

} // verus!
