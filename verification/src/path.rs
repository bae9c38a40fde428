//! What the library reads of a path: the kinds of its components, its
//! final name and that name's extension.  The parsing itself is
//! `std::path`'s, which differs between platforms; the contracts below
//! state only what holds on every platform.

use vstd::prelude::*;

use crate::text::{contains_text, ends_with, starts_with};

verus! {

/// The kind of one component of a path, as `std::path::Component` tells
/// them apart.
#[derive(Clone, Copy, Debug, PartialEq, Eq)]
pub enum PathComponent {
    Prefix,
    RootDir,
    CurDir,
    ParentDir,
    Normal,
}

/// A component that refers to the current or the parent directory.
pub open spec fn is_relative_step(c: PathComponent) -> bool {
    c == PathComponent::CurDir || c == PathComponent::ParentDir
}

/// Whether a sequence of components holds a `.` or a `..` component.
pub open spec fn has_relative_step(parts: Seq<PathComponent>) -> bool {
    exists|i: int| 0 <= i < parts.len() && #[trigger] is_relative_step(parts[i])
}

pub open spec fn is_separator(c: char) -> bool {
    c == '/' || c == '\\'
}

/// `s[i..j]` is a whole piece of `s` between separators (or the ends).
pub open spec fn is_piece(s: Seq<char>, i: int, j: int) -> bool {
    &&& 0 <= i <= j <= s.len()
    &&& (i == 0 || is_separator(s[i - 1]))
    &&& (j == s.len() || is_separator(s[j]))
    &&& forall|k: int| i <= k < j ==> !is_separator(#[trigger] s[k])
}

/// Some piece of `s` between separators is `.` or `..`.
pub open spec fn has_dot_piece(s: Seq<char>) -> bool {
    exists|i: int, j: int|
        #[trigger] is_piece(s, i, j) && (s.subrange(i, j) == seq!['.'] || s.subrange(i, j)
            == seq!['.', '.'])
}

/// `s` is `.` or begins with `./`: it starts with a `.` piece on every
/// platform.
pub open spec fn starts_with_current_piece(s: Seq<char>) -> bool {
    s == seq!['.'] || starts_with(s, seq!['.', '/'])
}

/// `s` is `.` or begins with `.` and a separator: on some platform it
/// starts with a `.` piece.
pub open spec fn may_start_with_current_piece(s: Seq<char>) -> bool {
    s == seq!['.'] || (s.len() >= 2 && s[0] == '.' && is_separator(s[1]))
}

/// `s` begins with two separators, where Windows reads a network share,
/// a device or a verbatim prefix.
pub open spec fn leading_double_separator(s: Seq<char>) -> bool {
    s.len() >= 2 && is_separator(s[0]) && is_separator(s[1])
}

/// `s[i..j]` is a whole piece of `s` between `/` separators (or the ends).
pub open spec fn is_slash_piece(s: Seq<char>, i: int, j: int) -> bool {
    &&& 0 <= i <= j <= s.len()
    &&& (i == 0 || s[i - 1] == '/')
    &&& (j == s.len() || s[j] == '/')
    &&& forall|k: int| i <= k < j ==> #[trigger] s[k] != '/'
}

/// Some piece of `s` between `/` separators is `..`.
pub open spec fn has_slash_parent_piece(s: Seq<char>) -> bool {
    exists|i: int, j: int| #[trigger] is_slash_piece(s, i, j) && s.subrange(i, j) == seq!['.', '.']
}

/// Some piece of `s` between separators of any kind is `..`.
pub open spec fn has_parent_piece(s: Seq<char>) -> bool {
    exists|i: int, j: int| #[trigger] is_piece(s, i, j) && s.subrange(i, j) == seq!['.', '.']
}

/// A name that every platform reads as a single ordinary component: not
/// empty, not `.` or `..`, and without separators or a drive colon.
pub open spec fn is_plain_name(s: Seq<char>) -> bool {
    &&& s.len() > 0
    &&& s != seq!['.']
    &&& s != seq!['.', '.']
    &&& forall|k: int| 0 <= k < s.len() ==> !is_separator(#[trigger] s[k]) && s[k] != ':'
}

/// The position of the last `c` in `s`, or -1.
pub open spec fn last_index_of(s: Seq<char>, c: char) -> int
    decreases s.len(),
{
    if s.len() == 0 {
        -1
    } else if s.last() == c {
        s.len() - 1
    } else {
        last_index_of(s.drop_last(), c)
    }
}

/// The last `c` lies inside `s`, and none follows it.
pub proof fn lemma_last_index_bounds(s: Seq<char>, c: char)
    ensures
        -1 <= last_index_of(s, c) < s.len(),
        last_index_of(s, c) >= 0 ==> s[last_index_of(s, c)] == c,
        forall|k: int| last_index_of(s, c) < k < s.len() ==> s[k] != c,
    decreases s.len(),
{
    if s.len() > 0 && s.last() != c {
        lemma_last_index_bounds(s.drop_last(), c);
        assert forall|k: int| last_index_of(s, c) < k < s.len() implies s[k] != c by {
            if k < s.len() - 1 {
                assert(s[k] == s.drop_last()[k]);
            }
        }
    }
}

/// What follows the last `/` of `s` (all of `s` when it has none).
pub open spec fn final_piece(s: Seq<char>) -> Seq<char> {
    s.subrange(last_index_of(s, '/') + 1, s.len() as int)
}

/// A path whose final `/` piece every platform reads as its file name:
/// no `\`, no drive colon, no leading pair of separators, and a plain
/// final piece.
pub open spec fn has_plain_final_piece(s: Seq<char>) -> bool {
    &&& !s.contains('\\')
    &&& !s.contains(':')
    &&& !leading_double_separator(s)
    &&& is_plain_name(final_piece(s))
}

/// `s` without the `/` separators at its end, which every platform
/// ignores.
pub open spec fn trim_slashes(s: Seq<char>) -> Seq<char>
    decreases s.len(),
{
    if s.len() > 0 && s.last() == '/' {
        trim_slashes(s.drop_last())
    } else {
        s
    }
}

/// What follows the last separator of either kind in `s`.
pub open spec fn final_any_piece(s: Seq<char>) -> Seq<char> {
    let a = last_index_of(s, '/');
    let b = last_index_of(s, '\\');
    s.subrange(if a < b { b } else { a } + 1, s.len() as int)
}

/// `s` with a leading drive (a character and a colon) taken off.
pub open spec fn after_drive(s: Seq<char>) -> Seq<char> {
    if s.len() >= 2 && s[1] == ':' {
        s.subrange(2, s.len() as int)
    } else {
        s
    }
}

/// The extension of a file name, as `Path::extension` documents it: none
/// without an embedded `.`, none when the only `.` is the first
/// character, else what follows the final `.`.
pub open spec fn name_extension(name: Seq<char>) -> Option<Seq<char>> {
    let k = last_index_of(name, '.');
    if k <= 0 {
        None
    } else {
        Some(name.subrange(k + 1, name.len() as int))
    }
}

pub open spec fn str_option_view(o: Option<&str>) -> Option<Seq<char>> {
    match o {
        Some(s) => Some(s@),
        None => None,
    }
}

/// The file name that every platform gives `s`, where they agree: the
/// final `/` piece of a path with its trailing `/` ignored, when that
/// piece is a plain name and the path holds no `\\`, no drive colon and no
/// leading pair of separators; none for a path ending in a `..` piece
/// after a `/` (or that is `..`) that does not begin with two separators.
pub open spec fn stated_file_name(s: Seq<char>) -> Option<Option<Seq<char>>> {
    if has_plain_final_piece(trim_slashes(s)) {
        Some(Some(final_piece(trim_slashes(s))))
    } else if (s == seq!['.', '.'] || ends_with(s, seq!['/', '.', '.'])) && !leading_double_separator(
        s,
    ) {
        Some(None)
    } else {
        None
    }
}

/// The extension that every platform gives `s`, where they agree: that of
/// the file name above, or else, for a path that does not begin with two
/// separators and whose piece after the last separator of either kind is
/// a plain name with an extension, that extension.
pub open spec fn stated_extension(s: Seq<char>) -> Option<Option<Seq<char>>> {
    if has_plain_final_piece(trim_slashes(s)) {
        Some(name_extension(final_piece(trim_slashes(s))))
    } else if !leading_double_separator(s) && is_plain_name(final_any_piece(s)) && name_extension(
        final_any_piece(s),
    ) is Some {
        Some(name_extension(final_any_piece(s)))
    } else {
        None
    }
}

/// `std::path::Path::components`, each component reduced to its kind.
/// The contract claims what `std::path` documents on every platform: `..`
/// is never normalized away, `.` is, except at the beginning of the path.
/// So a path that begins with a `.` piece starts with a `.` component; a
/// `..` piece between `/` separators gives a `..` component unless the
/// path begins with two separators (where Windows reads a share or a
/// verbatim prefix); and without a `..` piece, without a leading `.`
/// piece (also after a leading drive `X:`) and without two leading
/// separators there is no `.` or `..` component.
#[verifier::external_body]
pub(crate) fn path_components(path: &str) -> (r: Vec<PathComponent>)
    ensures
        !has_dot_piece(path@) && !path@.contains(':') ==> !has_relative_step(r@),
        !has_parent_piece(path@) && !has_parent_piece(after_drive(path@))
            && !may_start_with_current_piece(path@) && !may_start_with_current_piece(
            after_drive(path@),
        ) && !leading_double_separator(path@) ==> !has_relative_step(r@),
        starts_with_current_piece(path@) ==> r@.len() > 0 && r@[0] == PathComponent::CurDir,
        has_slash_parent_piece(path@) && !leading_double_separator(path@) ==> exists|i: int|
            0 <= i < r@.len() && r@[i] == PathComponent::ParentDir,
{
    let mut parts = Vec::new();
    for component in std::path::Path::new(path).components() {
        parts.push(match component {
            std::path::Component::Prefix(_) => PathComponent::Prefix,
            std::path::Component::RootDir => PathComponent::RootDir,
            std::path::Component::CurDir => PathComponent::CurDir,
            std::path::Component::ParentDir => PathComponent::ParentDir,
            std::path::Component::Normal(_) => PathComponent::Normal,
        });
    }
    parts
}

/// `std::path::Path::file_name`, read back as text.  The contract claims
/// the file name where every platform gives the same one
/// (`stated_file_name`): the final component is the last piece, trailing
/// `/` are normalized away, and a path that ends in `..` has none.
#[verifier::external_body]
pub(crate) fn path_file_name(path: &str) -> (r: Option<&str>)
    ensures
        stated_file_name(path@) matches Some(n) ==> str_option_view(r) == n,
{
    match std::path::Path::new(path).file_name() {
        Some(name) => name.to_str(),
        None => None,
    }
}

/// `std::path::Path::extension`, read back as text.  The contract claims
/// that an extension never holds a `.`, and the extension where every
/// platform gives the same one (`stated_extension`): what follows the last
/// `.` of the file name, when the file name has a `.` after its first
/// character.
#[verifier::external_body]
pub(crate) fn path_extension(path: &str) -> (r: Option<&str>)
    ensures
        r matches Some(e) ==> !e@.contains('.'),
        stated_extension(path@) matches Some(e) ==> str_option_view(r) == e,
{
    match std::path::Path::new(path).extension() {
        Some(ext) => ext.to_str(),
        None => None,
    }
}

/// Whether some component is a `.` or a `..`.
pub fn components_have_relative_step(parts: &Vec<PathComponent>) -> (r: bool)
    ensures
        r == has_relative_step(parts@),
{
    let n = parts.len();
    for i in 0..n
        invariant
            n == parts.len(),
            forall|j: int| 0 <= j < i ==> !#[trigger] is_relative_step(parts@[j]),
    {
        match parts[i] {
            PathComponent::CurDir | PathComponent::ParentDir => {
                assert(is_relative_step(parts@[i as int]));
                return true;
            },
            _ => {},
        }
    }
    false
}

} // verus!
