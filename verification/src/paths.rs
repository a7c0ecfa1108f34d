//! Paths as the engine holds them: texts, put together by the standard
//! library's own rules for the platform.

use vstd::prelude::*;

verus! {

/// The path that `std::path::Path::join` makes of a base and a part, both
/// taken as texts.
pub uninterp spec fn path_join(base: Seq<char>, part: Seq<char>) -> Seq<char>;

/// The last component of a path as `std::path::Path::file_name` gives it;
/// none where the path ends in `..` or has no component.
pub uninterp spec fn path_file_name(path: Seq<char>) -> Option<Seq<char>>;

/// Whether a path is absolute, as `std::path::Path::is_absolute` says.
pub uninterp spec fn path_is_absolute(path: Seq<char>) -> bool;

/// Whether a path begins with the components of a base, all of them and
/// whole, as `std::path::Path::starts_with` says.
pub uninterp spec fn path_starts_with(path: Seq<char>, base: Seq<char>) -> bool;

/// Whether a path lies below a base: it begins with the base and is more
/// than the base.
pub open spec fn path_under(path: Seq<char>, base: Seq<char>) -> bool {
    path_starts_with(path, base) && !path_starts_with(base, path)
}

/// Whether two paths are the same path: each begins with the other.
pub open spec fn same_path(a: Seq<char>, b: Seq<char>) -> bool {
    path_starts_with(a, b) && path_starts_with(b, a)
}

/// `std::path::Path::is_absolute` on a text, named by [`path_is_absolute`].
#[verifier::external_body]
pub(crate) fn is_absolute(path: &str) -> (r: bool)
    ensures
        r == path_is_absolute(path@),
{
    std::path::Path::new(path).is_absolute()
}

/// `std::path::Path::starts_with` on texts, named by [`path_starts_with`].
#[verifier::external_body]
pub(crate) fn starts_with(path: &str, base: &str) -> (r: bool)
    ensures
        r == path_starts_with(path@, base@),
{
    std::path::Path::new(path).starts_with(base)
}

/// `std::path::Path::join` on texts: the result is the standard library's
/// adjoined path, named by [`path_join`]. Both texts are UTF-8, so nothing is
/// lost when the joined path is turned back into a text.
#[verifier::external_body]
pub(crate) fn join(base: &str, part: &str) -> (r: String)
    ensures
        r@ == path_join(base@, part@),
{
    std::path::Path::new(base).join(part).to_string_lossy().into_owned()
}

/// `std::path::Path::file_name` on a text: the final component, named by
/// [`path_file_name`].
#[verifier::external_body]
pub(crate) fn file_name(path: &str) -> (r: Option<String>)
    ensures
        match r {
            Some(name) => path_file_name(path@) == Some(name@),
            None => path_file_name(path@) is None,
        },
{
    std::path::Path::new(path).file_name().map(|name| name.to_string_lossy().into_owned())
}

} // verus!
