//! Paths, which the library holds as `camino::Utf8PathBuf` and reasons about
//! as the text that they are written with.

use vstd::prelude::*;
use camino::Utf8PathBuf;

verus! {

/// `camino::Utf8PathBuf`, a path that is known to be valid UTF-8. No field of
/// it is read here.
#[verifier::external_type_specification]
#[verifier::external_body]
pub struct ExUtf8PathBuf(camino::Utf8PathBuf);

/// The text that a path is written with: what `Utf8Path::as_str` returns of
/// it.
pub uninterp spec fn path_text(path: Utf8PathBuf) -> Seq<char>;

/// What `Utf8Path::join` makes of a path written `base` and a path written
/// `path`, as text: `path` adjoined to `base` by the path rules of the
/// platform that the library is built for, under which an absolute `path`
/// takes the place of `base`.
pub uninterp spec fn joined(base: Seq<char>, path: Seq<char>) -> Seq<char>;

/// `Utf8PathBuf::from` on a `String`: the path that is written `text`. The
/// text is kept as it is, neither checked nor normalised.
#[verifier::external_body]
pub(crate) fn path_from(text: String) -> (path: Utf8PathBuf)
    ensures
        path_text(path) == text@,
{
    Utf8PathBuf::from(text)
}

/// `Utf8Path::join`: `path` adjoined to `base`.
#[verifier::external_body]
pub(crate) fn path_join(base: &Utf8PathBuf, path: &str) -> (whole: Utf8PathBuf)
    ensures
        path_text(whole) == joined(path_text(*base), path@),
{
    base.join(path)
}

} // verus!
