//! File-system paths as text, joined and taken apart by `std::path`.

use vstd::prelude::*;
use crate::views::text_of;

verus! {

/// The path that `PathBuf::push` leaves when `segment` is pushed onto the
/// path `base`.
pub uninterp spec fn pushed_path(base: Seq<char>, segment: Seq<char>) -> Seq<char>;

/// The extension that `Path::extension` finds in `path`, without its dot.
pub uninterp spec fn extension_of(path: Seq<char>) -> Option<Seq<char>>;

/// `PathBuf::push`: the path `base`, extended by `segment`. The path is made
/// of text and handed back as text; pushing text onto text leaves text, so
/// nothing is lost on the way.
#[verifier::external_body]
pub(crate) fn push_path(base: &str, segment: &str) -> (joined: String)
    ensures
        joined@ == pushed_path(base@, segment@),
{
    let mut path = std::path::PathBuf::from(base);
    path.push(segment);
    path.to_string_lossy().into_owned()
}

/// `Path::extension`: the extension of the file that `path` names, if it has
/// one. It is a part of `path`, and so text.
#[verifier::external_body]
pub(crate) fn path_extension(path: &str) -> (extension: Option<String>)
    ensures
        text_of(extension) == extension_of(path@),
{
    match std::path::Path::new(path).extension() {
        Some(extension) => Some(extension.to_string_lossy().into_owned()),
        None => None,
    }
}

} // verus!
