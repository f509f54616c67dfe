//! File paths, held as UTF-8 strings.

use vstd::prelude::*;

verus! {

/// The path `std::path::Path::with_extension` gives for `path` and `ext`.
pub uninterp spec fn spec_with_extension(path: Seq<char>, ext: Seq<char>) -> Seq<char>;

/// `ext` holds no path separator on any platform: neither `/` (a separator
/// everywhere) nor `\\` (a separator on Windows).
pub open spec fn no_path_separator(ext: Seq<char>) -> bool {
    !ext.contains('/') && !ext.contains('\\')
}

/// `std::path::Path::with_extension`: the path with its extension replaced by
/// (or, when it has none, extended with) `ext`. The path is built from and
/// turned back into UTF-8 text, which is lossless for UTF-8 input.
/// Claims: the result depends on the two strings alone (for a given target:
/// which characters separate path components differs between Unix and
/// Windows). The call panics when `ext` holds a path separator, so such an
/// extension is excluded.
#[verifier::external_body]
pub(crate) fn with_extension(path: &str, ext: &str) -> (r: String)
    requires
        no_path_separator(ext@),
    ensures
        r@ == spec_with_extension(path@, ext@),
{
    std::path::Path::new(path).with_extension(ext).to_string_lossy().into_owned()
}

} // verus!
