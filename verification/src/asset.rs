//! The boundary to the platform's path syntax. The asset parser itself runs
//! outside the library (it may reject or even abort on a malformed file, and
//! it reads the file system); its records enter the loader as plain values
//! and are validated there.

use vstd::prelude::*;
use std::path::Path;

verus! {

/// The path of the file named `name` in the directory holding `asset`, by the
/// platform's path syntax.
pub uninterp spec fn sibling_of(asset: Seq<char>, name: Seq<char>) -> Seq<char>;

/// Relies on std::path::Path::parent and Path::join: resolves `name` against
/// the directory holding `asset`. The result is a pure function of the two
/// strings and the platform's compile-time path syntax; no input panics.
#[verifier::external_body]
pub(crate) fn resolve_sibling(asset: &str, name: &str) -> (r: String)
    ensures
        r@ == sibling_of(asset@, name@),
{
    match Path::new(asset).parent() {
        Some(dir) => dir.join(name).to_string_lossy().into_owned(),
        None => name.to_owned(),
    }
}

} // verus!
