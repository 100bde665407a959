//! What the Rust grammar accepts, as syn parses it.
use vstd::prelude::*;

verus! {

/// Whether the text parses, as a whole, as a Rust path (`a::b::C<T>`).
pub uninterp spec fn is_path_syntax(s: Seq<char>) -> bool;

/// Relies on `syn::parse_str::<syn::Path>`: it succeeds exactly when the whole
/// text is one path, and depends on the text alone.
#[verifier::external_body]
pub(crate) fn parses_as_path(s: &str) -> (r: bool)
    ensures
        r == is_path_syntax(s@),
{
    syn::parse_str::<syn::Path>(s).is_ok()
}

} // verus!
