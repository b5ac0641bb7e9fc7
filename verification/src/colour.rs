//! Resolving raw field text to a display colour.
//!
//! A display colour is any non-empty string the rendering surface understands
//! (a colour name, a hex code, an `rgb(...)` or `hsl(...)` expression). The
//! resolver performs no structural validation: non-empty text passes through
//! verbatim, and empty text falls back to the configured placeholder.

use vstd::prelude::*;

verus! {

/// The colour a raw field text resolves to: the text itself when it is
/// non-empty, otherwise the placeholder.
pub open spec fn spec_resolve(raw: Seq<char>, placeholder: Seq<char>) -> Seq<char> {
    if raw.len() == 0 {
        placeholder
    } else {
        raw
    }
}

/// Decide the display colour for a raw field text: the text verbatim when it
/// is non-empty, the placeholder when it is empty. Total on all inputs and
/// free of side effects.
pub fn resolve(raw: &str, placeholder: &str) -> (r: String)
    ensures
        r@ == spec_resolve(raw@, placeholder@),
        placeholder@.len() > 0 ==> r@.len() > 0,
{
    if raw.is_empty() {
        placeholder.to_owned()
    } else {
        raw.to_owned()
    }
}

/// Non-empty text is kept verbatim: resolving it returns it unchanged,
/// whatever the placeholder is.
pub proof fn lemma_resolve_nonempty(raw: Seq<char>, placeholder: Seq<char>)
    requires
        raw.len() > 0,
    ensures
        spec_resolve(raw, placeholder) == raw,
{
}

/// Empty text falls back: resolving it returns the placeholder.
pub proof fn lemma_resolve_empty(placeholder: Seq<char>)
    ensures
        spec_resolve(Seq::<char>::empty(), placeholder) == placeholder,
{
}

/// Resolution is idempotent: resolving an already resolved colour changes
/// nothing.
pub proof fn lemma_resolve_idempotent(raw: Seq<char>, placeholder: Seq<char>)
    ensures
        spec_resolve(spec_resolve(raw, placeholder), placeholder) == spec_resolve(
            raw,
            placeholder,
        ),
{
}

} // verus!
