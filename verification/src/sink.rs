//! The emission buffer that the generated source text is written into: the
//! token buffer of the quote crate, specified here at its boundary and
//! otherwise taken on trust.

use vstd::prelude::*;

verus! {

#[verifier::external_type_specification]
#[verifier::external_body]
pub struct ExTokens(quote::Tokens);

/// The text that an emission buffer holds.
pub uninterp spec fn tokens_text(t: quote::Tokens) -> Seq<char>;

/// How the buffer's text grows on an append: the piece is pushed onto the
/// text, preceded by a single space when both are non-empty.
pub open spec fn appended(text: Seq<char>, piece: Seq<char>) -> Seq<char> {
    if text.len() == 0 || piece.len() == 0 {
        text + piece
    } else {
        text + seq![' '] + piece
    }
}

/// Relies on quote::Tokens::new: the buffer starts out empty.
#[verifier::external_body]
pub(crate) fn tokens_new() -> (t: quote::Tokens)
    ensures
        tokens_text(t) == Seq::<char>::empty(),
{
    quote::Tokens::new()
}

/// Relies on quote::Tokens::append: it pushes the piece onto the buffer's
/// string, separating two non-empty pieces of text by a single space.
#[verifier::external_body]
pub(crate) fn tokens_append(t: &mut quote::Tokens, piece: &str)
    ensures
        tokens_text(*final(t)) == appended(tokens_text(*old(t)), piece@),
{
    t.append(piece);
}

} // verus!
