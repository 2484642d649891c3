//! Row-to-record conversion generation.
//!
//! Given the structural description of a record type, this crate builds the
//! source text of conversions that populate an instance of that type from a
//! tabular data row keyed by column name: a best-effort pair (owned and
//! borrowed row) that faults on a missing or undecodable column, and a
//! failure-aware pair that reports such columns through a typed error.
//! A separate module models the runtime behaviour those conversions carry
//! out, so that their per-field semantics can be stated and proved.

pub mod emit;
pub mod model;
pub mod row;
pub mod sink;

use vstd::prelude::*;

use crate::emit::{
    from_borrowed_row_source, from_borrowed_row_text, from_row_source, from_row_text, idents_of,
    mapper_impl_source, mapper_impl_text,
};
use crate::model::{all_named, extract, FieldDecl, TypeDecl, UnmappableShape};
use crate::sink::{appended, tokens_append, tokens_new, tokens_text};

verus! {

/// The column keys of a declaration's fields, in declared order; meaningful
/// once every field carries an identifier.
pub open spec fn decl_idents(fields: Seq<FieldDecl>) -> Seq<Seq<char>> {
    Seq::new(fields.len(), |i: int| fields[i].identifier.unwrap()@)
}

/// A declaration can be mapped when it is a single-record shape whose
/// fields all carry an identifier.
pub open spec fn mappable(decl: TypeDecl) -> bool {
    &&& decl matches TypeDecl::Record { fields, .. }
    &&& all_named(fields@)
}

/// The whole generated output for a mapped type: the two best-effort
/// conversions, then the failure-aware pair, written into one buffer in
/// that order.
pub open spec fn conversions_text(name: Seq<char>, idents: Seq<Seq<char>>) -> Seq<char> {
    appended(
        appended(
            appended(Seq::<char>::empty(), from_row_text(name, idents)),
            from_borrowed_row_text(name, idents),
        ),
        mapper_impl_text(name, idents),
    )
}

/// Generate every conversion for a declaration, or reject it: an
/// unmappable shape fails generation wholesale, before any code is emitted,
/// and there is no partial output.
pub fn derive_conversions(decl: &TypeDecl) -> (r: Result<quote::Tokens, UnmappableShape>)
    ensures
        match *decl {
            TypeDecl::Variants { .. } => r == Err::<quote::Tokens, UnmappableShape>(
                UnmappableShape::VariantShape,
            ),
            TypeDecl::Overlapping { .. } => r == Err::<quote::Tokens, UnmappableShape>(
                UnmappableShape::OverlappingFieldShape,
            ),
            TypeDecl::Record { name, fields, .. } => {
                if all_named(fields@) {
                    &&& r is Ok
                    &&& tokens_text(r.unwrap()) == conversions_text(name@, decl_idents(fields@))
                } else {
                    r == Err::<quote::Tokens, UnmappableShape>(UnmappableShape::MissingIdentifier)
                }
            },
        },
{
    let m = match extract(decl) {
        Ok(m) => m,
        Err(e) => {
            return Err(e);
        },
    };
    let mut t = tokens_new();
    let owned_infallible = from_row_source(&m);
    tokens_append(&mut t, owned_infallible.as_str());
    let borrowed_infallible = from_borrowed_row_source(&m);
    tokens_append(&mut t, borrowed_infallible.as_str());
    let fallible_pair = mapper_impl_source(&m);
    tokens_append(&mut t, fallible_pair.as_str());
    proof {
        match decl {
            TypeDecl::Record { name, fields, .. } => {
                assert(idents_of(m) =~= decl_idents(fields@));
            },
            _ => {},
        }
    }
    Ok(t)
}

/// Generation is deterministic: two buffers generated from one unchanged
/// name and field list hold the same text, byte for byte.
pub proof fn lemma_generation_deterministic(
    a: quote::Tokens,
    b: quote::Tokens,
    name: Seq<char>,
    idents: Seq<Seq<char>>,
)
    requires
        tokens_text(a) == conversions_text(name, idents),
        tokens_text(b) == conversions_text(name, idents),
    ensures
        tokens_text(a) == tokens_text(b),
{
}

} // verus!
