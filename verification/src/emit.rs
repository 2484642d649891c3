//! The conversion generators: they turn a mapped type's name and field list
//! into the source text of the four conversions, best-effort and
//! failure-aware, each for an owned and for a borrowed row.

use vstd::prelude::*;
use vstd::string::StringExecFns;
use crate::model::{Field, MappedType};

verus! {

/// The column keys of a mapped type's fields, in declared order. Every
/// field's identifier is its column key: no renaming occurs.
pub open spec fn idents_of(m: MappedType) -> Seq<Seq<char>> {
    Seq::new(m.fields@.len(), |i: int| m.fields@[i].identifier@)
}

/// One best-effort lookup statement: it reads the column keyed by the
/// field's identifier and faults at once when the column is absent or its
/// value does not decode.
pub open spec fn lookup_stmt(ident: Seq<char>) -> Seq<char> {
    "\n            "@ + ident + ": row.get(\""@ + ident + "\"),"@
}

/// One failure-aware lookup statement: a decode failure propagates
/// unchanged, and an absent column becomes the distinguished column-not-found
/// error; either short-circuits the conversion.
pub open spec fn try_lookup_stmt(ident: Seq<char>) -> Seq<char> {
    "\n            "@ + ident + ": row.try_get(\""@ + ident
        + "\")?.ok_or_else(|| ::postgres_mapper::Error::ColumnNotFound)?,"@
}

/// The best-effort lookup statements of a field list: exactly one per
/// field, in declared order.
pub open spec fn lookup_stmts(idents: Seq<Seq<char>>) -> Seq<Seq<char>> {
    Seq::new(idents.len(), |i: int| lookup_stmt(idents[i]))
}

/// The failure-aware lookup statements of a field list: exactly one per
/// field, in declared order.
pub open spec fn try_lookup_stmts(idents: Seq<Seq<char>>) -> Seq<Seq<char>> {
    Seq::new(idents.len(), |i: int| try_lookup_stmt(idents[i]))
}

/// The pieces of text, concatenated in order.
pub open spec fn joined(pieces: Seq<Seq<char>>) -> Seq<char>
    decreases pieces.len(),
{
    if pieces.len() == 0 {
        Seq::<char>::empty()
    } else {
        joined(pieces.drop_last()) + pieces.last()
    }
}

/// The conversion from an owned row, best-effort.
pub open spec fn from_row_text(name: Seq<char>, idents: Seq<Seq<char>>) -> Seq<char> {
    "\nimpl From<::tokio_postgres::row::Row> for "@ + name
        + " {\n    fn from(row: ::tokio_postgres::row::Row) -> Self {\n        Self {"@
        + joined(lookup_stmts(idents)) + "\n        }\n    }\n}"@
}

/// The conversion from a borrowed row, best-effort.
pub open spec fn from_borrowed_row_text(name: Seq<char>, idents: Seq<Seq<char>>) -> Seq<char> {
    "\nimpl<'a> From<&'a ::tokio_postgres::row::Row> for "@ + name
        + " {\n    fn from(row: &'a ::tokio_postgres::row::Row) -> Self {\n        Self {"@
        + joined(lookup_stmts(idents)) + "\n        }\n    }\n}"@
}

/// The failure-aware conversions, owned and borrowed, exposed under one
/// shared capability so that both apply identical per-field semantics.
pub open spec fn mapper_impl_text(name: Seq<char>, idents: Seq<Seq<char>>) -> Seq<char> {
    "\nimpl ::postgres_mapper::FromTokioPostgresRow for "@ + name
        + " {\n    fn from_tokio_postgres_row(row: ::tokio_postgres::row::Row)\n        -> Result<Self, ::postgres_mapper::Error> {\n        Ok(Self {"@
        + joined(try_lookup_stmts(idents))
        + "\n        })\n    }\n\n    fn from_tokio_postgres_row_ref(row: &::tokio_postgres::row::Row)\n        -> Result<Self, ::postgres_mapper::Error> {\n        Ok(Self {"@
        + joined(try_lookup_stmts(idents)) + "\n        })\n    }\n}"@
}

/// Per mapped type, each generator emits exactly one lookup statement per
/// field — N statements for N named fields — keyed by that field's
/// identifier, in declared order; the conversion texts splice exactly that
/// sequence of statements between their header and their footer.
pub proof fn lemma_one_lookup_per_field(idents: Seq<Seq<char>>)
    ensures
        lookup_stmts(idents).len() == idents.len(),
        forall|i: int| 0 <= i < idents.len() ==> lookup_stmts(idents)[i] == lookup_stmt(idents[i]),
        try_lookup_stmts(idents).len() == idents.len(),
        forall|i: int|
            0 <= i < idents.len() ==> try_lookup_stmts(idents)[i] == try_lookup_stmt(idents[i]),
{
}

/// Push the best-effort lookup statements for every field, in declared
/// order.
#[verifier::loop_isolation(false)]
fn push_lookup_stmts(out: &mut String, fields: &Vec<Field>)
    ensures
        final(out)@ == old(out)@ + joined(lookup_stmts(idents_seq(fields@))),
{
    let mut i: usize = 0;
    while i < fields.len()
        invariant
            i <= fields.len(),
            out@ == old(out)@ + joined(lookup_stmts(idents_seq(fields@.take(i as int)))),
        decreases fields.len() - i,
    {
        let ident: &str = fields[i].identifier.as_str();
        out.append("\n            ");
        out.append(ident);
        out.append(": row.get(\"");
        out.append(ident);
        out.append("\"),");
        proof {
            let pre = idents_seq(fields@.take(i as int));
            let post = idents_seq(fields@.take(i + 1 as int));
            assert(lookup_stmts(post).drop_last() =~= lookup_stmts(pre));
            assert(lookup_stmts(post).last() == lookup_stmt(fields@[i as int].identifier@));
            assert(out@ =~= old(out)@ + joined(lookup_stmts(post)));
        }
        i += 1;
    }
    assert(fields@.take(fields@.len() as int) =~= fields@);
}

/// Push the failure-aware lookup statements for every field, in declared
/// order.
#[verifier::loop_isolation(false)]
fn push_try_lookup_stmts(out: &mut String, fields: &Vec<Field>)
    ensures
        final(out)@ == old(out)@ + joined(try_lookup_stmts(idents_seq(fields@))),
{
    let mut i: usize = 0;
    while i < fields.len()
        invariant
            i <= fields.len(),
            out@ == old(out)@ + joined(try_lookup_stmts(idents_seq(fields@.take(i as int)))),
        decreases fields.len() - i,
    {
        let ident: &str = fields[i].identifier.as_str();
        out.append("\n            ");
        out.append(ident);
        out.append(": row.try_get(\"");
        out.append(ident);
        out.append("\")?.ok_or_else(|| ::postgres_mapper::Error::ColumnNotFound)?,");
        proof {
            let pre = idents_seq(fields@.take(i as int));
            let post = idents_seq(fields@.take(i + 1 as int));
            assert(try_lookup_stmts(post).drop_last() =~= try_lookup_stmts(pre));
            assert(try_lookup_stmts(post).last() == try_lookup_stmt(fields@[i as int].identifier@));
            assert(out@ =~= old(out)@ + joined(try_lookup_stmts(post)));
        }
        i += 1;
    }
    assert(fields@.take(fields@.len() as int) =~= fields@);
}

/// The column keys of a field list, in declared order.
pub open spec fn idents_seq(fields: Seq<Field>) -> Seq<Seq<char>> {
    Seq::new(fields.len(), |i: int| fields[i].identifier@)
}

/// Generate the best-effort conversion from an owned row.
pub fn from_row_source(m: &MappedType) -> (r: String)
    ensures
        r@ == from_row_text(m.name@, idents_of(*m)),
{
    let mut out = String::new();
    out.append("\nimpl From<::tokio_postgres::row::Row> for ");
    out.append(m.name.as_str());
    out.append(" {\n    fn from(row: ::tokio_postgres::row::Row) -> Self {\n        Self {");
    push_lookup_stmts(&mut out, &m.fields);
    out.append("\n        }\n    }\n}");
    proof {
        assert(idents_seq(m.fields@) =~= idents_of(*m));
        assert(out@ =~= from_row_text(m.name@, idents_of(*m)));
    }
    out
}

/// Generate the best-effort conversion from a borrowed row.
pub fn from_borrowed_row_source(m: &MappedType) -> (r: String)
    ensures
        r@ == from_borrowed_row_text(m.name@, idents_of(*m)),
{
    let mut out = String::new();
    out.append("\nimpl<'a> From<&'a ::tokio_postgres::row::Row> for ");
    out.append(m.name.as_str());
    out.append(" {\n    fn from(row: &'a ::tokio_postgres::row::Row) -> Self {\n        Self {");
    push_lookup_stmts(&mut out, &m.fields);
    out.append("\n        }\n    }\n}");
    proof {
        assert(idents_seq(m.fields@) =~= idents_of(*m));
        assert(out@ =~= from_borrowed_row_text(m.name@, idents_of(*m)));
    }
    out
}

/// Generate the failure-aware conversions, owned and borrowed, under one
/// shared capability.
pub fn mapper_impl_source(m: &MappedType) -> (r: String)
    ensures
        r@ == mapper_impl_text(m.name@, idents_of(*m)),
{
    let mut out = String::new();
    out.append("\nimpl ::postgres_mapper::FromTokioPostgresRow for ");
    out.append(m.name.as_str());
    out.append(
        " {\n    fn from_tokio_postgres_row(row: ::tokio_postgres::row::Row)\n        -> Result<Self, ::postgres_mapper::Error> {\n        Ok(Self {",
    );
    push_try_lookup_stmts(&mut out, &m.fields);
    out.append(
        "\n        })\n    }\n\n    fn from_tokio_postgres_row_ref(row: &::tokio_postgres::row::Row)\n        -> Result<Self, ::postgres_mapper::Error> {\n        Ok(Self {",
    );
    push_try_lookup_stmts(&mut out, &m.fields);
    out.append("\n        })\n    }\n}");
    proof {
        assert(idents_seq(m.fields@) =~= idents_of(*m));
        assert(out@ =~= mapper_impl_text(m.name@, idents_of(*m)));
    }
    out
}

} // verus!
