//! The runtime behaviour that the generated conversions carry out, stated
//! over a model of the tabular row: per field, a lookup keyed by the
//! field's identifier with a three-way outcome — a decoded value, an
//! underlying decode failure, or absence — composed left to right with the
//! first failure winning.

use vstd::prelude::*;
use crate::model::{Field, MappedType};

verus! {

/// A decoded cell value of a row.
#[derive(Debug, PartialEq, Eq)]
pub enum Value {
    Int(i64),
    Text(String),
    Boolean(bool),
}

/// A failure reported by the row's decode step; its content belongs to the
/// row engine and is carried unchanged.
#[derive(Debug, PartialEq, Eq)]
pub struct DecodeError {
    pub detail: String,
}

/// What one cell yields when it is read: its decoded value, or the decode
/// failure the row engine reports for it.
#[derive(Debug, PartialEq, Eq)]
pub enum CellState {
    Decoded(Value),
    Undecodable(DecodeError),
}

/// One named cell of a row.
#[derive(Debug, PartialEq, Eq)]
pub struct Column {
    pub name: String,
    pub cell: CellState,
}

/// A row: an ordered collection of named cells, as a query engine returns
/// it. A key selects the first cell carrying it.
#[derive(Debug, PartialEq, Eq)]
pub struct Row {
    pub columns: Vec<Column>,
}

/// One populated field of a converted record.
#[derive(Debug, PartialEq, Eq)]
pub struct RecordField {
    pub name: String,
    pub value: Value,
}

/// A converted record: one populated field per mapped field, in declared
/// order.
#[derive(Debug, PartialEq, Eq)]
pub struct Record {
    pub fields: Vec<RecordField>,
}

/// How a failure-aware conversion fails: a column absent from the row, as
/// a distinguished error constructible on its own, or an underlying decode
/// failure, propagated unchanged.
#[derive(Debug, PartialEq, Eq)]
pub enum MappingError {
    ColumnNotFound { column: String },
    Underlying { error: DecodeError },
}

impl Value {
    /// An owned copy of the value.
    pub fn duplicate(&self) -> (r: Value)
        ensures
            r == *self,
    {
        match self {
            Value::Int(i) => Value::Int(*i),
            Value::Text(s) => Value::Text(s.clone()),
            Value::Boolean(b) => Value::Boolean(*b),
        }
    }
}

impl DecodeError {
    /// An owned copy of the failure.
    pub fn duplicate(&self) -> (r: DecodeError)
        ensures
            r == *self,
    {
        DecodeError { detail: self.detail.clone() }
    }
}

/// What a key selects in a row: the cell of the first column carrying the
/// key, or nothing.
pub open spec fn lookup(cols: Seq<Column>, key: Seq<char>) -> Option<CellState>
    decreases cols.len(),
{
    if cols.len() == 0 {
        None
    } else if cols[0].name@ == key {
        Some(cols[0].cell)
    } else {
        lookup(cols.drop_first(), key)
    }
}

/// When the first i columns do not carry the key and column i does, the
/// lookup selects column i's cell.
proof fn lemma_lookup_at(cols: Seq<Column>, key: Seq<char>, i: int)
    requires
        0 <= i < cols.len(),
        forall|j: int| 0 <= j < i ==> cols[j].name@ != key,
        cols[i].name@ == key,
    ensures
        lookup(cols, key) == Some(cols[i].cell),
    decreases i,
{
    if i > 0 {
        lemma_lookup_at(cols.drop_first(), key, i - 1);
    }
}

/// When no column carries the key, the lookup comes up empty.
proof fn lemma_lookup_absent(cols: Seq<Column>, key: Seq<char>)
    requires
        forall|j: int| 0 <= j < cols.len() ==> cols[j].name@ != key,
    ensures
        lookup(cols, key) is None,
    decreases cols.len(),
{
    if cols.len() > 0 {
        lemma_lookup_absent(cols.drop_first(), key);
    }
}

impl Row {
    /// The failure-aware access capability: the decoded value for the key,
    /// absence, or the underlying decode failure, whichever the row holds.
    #[verifier::loop_isolation(false)]
    pub fn try_get(&self, key: &String) -> (r: Result<Option<Value>, DecodeError>)
        ensures
            (match r {
                Ok(Some(v)) => lookup(self.columns@, key@) == Some(CellState::Decoded(v)),
                Ok(None) => lookup(self.columns@, key@) is None,
                Err(e) => lookup(self.columns@, key@) == Some(CellState::Undecodable(e)),
            }),
    {
        let mut i: usize = 0;
        while i < self.columns.len()
            invariant
                i <= self.columns.len(),
                forall|j: int| 0 <= j < i ==> self.columns@[j].name@ != key@,
            decreases self.columns.len() - i,
        {
            let c = &self.columns[i];
            if c.name == *key {
                proof {
                    lemma_lookup_at(self.columns@, key@, i as int);
                }
                match &c.cell {
                    CellState::Decoded(v) => {
                        return Ok(Some(v.duplicate()));
                    },
                    CellState::Undecodable(e) => {
                        return Err(e.duplicate());
                    },
                }
            }
            i += 1;
        }
        proof {
            lemma_lookup_absent(self.columns@, key@);
        }
        Ok(None)
    }

    /// The best-effort access capability: the decoded value for the key.
    /// The caller owes the column's presence and decodability; that debt is
    /// the capability's precondition, so a violated call never gets here.
    #[verifier::loop_isolation(false)]
    pub fn get_or_fault(&self, key: &String) -> (r: Value)
        requires
            lookup(self.columns@, key@) matches Some(CellState::Decoded(_)),
        ensures
            lookup(self.columns@, key@) == Some(CellState::Decoded(r)),
    {
        let mut i: usize = 0;
        while i < self.columns.len()
            invariant
                i <= self.columns.len(),
                forall|j: int| 0 <= j < i ==> self.columns@[j].name@ != key@,
            decreases self.columns.len() - i,
        {
            let c = &self.columns[i];
            if c.name == *key {
                proof {
                    lemma_lookup_at(self.columns@, key@, i as int);
                }
                match &c.cell {
                    CellState::Decoded(v) => {
                        return v.duplicate();
                    },
                    CellState::Undecodable(_) => {
                        proof {
                            assert(false);
                        }
                    },
                }
            }
            i += 1;
        }
        proof {
            lemma_lookup_absent(self.columns@, key@);
            assert(false);
        }
        unreached()
    }
}

/// What the failure-aware conversion yields for the fields from position
/// i on: the populated fields when every remaining lookup decodes, else
/// the first failure — absence translated to the distinguished
/// column-not-found error, a decode failure propagated unchanged.
pub open spec fn field_values(fields: Seq<Field>, cols: Seq<Column>, i: int) -> Result<
    Seq<RecordField>,
    MappingError,
>
    decreases fields.len() - i,
{
    if i < 0 || i >= fields.len() {
        Ok(Seq::<RecordField>::empty())
    } else {
        match lookup(cols, fields[i].identifier@) {
            Option::None => Err(MappingError::ColumnNotFound { column: fields[i].identifier }),
            Option::Some(CellState::Undecodable(e)) => Err(MappingError::Underlying { error: e }),
            Option::Some(CellState::Decoded(v)) => match field_values(fields, cols, i + 1) {
                Ok(rest) => Ok(seq![RecordField { name: fields[i].identifier, value: v }] + rest),
                Err(e) => Err(e),
            },
        }
    }
}

/// The row holds a decoded value for every field, under its exact
/// identifier.
pub open spec fn all_present(fields: Seq<Field>, cols: Seq<Column>) -> bool {
    forall|i: int|
        0 <= i < fields.len() ==> (#[trigger] lookup(cols, fields[i].identifier@)) matches Some(
            CellState::Decoded(_),
        )
}

/// The value inside a lookup outcome that decoded.
pub open spec fn decoded_of(oc: Option<CellState>) -> Value {
    match oc {
        Option::Some(CellState::Decoded(v)) => v,
        _ => arbitrary(),
    }
}

/// The record the best-effort conversion extracts: per field, in declared
/// order, the row's decoded value under the field's identifier.
pub open spec fn extracted_record(fields: Seq<Field>, cols: Seq<Column>) -> Seq<RecordField> {
    Seq::new(
        fields.len(),
        |i: int|
            RecordField {
                name: fields[i].identifier,
                value: decoded_of(lookup(cols, fields[i].identifier@)),
            },
    )
}

/// Populate a record from a borrowed row through the failure-aware
/// channel. Fields are processed in declared order; the first field whose
/// column is absent or undecodable determines the error and stops the
/// conversion; only when every field resolves does a record come to exist.
#[verifier::loop_isolation(false)]
pub fn convert_fallible_ref(m: &MappedType, row: &Row) -> (r: Result<Record, MappingError>)
    ensures
        (match r {
            Ok(rec) => field_values(m.fields@, row.columns@, 0) == Ok::<
                Seq<RecordField>,
                MappingError,
            >(rec.fields@),
            Err(e) => field_values(m.fields@, row.columns@, 0) == Err::<
                Seq<RecordField>,
                MappingError,
            >(e),
        }),
{
    let ghost fields = m.fields@;
    let ghost cols = row.columns@;
    let mut built: Vec<RecordField> = Vec::new();
    let mut i: usize = 0;
    while i < m.fields.len()
        invariant
            i <= fields.len(),
            built@.len() == i,
            (match field_values(fields, cols, i as int) {
                Ok(rest) => field_values(fields, cols, 0) == Ok::<Seq<RecordField>, MappingError>(
                    built@ + rest,
                ),
                Err(e) => field_values(fields, cols, 0) == Err::<Seq<RecordField>, MappingError>(e),
            }),
        decreases fields.len() - i,
    {
        let ghost idx = i as int;
        let f = &m.fields[i];
        match row.try_get(&f.identifier) {
            Ok(Some(v)) => {
                let ghost pre = built@;
                built.push(RecordField { name: f.identifier.clone(), value: v });
                proof {
                    let rf = built@.last();
                    assert(built@ == pre.push(rf));
                    assert(rf == (RecordField { name: fields[idx].identifier, value: rf.value }));
                    assert(lookup(cols, fields[idx].identifier@) == Some(
                        CellState::Decoded(rf.value),
                    ));
                    match field_values(fields, cols, idx + 1) {
                        Ok(rest) => {
                            assert(field_values(fields, cols, idx) == Ok::<
                                Seq<RecordField>,
                                MappingError,
                            >(seq![rf] + rest));
                            assert(pre + (seq![rf] + rest) =~= built@ + rest);
                            assert(field_values(fields, cols, 0) == Ok::<
                                Seq<RecordField>,
                                MappingError,
                            >(built@ + rest));
                        },
                        Err(e) => {
                            assert(field_values(fields, cols, idx) == Err::<
                                Seq<RecordField>,
                                MappingError,
                            >(e));
                        },
                    }
                }
            },
            Ok(None) => {
                return Err(MappingError::ColumnNotFound { column: f.identifier.clone() });
            },
            Err(e) => {
                return Err(MappingError::Underlying { error: e });
            },
        }
        i += 1;
    }
    proof {
        assert(built@ + Seq::<RecordField>::empty() =~= built@);
    }
    Ok(Record { fields: built })
}

/// Populate a record from an owned row through the failure-aware channel:
/// the same per-field semantics as the borrowed entry point, under one
/// shared capability.
pub fn convert_fallible(m: &MappedType, row: Row) -> (r: Result<Record, MappingError>)
    ensures
        (match r {
            Ok(rec) => field_values(m.fields@, row.columns@, 0) == Ok::<
                Seq<RecordField>,
                MappingError,
            >(rec.fields@),
            Err(e) => field_values(m.fields@, row.columns@, 0) == Err::<
                Seq<RecordField>,
                MappingError,
            >(e),
        }),
{
    convert_fallible_ref(m, &row)
}

/// Populate a record from a borrowed row on the best-effort path: the
/// caller owes that every field's column is present and decodes, and each
/// field takes the row's value under its identifier, in declared order.
#[verifier::loop_isolation(false)]
pub fn convert_infallible_ref(m: &MappedType, row: &Row) -> (r: Record)
    requires
        all_present(m.fields@, row.columns@),
    ensures
        r.fields@ == extracted_record(m.fields@, row.columns@),
{
    let ghost fields = m.fields@;
    let ghost cols = row.columns@;
    let mut built: Vec<RecordField> = Vec::new();
    let mut i: usize = 0;
    while i < m.fields.len()
        invariant
            i <= fields.len(),
            built@ == extracted_record(fields, cols).take(i as int),
        decreases fields.len() - i,
    {
        let f = &m.fields[i];
        let v = row.get_or_fault(&f.identifier);
        built.push(RecordField { name: f.identifier.clone(), value: v });
        proof {
            assert(built@ =~= extracted_record(fields, cols).take(i + 1 as int));
        }
        i += 1;
    }
    proof {
        assert(extracted_record(fields, cols).take(fields.len() as int) =~= extracted_record(
            fields,
            cols,
        ));
    }
    Record { fields: built }
}

/// Populate a record from an owned row on the best-effort path: the same
/// per-field semantics as the borrowed entry point.
pub fn convert_infallible(m: &MappedType, row: Row) -> (r: Record)
    requires
        all_present(m.fields@, row.columns@),
    ensures
        r.fields@ == extracted_record(m.fields@, row.columns@),
{
    convert_infallible_ref(m, &row)
}

proof fn lemma_round_trip_from(fields: Seq<Field>, cols: Seq<Column>, i: int)
    requires
        all_present(fields, cols),
        0 <= i <= fields.len(),
    ensures
        field_values(fields, cols, i) == Ok::<Seq<RecordField>, MappingError>(
            extracted_record(fields, cols).skip(i),
        ),
    decreases fields.len() - i,
{
    if i == fields.len() {
        assert(extracted_record(fields, cols).skip(i) =~= Seq::<RecordField>::empty());
    } else {
        lemma_round_trip_from(fields, cols, i + 1);
        let ex = extracted_record(fields, cols);
        assert(seq![ex[i]] + ex.skip(i + 1) =~= ex.skip(i));
    }
}

/// Round trip: on a row that holds a decoded value for every declared
/// field under its exact identifier, the failure-aware conversion succeeds
/// and yields exactly the record that the best-effort conversion extracts:
/// field for field, the row's own values, in declared order.
pub proof fn lemma_round_trip(fields: Seq<Field>, cols: Seq<Column>)
    requires
        all_present(fields, cols),
    ensures
        field_values(fields, cols, 0) == Ok::<Seq<RecordField>, MappingError>(
            extracted_record(fields, cols),
        ),
{
    lemma_round_trip_from(fields, cols, 0);
    assert(extracted_record(fields, cols).skip(0) =~= extracted_record(fields, cols));
}

proof fn lemma_absence_from(fields: Seq<Field>, cols: Seq<Column>, k: int, i: int)
    requires
        0 <= i <= k < fields.len(),
        lookup(cols, fields[k].identifier@) is None,
        forall|j: int|
            i <= j < k ==> (#[trigger] lookup(cols, fields[j].identifier@)) matches Some(
                CellState::Decoded(_),
            ),
    ensures
        field_values(fields, cols, i) == Err::<Seq<RecordField>, MappingError>(
            MappingError::ColumnNotFound { column: fields[k].identifier },
        ),
    decreases k - i,
{
    if i < k {
        lemma_absence_from(fields, cols, k, i + 1);
    }
}

/// Absence: when the column for a field is missing from the row and every
/// field before it resolves, the failure-aware conversion fails with
/// column-not-found naming exactly that field's identifier — and, failure
/// carrying no record at all, no partially populated record is handed out.
pub proof fn lemma_absence(fields: Seq<Field>, cols: Seq<Column>, k: int)
    requires
        0 <= k < fields.len(),
        lookup(cols, fields[k].identifier@) is None,
        forall|j: int|
            0 <= j < k ==> (#[trigger] lookup(cols, fields[j].identifier@)) matches Some(
                CellState::Decoded(_),
            ),
    ensures
        field_values(fields, cols, 0) == Err::<Seq<RecordField>, MappingError>(
            MappingError::ColumnNotFound { column: fields[k].identifier },
        ),
{
    lemma_absence_from(fields, cols, k, 0);
}

} // verus!
