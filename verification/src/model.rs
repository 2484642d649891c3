//! The model extractor: turns the structural description of an incoming type
//! declaration into a canonical, ordered field list, rejecting the shapes
//! that cannot be mapped.

use vstd::prelude::*;

verus! {

/// A field of an incoming declaration, as the structural description hands
/// it over. Positional fields carry no identifier.
pub struct FieldDecl {
    pub identifier: Option<String>,
    pub declared_type: String,
}

/// The structural description of an incoming type declaration.
pub enum TypeDecl {
    /// A single-record shape with an ordered field list, and the raw texts
    /// of whatever options its annotation carries.
    Record { name: String, fields: Vec<FieldDecl>, options: Vec<String> },
    /// A choice-of-variants shape.
    Variants { name: String },
    /// A union-of-overlapping-fields shape.
    Overlapping { name: String },
}

/// Configuration accepted by the annotation mechanism on a mapped type. It
/// is recorded but unused: no recognized option alters generation, and
/// every field's identifier is its column key, one to one. A reserved
/// extension point.
pub struct MapperConfig {
    /// The raw option texts, in written order; none is consumed.
    pub options: Vec<String>,
}

/// One mapped attribute. The identifier is used both as the generated
/// record's field name and, unconditionally, as the row's column key.
pub struct Field {
    pub identifier: String,
    pub declared_type: String,
}

/// The unit of generation: the type's name and its field list, in
/// declaration order, with the inert annotation configuration alongside.
pub struct MappedType {
    pub name: String,
    pub fields: Vec<Field>,
    pub config: MapperConfig,
}

/// The shapes that extraction rejects; generation produces no output for
/// them.
#[derive(PartialEq, Eq, Structural, Clone, Copy, Debug)]
pub enum UnmappableShape {
    /// The declaration is a choice of variants.
    VariantShape,
    /// The declaration is a union of overlapping fields.
    OverlappingFieldShape,
    /// Some field has no usable name.
    MissingIdentifier,
}

/// Every field of the declaration carries an identifier.
pub open spec fn all_named(fields: Seq<FieldDecl>) -> bool {
    forall|i: int| 0 <= i < fields.len() ==> fields[i].identifier is Some
}

/// The extracted field list matches the declared one name for name and
/// type for type, in order.
pub open spec fn fields_match(out: Seq<Field>, decl: Seq<FieldDecl>) -> bool {
    &&& out.len() == decl.len()
    &&& forall|i: int|
        0 <= i < decl.len() ==> {
            &&& #[trigger] out[i].identifier@ == decl[i].identifier.unwrap()@
            &&& out[i].declared_type@ == decl[i].declared_type@
        }
}

/// The recorded option texts are the declared ones, in written order.
pub open spec fn options_match(out: Seq<String>, decl: Seq<String>) -> bool {
    &&& out.len() == decl.len()
    &&& forall|i: int| 0 <= i < decl.len() ==> out[i] == decl[i]
}

/// What extraction yields for a declaration: a complete mapped type for a
/// record whose fields are all named, and the matching rejection otherwise.
pub open spec fn extract_ok(r: Result<MappedType, UnmappableShape>, decl: TypeDecl) -> bool {
    match decl {
        TypeDecl::Variants { .. } => r == Err::<MappedType, UnmappableShape>(
            UnmappableShape::VariantShape,
        ),
        TypeDecl::Overlapping { .. } => r == Err::<MappedType, UnmappableShape>(
            UnmappableShape::OverlappingFieldShape,
        ),
        TypeDecl::Record { name, fields, options } => {
            if all_named(fields@) {
                &&& r is Ok
                &&& r.unwrap().name@ == name@
                &&& fields_match(r.unwrap().fields@, fields@)
                &&& options_match(r.unwrap().config.options@, options@)
            } else {
                r == Err::<MappedType, UnmappableShape>(UnmappableShape::MissingIdentifier)
            }
        },
    }
}

/// Turn a declaration into a mapped type, or reject it: a choice of
/// variants and a union of overlapping fields cannot be mapped, and every
/// mapped field must have an identifier. There is no partial result.
#[verifier::loop_isolation(false)]
pub fn extract(decl: &TypeDecl) -> (r: Result<MappedType, UnmappableShape>)
    ensures
        extract_ok(r, *decl),
{
    match decl {
        TypeDecl::Variants { .. } => Err(UnmappableShape::VariantShape),
        TypeDecl::Overlapping { .. } => Err(UnmappableShape::OverlappingFieldShape),
        TypeDecl::Record { name, fields, options } => {
            let mut out: Vec<Field> = Vec::new();
            let mut i: usize = 0;
            while i < fields.len()
                invariant
                    i <= fields.len(),
                    fields_match(out@, fields@.take(i as int)),
                    forall|j: int| 0 <= j < i ==> fields@[j].identifier is Some,
                decreases fields.len() - i,
            {
                let fd = &fields[i];
                match &fd.identifier {
                    Some(ident) => {
                        out.push(
                            Field {
                                identifier: ident.clone(),
                                declared_type: fd.declared_type.clone(),
                            },
                        );
                    },
                    None => {
                        assert(fields@[i as int].identifier is None);
                        assert(!all_named(fields@));
                        return Err(UnmappableShape::MissingIdentifier);
                    },
                }
                i += 1;
            }
            assert(fields@.take(fields@.len() as int) =~= fields@);
            Ok(
                MappedType {
                    name: name.clone(),
                    fields: out,
                    config: MapperConfig { options: copy_options(options) },
                },
            )
        },
    }
}

/// An owned copy of the raw option texts, in written order.
#[verifier::loop_isolation(false)]
fn copy_options(options: &Vec<String>) -> (r: Vec<String>)
    ensures
        options_match(r@, options@),
{
    let mut out: Vec<String> = Vec::new();
    let mut i: usize = 0;
    while i < options.len()
        invariant
            i <= options.len(),
            out@.len() == i,
            forall|j: int| 0 <= j < i ==> out@[j] == options@[j],
        decreases options.len() - i,
    {
        out.push(options[i].clone());
        i += 1;
    }
    out
}

impl UnmappableShape {
    /// The descriptive message that accompanies the rejection.
    pub fn describe(&self) -> (r: String)
        ensures
            *self == UnmappableShape::VariantShape ==> r@ == "variant shapes cannot be mapped"@,
            *self == UnmappableShape::OverlappingFieldShape ==> r@
                == "overlapping-field shapes cannot be mapped"@,
            *self == UnmappableShape::MissingIdentifier ==> r@
                == "every mapped field must have an identifier"@,
    {
        match self {
            UnmappableShape::VariantShape => "variant shapes cannot be mapped".to_owned(),
            UnmappableShape::OverlappingFieldShape => "overlapping-field shapes cannot be mapped".to_owned(),
            UnmappableShape::MissingIdentifier => "every mapped field must have an identifier".to_owned(),
        }
    }
}

} // verus!
