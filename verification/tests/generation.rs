use postgres_mapper_derive::derive_conversions;
use postgres_mapper_derive::emit::{from_borrowed_row_source, from_row_source, mapper_impl_source};
use postgres_mapper_derive::model::{extract, FieldDecl, MappedType, TypeDecl, UnmappableShape};

fn named(ident: &str, ty: &str) -> FieldDecl {
    FieldDecl { identifier: Some(ident.to_owned()), declared_type: ty.to_owned() }
}

fn user_decl() -> TypeDecl {
    TypeDecl::Record {
        name: "User".to_owned(),
        fields: vec![named("id", "i64"), named("name", "String")],
        options: vec![],
    }
}

fn user_mapped() -> MappedType {
    match extract(&user_decl()) {
        Ok(m) => m,
        Err(_) => panic!("a fully named record must extract"),
    }
}

fn expected_from_row() -> String {
    "\nimpl From<::tokio_postgres::row::Row> for User {\n    fn from(row: ::tokio_postgres::row::Row) -> Self {\n        Self {\n            id: row.get(\"id\"),\n            name: row.get(\"name\"),\n        }\n    }\n}".to_owned()
}

fn expected_from_borrowed_row() -> String {
    "\nimpl<'a> From<&'a ::tokio_postgres::row::Row> for User {\n    fn from(row: &'a ::tokio_postgres::row::Row) -> Self {\n        Self {\n            id: row.get(\"id\"),\n            name: row.get(\"name\"),\n        }\n    }\n}".to_owned()
}

fn expected_mapper_impl() -> String {
    "\nimpl ::postgres_mapper::FromTokioPostgresRow for User {\n    fn from_tokio_postgres_row(row: ::tokio_postgres::row::Row)\n        -> Result<Self, ::postgres_mapper::Error> {\n        Ok(Self {\n            id: row.try_get(\"id\")?.ok_or_else(|| ::postgres_mapper::Error::ColumnNotFound)?,\n            name: row.try_get(\"name\")?.ok_or_else(|| ::postgres_mapper::Error::ColumnNotFound)?,\n        })\n    }\n\n    fn from_tokio_postgres_row_ref(row: &::tokio_postgres::row::Row)\n        -> Result<Self, ::postgres_mapper::Error> {\n        Ok(Self {\n            id: row.try_get(\"id\")?.ok_or_else(|| ::postgres_mapper::Error::ColumnNotFound)?,\n            name: row.try_get(\"name\")?.ok_or_else(|| ::postgres_mapper::Error::ColumnNotFound)?,\n        })\n    }\n}".to_owned()
}

#[test]
fn extract_keeps_names_in_order() {
    let m = user_mapped();
    assert_eq!(m.name, "User");
    assert_eq!(m.fields.len(), 2);
    assert_eq!(m.fields[0].identifier, "id");
    assert_eq!(m.fields[0].declared_type, "i64");
    assert_eq!(m.fields[1].identifier, "name");
    assert_eq!(m.fields[1].declared_type, "String");
}

#[test]
fn from_row_source_is_exact() {
    assert_eq!(from_row_source(&user_mapped()), expected_from_row());
}

#[test]
fn from_borrowed_row_source_is_exact() {
    assert_eq!(from_borrowed_row_source(&user_mapped()), expected_from_borrowed_row());
}

#[test]
fn mapper_impl_source_is_exact() {
    assert_eq!(mapper_impl_source(&user_mapped()), expected_mapper_impl());
}

#[test]
fn one_lookup_per_field_in_declared_order() {
    let text = from_row_source(&user_mapped());
    assert_eq!(text.matches("row.get(").count(), 2);
    let id_at = text.find("id: row.get(\"id\")").expect("id lookup emitted");
    let name_at = text.find("name: row.get(\"name\")").expect("name lookup emitted");
    assert!(id_at < name_at);
}

#[test]
fn derive_joins_the_three_impls() {
    let tokens = match derive_conversions(&user_decl()) {
        Ok(t) => t,
        Err(_) => panic!("a fully named record must generate"),
    };
    let expected = format!(
        "{} {} {}",
        expected_from_row(),
        expected_from_borrowed_row(),
        expected_mapper_impl()
    );
    assert_eq!(tokens.as_str(), expected);
}

#[test]
fn generation_is_deterministic() {
    let first = derive_conversions(&user_decl()).map(|t| t.into_string());
    let second = derive_conversions(&user_decl()).map(|t| t.into_string());
    assert_eq!(first, second);
    assert_eq!(
        first.expect("generation succeeds").into_bytes(),
        second.expect("generation succeeds").into_bytes()
    );
}

#[test]
fn empty_field_list_generates_empty_body() {
    let decl = TypeDecl::Record { name: "Unit".to_owned(), fields: vec![], options: vec![] };
    let m = match extract(&decl) {
        Ok(m) => m,
        Err(_) => panic!("an empty record must extract"),
    };
    assert_eq!(
        from_row_source(&m),
        "\nimpl From<::tokio_postgres::row::Row> for Unit {\n    fn from(row: ::tokio_postgres::row::Row) -> Self {\n        Self {\n        }\n    }\n}"
    );
}

#[test]
fn options_are_recorded_but_alter_nothing() {
    let annotated = TypeDecl::Record {
        name: "User".to_owned(),
        fields: vec![named("id", "i64"), named("name", "String")],
        options: vec!["(table = \"users\")".to_owned()],
    };
    let m = match extract(&annotated) {
        Ok(m) => m,
        Err(_) => panic!("a fully named record must extract"),
    };
    assert_eq!(m.config.options, vec!["(table = \"users\")".to_owned()]);
    let plain = derive_conversions(&user_decl()).map(|t| t.into_string());
    let with_options = derive_conversions(&annotated).map(|t| t.into_string());
    assert_eq!(plain, with_options);
}

#[test]
fn variant_shape_is_rejected() {
    let decl = TypeDecl::Variants { name: "Choice".to_owned() };
    assert_eq!(extract(&decl).err(), Some(UnmappableShape::VariantShape));
    assert_eq!(
        derive_conversions(&decl).err(),
        Some(UnmappableShape::VariantShape)
    );
    assert_eq!(
        UnmappableShape::VariantShape.describe(),
        "variant shapes cannot be mapped"
    );
}

#[test]
fn overlapping_shape_is_rejected() {
    let decl = TypeDecl::Overlapping { name: "Raw".to_owned() };
    assert_eq!(extract(&decl).err(), Some(UnmappableShape::OverlappingFieldShape));
    assert_eq!(
        derive_conversions(&decl).err(),
        Some(UnmappableShape::OverlappingFieldShape)
    );
    assert_eq!(
        UnmappableShape::OverlappingFieldShape.describe(),
        "overlapping-field shapes cannot be mapped"
    );
}

#[test]
fn positional_field_is_rejected() {
    let decl = TypeDecl::Record {
        name: "Pair".to_owned(),
        fields: vec![
            named("id", "i64"),
            FieldDecl { identifier: None, declared_type: "String".to_owned() },
        ],
        options: vec![],
    };
    assert_eq!(extract(&decl).err(), Some(UnmappableShape::MissingIdentifier));
    assert_eq!(
        derive_conversions(&decl).err(),
        Some(UnmappableShape::MissingIdentifier)
    );
    assert_eq!(
        UnmappableShape::MissingIdentifier.describe(),
        "every mapped field must have an identifier"
    );
}
