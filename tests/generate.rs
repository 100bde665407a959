use ffi_utils_derive::classify::{classify_field_type, find_attr, has_nullable, plan_field, plan_fields};
use ffi_utils_derive::model::{
    Attr, Class, DeriveError, FieldDecl, FieldPlan, FieldType, Generator, Path, PathArgs, PathSegment,
    StructDecl, TypePath,
};
use ffi_utils_derive::render::{
    conversion_type, forward_field, generic_path_to_concrete_type_path, impl_asrust_macro,
    impl_creprof_macro, render_asrust, render_creprof, reverse_field,
};
use ffi_utils_derive::text::{contains_str, is_literal};

fn seg(ident: &str, args: PathArgs) -> PathSegment {
    PathSegment { ident: ident.to_string(), args }
}

fn simple_path(idents: &[&str]) -> Path {
    Path {
        leading_colon: false,
        segments: idents.iter().map(|i| seg(i, PathArgs::Plain)).collect(),
    }
}

fn named(text: &str, idents: &[&str]) -> FieldType {
    FieldType::Path(TypePath { text: text.to_string(), path: simple_path(idents) })
}

fn ptr_to(text: &str, idents: &[&str]) -> FieldType {
    FieldType::Ptr(Box::new(named(text, idents)))
}

fn marker(name: &str) -> Attr {
    Attr { name: Some(name.to_string()), args: None }
}

fn target(args: &str) -> Attr {
    Attr { name: Some("target_type".to_string()), args: Some(args.to_string()) }
}

fn field(name: &str, ty: FieldType, nullable: bool) -> FieldDecl {
    FieldDecl {
        name: Some(name.to_string()),
        ty,
        attrs: if nullable { vec![marker("nullable")] } else { vec![] },
    }
}

fn decl(attrs: Vec<Attr>, fields: Vec<FieldDecl>) -> StructDecl {
    StructDecl { name: "CFoo".to_string(), attrs, fields: Some(fields) }
}

fn name_and_count() -> StructDecl {
    decl(
        vec![marker("repr"), target("Foo")],
        vec![
            field("name", ptr_to("std::os::raw::c_char", &["std", "os", "raw", "c_char"]), false),
            field("count", ptr_to("u32", &["u32"]), true),
        ],
    )
}

#[test]
fn name_and_nullable_count_forward() {
    let text = impl_creprof_macro(&name_and_count()).unwrap();
    assert_eq!(
        text,
        "impl CReprOf<Foo> for CFoo { fn c_repr_of(input: Foo) -> Result<Self, ffi_utils::Error> { Ok(Self { \
         name: convert_to_c_string_result!(input.name)?, \
         count: if let Some(it) = input.count { ffi_utils::RawPointerTo::<u32>::c_repr_of(it)? } else { std::ptr::null() as _ }, \
         }) } }"
    );
    assert!(text.parse::<proc_macro2::TokenStream>().is_ok());
}

#[test]
fn name_and_nullable_count_reverse() {
    let text = impl_asrust_macro(&name_and_count()).unwrap();
    assert_eq!(
        text,
        "impl AsRust<Foo> for CFoo { fn as_rust(&self) -> Result<Foo, ffi_utils::Error> { Ok(Foo { \
         name: create_rust_string_from!(self.name), \
         count: if self.count != std::ptr::null() { Some(self.count.as_rust()?) } else { None }, \
         }) } }"
    );
    assert!(text.parse::<proc_macro2::TokenStream>().is_ok());
}

#[test]
fn missing_target_type_aborts() {
    let d = decl(vec![marker("repr")], vec![field("count", named("u32", &["u32"]), false)]);
    assert_eq!(impl_creprof_macro(&d), Err(DeriveError::MissingTargetType));
    assert_eq!(impl_asrust_macro(&d), Err(DeriveError::MissingTargetType));
}

#[test]
fn target_type_that_is_no_path_aborts() {
    let d = decl(vec![target("1 + 2")], vec![]);
    assert_eq!(impl_creprof_macro(&d), Err(DeriveError::InvalidTargetType));
    assert_eq!(impl_asrust_macro(&d), Err(DeriveError::InvalidTargetType));
    let without_args = decl(vec![marker("target_type")], vec![]);
    assert_eq!(impl_creprof_macro(&without_args), Err(DeriveError::InvalidTargetType));
}

#[test]
fn qualified_generic_target_type_is_accepted() {
    let d = decl(vec![target("crate::model::Foo<u8>")], vec![]);
    assert_eq!(
        impl_creprof_macro(&d).unwrap(),
        "impl CReprOf<crate::model::Foo<u8>> for CFoo { fn c_repr_of(input: crate::model::Foo<u8>) -> Result<Self, ffi_utils::Error> { Ok(Self { }) } }"
    );
}

#[test]
fn duplicated_target_type_aborts() {
    let d = decl(vec![target("First"), marker("repr"), target("Second")], vec![]);
    assert_eq!(impl_creprof_macro(&d), Err(DeriveError::DuplicateTargetType));
    assert_eq!(impl_asrust_macro(&d), Err(DeriveError::DuplicateTargetType));
    let d = decl(vec![target("not a path"), target("Second")], vec![]);
    assert_eq!(impl_asrust_macro(&d), Err(DeriveError::DuplicateTargetType));
}

#[test]
fn reference_field_aborts() {
    let d = decl(
        vec![target("Foo")],
        vec![field("count", named("u32", &["u32"]), false), field("r", FieldType::Other, false)],
    );
    assert_eq!(impl_creprof_macro(&d), Err(DeriveError::UnsupportedFieldType));
    assert_eq!(impl_asrust_macro(&d), Err(DeriveError::UnsupportedFieldType));
}

#[test]
fn pointer_to_slice_aborts() {
    let d = decl(vec![target("Foo")], vec![field("p", FieldType::Ptr(Box::new(FieldType::Other)), false)]);
    assert_eq!(impl_creprof_macro(&d), Err(DeriveError::UnsupportedFieldType));
    assert_eq!(impl_asrust_macro(&d), Err(DeriveError::UnsupportedFieldType));
}

#[test]
fn unnamed_field_aborts() {
    let d = decl(
        vec![target("Foo")],
        vec![FieldDecl { name: None, ty: named("u32", &["u32"]), attrs: vec![] }],
    );
    assert_eq!(impl_creprof_macro(&d), Err(DeriveError::UnnamedField));
    assert_eq!(impl_asrust_macro(&d), Err(DeriveError::UnnamedField));
}

#[test]
fn enum_aborts_with_checks_in_each_generators_order() {
    let e = StructDecl { name: "E".to_string(), attrs: vec![], fields: None };
    assert_eq!(impl_creprof_macro(&e), Err(DeriveError::NotAStruct));
    assert_eq!(impl_asrust_macro(&e), Err(DeriveError::MissingTargetType));
    let e = StructDecl { name: "E".to_string(), attrs: vec![target("Foo")], fields: None };
    assert_eq!(impl_asrust_macro(&e), Err(DeriveError::NotAStruct));
}

#[test]
fn value_fields_forward_and_reverse() {
    let d = decl(
        vec![target("Foo")],
        vec![field("size", named("usize", &["usize"]), false), field("inner", named("Bar", &["Bar"]), true)],
    );
    assert_eq!(
        impl_creprof_macro(&d).unwrap(),
        "impl CReprOf<Foo> for CFoo { fn c_repr_of(input: Foo) -> Result<Self, ffi_utils::Error> { Ok(Self { \
         size: usize::c_repr_of(input.size)?, \
         inner: if let Some(it) = input.inner { Bar::c_repr_of(it)? } else { std::ptr::null() as _ }, \
         }) } }"
    );
    assert_eq!(
        impl_asrust_macro(&d).unwrap(),
        "impl AsRust<Foo> for CFoo { fn as_rust(&self) -> Result<Foo, ffi_utils::Error> { Ok(Foo { \
         size: self.size.as_rust()?, \
         inner: if self.inner != std::ptr::null() { Some(self.inner.as_rust()?) } else { None }, \
         }) } }"
    );
}

#[test]
fn nullable_string_forward_and_reverse() {
    let f = field("label", ptr_to("c_char", &["c_char"]), true);
    let p = plan_field(&f).unwrap();
    assert_eq!(p, FieldPlan { class: Class::StrPtr, nullable: true });
    assert_eq!(
        forward_field(&f, p),
        "label: if let Some(it) = input.label { convert_to_c_string_result!(it)? } else { std::ptr::null() as _ }"
    );
    assert_eq!(
        reverse_field(&f, p),
        "label: if self.label != std::ptr::null() { Some(create_rust_string_from!(self.label)) } else { None }"
    );
}

#[test]
fn turbofish_for_generic_last_segment() {
    let p = Path {
        leading_colon: false,
        segments: vec![seg("a", PathArgs::Plain), seg("b", PathArgs::Plain), seg("Wrapper", PathArgs::AngleBracketed("<T, u8>".to_string()))],
    };
    assert_eq!(generic_path_to_concrete_type_path(&p), "a::b::Wrapper::<T, u8>");
}

#[test]
fn leading_segments_and_colon_kept() {
    let p = Path {
        leading_colon: true,
        segments: vec![seg("outer", PathArgs::AngleBracketed("<X>".to_string())), seg("Fn", PathArgs::Parenthesized("(u8)".to_string()))],
    };
    assert_eq!(generic_path_to_concrete_type_path(&p), "::outer<X>::Fn");
    assert_eq!(generic_path_to_concrete_type_path(&simple_path(&["u32"])), "u32");
}

#[test]
fn conversion_type_of_pointer_and_value() {
    assert_eq!(conversion_type(&ptr_to("Bar < u8 >", &["Bar"])), "ffi_utils::RawPointerTo::<Bar < u8 >>");
    let generic = FieldType::Path(TypePath {
        text: "Vec<u8>".to_string(),
        path: Path { leading_colon: false, segments: vec![seg("Vec", PathArgs::AngleBracketed("<u8>".to_string()))] },
    });
    assert_eq!(conversion_type(&generic), "Vec::<u8>");
}

#[test]
fn classification_of_each_shape() {
    assert_eq!(classify_field_type(&ptr_to("libc::c_char", &["libc", "c_char"])), Some(Class::StrPtr));
    assert_eq!(classify_field_type(&ptr_to("my_c_chars::Text", &["my_c_chars", "Text"])), Some(Class::StrPtr));
    assert_eq!(classify_field_type(&ptr_to("Bar", &["Bar"])), Some(Class::OpaquePtr));
    assert_eq!(classify_field_type(&named("u32", &["u32"])), Some(Class::Value));
    assert_eq!(classify_field_type(&named("", &[])), None);
    assert_eq!(classify_field_type(&FieldType::Other), None);
    assert_eq!(classify_field_type(&FieldType::Ptr(Box::new(ptr_to("u8", &["u8"])))), None);
}

#[test]
fn plans_stop_at_first_bad_field() {
    let fs = vec![
        field("a", named("u8", &["u8"]), true),
        FieldDecl { name: None, ty: FieldType::Other, attrs: vec![] },
        field("c", FieldType::Other, false),
    ];
    assert_eq!(plan_fields(&fs), Err(DeriveError::UnnamedField));
    let fs = vec![field("a", named("u8", &["u8"]), true), field("b", ptr_to("Bar", &["Bar"]), false)];
    assert_eq!(
        plan_fields(&fs).unwrap(),
        vec![FieldPlan { class: Class::Value, nullable: true }, FieldPlan { class: Class::OpaquePtr, nullable: false }]
    );
}

#[test]
fn attribute_lookup() {
    let attrs = vec![Attr { name: None, args: None }, marker("nullable"), target("X"), target("Y")];
    assert_eq!(find_attr(&attrs, "target_type"), Some(2));
    assert_eq!(find_attr(&attrs, "converted"), None);
    assert!(has_nullable(&attrs));
    assert!(!has_nullable(&vec![marker("nullable_not"), marker("target_type")]));
}

#[test]
fn substring_search() {
    assert!(contains_str("c_char", "c_char"));
    assert!(contains_str("my_c_char_t", "c_char"));
    assert!(!contains_str("c_cha", "c_char"));
    assert!(!contains_str("cchar", "c_char"));
    assert!(contains_str("", ""));
    assert!(contains_str("héllo", "llo"));
    assert!(is_literal(&"nullable".to_string(), "nullable"));
    assert!(!is_literal(&"nullable".to_string(), "nullabl"));
}

#[test]
fn every_error_has_a_message() {
    for e in [
        DeriveError::NotAStruct,
        DeriveError::MissingTargetType,
        DeriveError::DuplicateTargetType,
        DeriveError::InvalidTargetType,
        DeriveError::UnnamedField,
        DeriveError::UnsupportedFieldType,
    ] {
        assert!(!e.message(Generator::CReprOf).is_empty());
        assert!(!e.message(Generator::AsRust).is_empty());
    }
    assert_eq!(DeriveError::UnnamedField.message(Generator::AsRust), "field should have an ident");
}

#[test]
fn messages_name_the_generator() {
    assert_eq!(
        DeriveError::MissingTargetType.message(Generator::CReprOf),
        "Can't derive CReprOf without target_type helper attribute."
    );
    assert_eq!(
        DeriveError::MissingTargetType.message(Generator::AsRust),
        "Can't derive AsRust without target_type helper attribute."
    );
    assert_eq!(DeriveError::NotAStruct.message(Generator::CReprOf), "CReprOf can only be derived for structs");
    assert_eq!(DeriveError::NotAStruct.message(Generator::AsRust), "AsRust can only be derived for structs");
}

#[test]
fn rendering_follows_the_given_path_verdict() {
    let d = decl(vec![target("Foo")], vec![field("size", named("usize", &["usize"]), false)]);
    assert_eq!(render_creprof(&d, false), Err(DeriveError::InvalidTargetType));
    assert_eq!(render_asrust(&d, false), Err(DeriveError::InvalidTargetType));
    assert_eq!(
        render_creprof(&d, true).unwrap(),
        "impl CReprOf<Foo> for CFoo { fn c_repr_of(input: Foo) -> Result<Self, ffi_utils::Error> { Ok(Self { size: usize::c_repr_of(input.size)?, }) } }"
    );
    assert_eq!(
        render_asrust(&d, true).unwrap(),
        "impl AsRust<Foo> for CFoo { fn as_rust(&self) -> Result<Foo, ffi_utils::Error> { Ok(Foo { size: self.size.as_rust()?, }) } }"
    );
    let missing = decl(vec![], vec![]);
    assert_eq!(render_creprof(&missing, true), Err(DeriveError::MissingTargetType));
    let e = StructDecl { name: "E".to_string(), attrs: vec![target("Foo")], fields: None };
    assert_eq!(render_creprof(&e, false), Err(DeriveError::NotAStruct));
    assert_eq!(render_asrust(&e, false), Err(DeriveError::InvalidTargetType));
    assert_eq!(render_asrust(&e, true), Err(DeriveError::NotAStruct));
}
