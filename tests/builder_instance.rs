use builder::instance::{BuilderInstance, FieldValue};
use builder::record::{Data, DeriveInput, Fields, SourceField};
use builder::synth::GeneratedBuilder;
use builder::syntax::{GenericArgument, PathArguments, PathSegment, TypeExpr};

fn plain(name: &str) -> TypeExpr {
    TypeExpr::Path(vec![PathSegment { ident: name.to_string(), arguments: PathArguments::Bare }])
}

fn option(t: TypeExpr) -> TypeExpr {
    TypeExpr::Path(vec![PathSegment {
        ident: "Option".to_string(),
        arguments: PathArguments::AngleBracketed(vec![GenericArgument::Type(t)]),
    }])
}

fn generated(name: &str, fields: Vec<(&str, TypeExpr)>) -> GeneratedBuilder {
    let fields = fields
        .into_iter()
        .map(|(n, t)| SourceField { name: n.to_string(), declared_type: t })
        .collect();
    let input = DeriveInput { ident: name.to_string(), has_generics: false, data: Data::Struct(Fields::Named(fields)) };
    builder::synth::derive(&input).unwrap()
}

fn command() -> GeneratedBuilder {
    generated(
        "Command",
        vec![
            ("executable", plain("String")),
            ("args", option(plain("String"))),
            ("current_dir", option(plain("String"))),
        ],
    )
}

#[test]
fn command_builds_with_executable_only() {
    let g = command();
    let mut b: BuilderInstance<String> = BuilderInstance::new(&g);
    let exe = g.setter_index("executable").unwrap();
    b.set(exe, "ls".to_string());
    assert_eq!(
        b.build(),
        Some(vec![
            FieldValue::Required("ls".to_string()),
            FieldValue::Optional(None),
            FieldValue::Optional(None),
        ])
    );
}

#[test]
fn command_without_executable_is_absent() {
    let g = command();
    let mut b: BuilderInstance<String> = BuilderInstance::new(&g);
    let args = g.setter_index("args").unwrap();
    b.set(args, "-l".to_string());
    assert_eq!(b.build(), None);
}

#[test]
fn fresh_build_fails_with_a_required_field() {
    let g = command();
    let b: BuilderInstance<String> = BuilderInstance::new(&g);
    assert_eq!(b.len(), 3);
    assert_eq!(b.build(), None);
}

#[test]
fn fresh_build_succeeds_when_all_fields_optional() {
    let g = generated("Opts", vec![("a", option(plain("u8"))), ("b", option(plain("u8")))]);
    let b: BuilderInstance<u8> = BuilderInstance::new(&g);
    assert_eq!(b.build(), Some(vec![FieldValue::Optional(None), FieldValue::Optional(None)]));
}

#[test]
fn fresh_build_of_empty_record_succeeds() {
    let g = generated("Empty", vec![]);
    let b: BuilderInstance<u8> = BuilderInstance::new(&g);
    assert_eq!(b.build(), Some(vec![]));
}

#[test]
fn setting_required_fields_defaults_optional_ones() {
    let g = generated(
        "Mixed",
        vec![("x", plain("u32")), ("y", option(plain("u32"))), ("z", plain("u32"))],
    );
    let mut b: BuilderInstance<u32> = BuilderInstance::new(&g);
    b.set(0, 1).set(2, 3);
    assert_eq!(
        b.build(),
        Some(vec![FieldValue::Required(1), FieldValue::Optional(None), FieldValue::Required(3)])
    );
}

#[test]
fn optional_field_passes_value_through() {
    let g = command();
    let mut b: BuilderInstance<String> = BuilderInstance::new(&g);
    b.set(0, "ls".to_string()).set(2, "/tmp".to_string());
    assert_eq!(
        b.build(),
        Some(vec![
            FieldValue::Required("ls".to_string()),
            FieldValue::Optional(None),
            FieldValue::Optional(Some("/tmp".to_string())),
        ])
    );
}

#[test]
fn last_setter_call_wins() {
    let g = command();
    let mut b: BuilderInstance<String> = BuilderInstance::new(&g);
    b.set(0, "ls".to_string()).set(0, "cat".to_string()).set(1, "a".to_string()).set(1, "b".to_string());
    assert_eq!(
        b.build(),
        Some(vec![
            FieldValue::Required("cat".to_string()),
            FieldValue::Optional(Some("b".to_string())),
            FieldValue::Optional(None),
        ])
    );
}

#[test]
fn build_leaves_builder_reusable() {
    let g = command();
    let mut b: BuilderInstance<String> = BuilderInstance::new(&g);
    assert_eq!(b.build(), None);
    b.set(0, "ls".to_string());
    let first = b.build();
    assert_eq!(first, b.build());
    b.set(0, "pwd".to_string());
    assert_eq!(
        b.build(),
        Some(vec![
            FieldValue::Required("pwd".to_string()),
            FieldValue::Optional(None),
            FieldValue::Optional(None),
        ])
    );
}

#[test]
fn nested_option_field_takes_inner_option() {
    let g = generated("Deep", vec![("depth", option(option(plain("i32"))))]);
    assert_eq!(g.setters[0].param_type, option(plain("i32")));
    let mut b: BuilderInstance<Option<i32>> = BuilderInstance::new(&g);
    assert_eq!(b.build(), Some(vec![FieldValue::Optional(None)]));
    b.set(0, None);
    assert_eq!(b.build(), Some(vec![FieldValue::Optional(Some(None))]));
    b.set(0, Some(4));
    assert_eq!(b.build(), Some(vec![FieldValue::Optional(Some(Some(4)))]));
}
