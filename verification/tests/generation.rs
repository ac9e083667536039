use builder::classify::{FieldKind, GenError};
use builder::model::{
    Annotation, AnnotationArg, FieldDescriptor, RecordDecl, RecordShape, TypeExpr, Visibility,
};
use builder::ops::{generate, DrainStep, MutatorDecl};
use builder::shape::InitValue;

fn ty(head: &str, args: Vec<TypeExpr>) -> TypeExpr {
    TypeExpr { head: head.to_string(), args }
}

fn bare(head: &str) -> TypeExpr {
    ty(head, vec![])
}

fn field(name: &str, t: TypeExpr) -> FieldDescriptor {
    FieldDescriptor {
        name: name.to_string(),
        vis: Visibility::Inherited,
        ty: t,
        annotations: vec![],
    }
}

fn annotated(name: &str, t: TypeExpr, anns: Vec<Annotation>) -> FieldDescriptor {
    FieldDescriptor { name: name.to_string(), vis: Visibility::Inherited, ty: t, annotations: anns }
}

fn each_ann(appender: &str) -> Annotation {
    Annotation {
        name: "builder".to_string(),
        args: vec![AnnotationArg::KeyString {
            key: "each".to_string(),
            value: appender.to_string(),
        }],
    }
}

fn each_field(name: &str, t: TypeExpr, appender: &str) -> FieldDescriptor {
    annotated(name, t, vec![each_ann(appender)])
}

fn named(name: &str, fields: Vec<FieldDescriptor>) -> RecordDecl {
    RecordDecl { name: name.to_string(), shape: RecordShape::Named { fields } }
}

fn command_decl() -> RecordDecl {
    named(
        "Command",
        vec![
            field("name", bare("String")),
            field("note", ty("Option", vec![bare("String")])),
            each_field("tag", ty("Vec", vec![bare("String")]), "push_tag"),
        ],
    )
}

#[test]
fn command_scenario_generates_builder() {
    let module = generate(command_decl()).unwrap();

    assert_eq!(module.shape.record_name, "Command");
    assert_eq!(module.shape.builder_name, "CommandBuilder");
    assert_eq!(module.shape.entries.len(), 3);

    assert_eq!(module.shape.entries[0].kind, FieldKind::Required { inner_type: bare("String") });
    assert_eq!(module.shape.entries[1].kind, FieldKind::Optional { inner_type: bare("String") });
    assert_eq!(
        module.shape.entries[2].kind,
        FieldKind::Accumulating {
            element_type: bare("String"),
            appender_name: "push_tag".to_string(),
        }
    );

    assert_eq!(module.shape.entries[0].storage, ty("Option", vec![bare("String")]));
    assert_eq!(module.shape.entries[1].storage, ty("Option", vec![bare("String")]));
    assert_eq!(module.shape.entries[2].storage, ty("Vec", vec![bare("String")]));

    assert_eq!(module.shape.entries[0].init, InitValue::Absent);
    assert_eq!(module.shape.entries[1].init, InitValue::Absent);
    assert_eq!(module.shape.entries[2].init, InitValue::EmptySeq);

    assert_eq!(
        module.mutators,
        vec![
            MutatorDecl::Setter { field_name: "name".to_string(), param_type: bare("String") },
            MutatorDecl::Setter { field_name: "note".to_string(), param_type: bare("String") },
            MutatorDecl::Appender {
                appender_name: "push_tag".to_string(),
                field_name: "tag".to_string(),
                element_type: bare("String"),
            },
        ]
    );

    assert_eq!(module.finalizer.required_checks, vec!["name".to_string()]);
    assert_eq!(
        module.finalizer.drains,
        vec![DrainStep::UnwrapRequired, DrainStep::TakeOptional, DrainStep::CopyAccumulated]
    );
}

#[test]
fn storage_order_follows_field_order() {
    let module = generate(named(
        "Pair",
        vec![field("second", bare("u64")), field("first", bare("u64"))],
    ))
    .unwrap();
    assert_eq!(module.shape.entries[0].field.name, "second");
    assert_eq!(module.shape.entries[1].field.name, "first");
}

#[test]
fn regeneration_is_stable() {
    let a = generate(command_decl()).unwrap();
    let b = generate(command_decl()).unwrap();
    assert_eq!(a, b);
}

#[test]
fn rejects_tuple_record() {
    let decl = RecordDecl {
        name: "Point".to_string(),
        shape: RecordShape::Tuple { types: vec![bare("u64"), bare("u64")] },
    };
    assert_eq!(generate(decl), Err(GenError::NotNamedRecord));
}

#[test]
fn rejects_unit_record() {
    let decl = RecordDecl { name: "Unit".to_string(), shape: RecordShape::Unit };
    assert_eq!(generate(decl), Err(GenError::NotNamedRecord));
}

#[test]
fn rejects_variant_record() {
    let decl = RecordDecl { name: "Choice".to_string(), shape: RecordShape::Variants };
    assert_eq!(generate(decl), Err(GenError::NotNamedRecord));
}

#[test]
fn malformed_annotation_with_two_args_rejected() {
    let ann = Annotation {
        name: "builder".to_string(),
        args: vec![
            AnnotationArg::KeyString { key: "each".to_string(), value: "a".to_string() },
            AnnotationArg::KeyString { key: "each".to_string(), value: "b".to_string() },
        ],
    };
    let decl = named("R", vec![annotated("tags", ty("Vec", vec![bare("String")]), vec![ann])]);
    assert_eq!(generate(decl), Err(GenError::MalformedAnnotation { field: "tags".to_string() }));
}

#[test]
fn malformed_annotation_with_opaque_arg_rejected() {
    let ann = Annotation { name: "builder".to_string(), args: vec![AnnotationArg::Other] };
    let decl = named("R", vec![annotated("tags", ty("Vec", vec![bare("String")]), vec![ann])]);
    assert_eq!(generate(decl), Err(GenError::MalformedAnnotation { field: "tags".to_string() }));
}

#[test]
fn wrong_annotation_key_rejected() {
    let ann = Annotation {
        name: "builder".to_string(),
        args: vec![AnnotationArg::KeyString { key: "per".to_string(), value: "push".to_string() }],
    };
    let decl = named("R", vec![annotated("tags", ty("Vec", vec![bare("String")]), vec![ann])]);
    assert_eq!(
        generate(decl),
        Err(GenError::WrongAnnotationKey { field: "tags".to_string(), key: "per".to_string() })
    );
}

#[test]
fn appender_name_must_be_identifier() {
    for bad in ["push tag", "", "9tag", "a-b"] {
        let decl = named("R", vec![each_field("tags", ty("Vec", vec![bare("String")]), bad)]);
        assert_eq!(
            generate(decl),
            Err(GenError::BadAppenderName { field: "tags".to_string(), value: bad.to_string() })
        );
    }
    let ok = named("R", vec![each_field("tags", ty("Vec", vec![bare("String")]), "_tag9")]);
    assert!(generate(ok).is_ok());
}

#[test]
fn accumulation_annotation_takes_priority_over_option() {
    let decl = named(
        "R",
        vec![each_field("extra", ty("Option", vec![bare("String")]), "push_extra")],
    );
    let module = generate(decl).unwrap();
    assert_eq!(
        module.shape.entries[0].kind,
        FieldKind::Accumulating {
            element_type: bare("String"),
            appender_name: "push_extra".to_string(),
        }
    );
}

#[test]
fn option_needs_exactly_one_argument() {
    let odd = ty("Option", vec![bare("u64"), bare("bool")]);
    let module = generate(named("R", vec![field("x", odd)])).unwrap();
    assert_eq!(
        module.shape.entries[0].kind,
        FieldKind::Required { inner_type: ty("Option", vec![bare("u64"), bare("bool")]) }
    );
}

#[test]
fn unrecognized_annotation_is_ignored() {
    let ann = Annotation {
        name: "serde".to_string(),
        args: vec![AnnotationArg::KeyString {
            key: "rename".to_string(),
            value: "x".to_string(),
        }],
    };
    let module =
        generate(named("R", vec![annotated("x", ty("Option", vec![bare("u64")]), vec![ann])]))
            .unwrap();
    assert_eq!(module.shape.entries[0].kind, FieldKind::Optional { inner_type: bare("u64") });
}

#[test]
fn empty_record_builds_empty_module() {
    let module = generate(named("Empty", vec![])).unwrap();
    assert_eq!(module.shape.builder_name, "EmptyBuilder");
    assert!(module.shape.entries.is_empty());
    assert!(module.mutators.is_empty());
    assert!(module.finalizer.required_checks.is_empty());
    assert!(module.finalizer.drains.is_empty());
}
