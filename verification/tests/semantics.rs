use builder::model::{
    Annotation, AnnotationArg, FieldDescriptor, RecordDecl, RecordShape, TypeExpr, Visibility,
};
use builder::ops::generate;
use builder::runtime::{DynBuilder, FieldPlan, FieldValue, KindTag, Value};

fn plan(fields: Vec<(&str, KindTag)>) -> Vec<FieldPlan> {
    fields
        .into_iter()
        .map(|(name, kind)| FieldPlan { name: name.to_string(), kind })
        .collect()
}

fn text(s: &str) -> Value {
    Value::Text(s.to_string())
}

#[test]
fn required_round_trip_in_any_order() {
    let mut b = DynBuilder::new_builder(plan(vec![
        ("host", KindTag::Required),
        ("port", KindTag::Required),
    ]));
    b.set(1, Value::Number(80));
    b.set(0, text("localhost"));
    let rec = b.build().unwrap();
    assert_eq!(
        rec,
        vec![FieldValue::One(text("localhost")), FieldValue::One(Value::Number(80))]
    );
}

#[test]
fn setter_called_twice_keeps_last_value() {
    let mut b = DynBuilder::new_builder(plan(vec![("host", KindTag::Required)]));
    b.set(0, text("first"));
    b.set(0, text("second"));
    let rec = b.build().unwrap();
    assert_eq!(rec, vec![FieldValue::One(text("second"))]);
}

#[test]
fn omitted_optional_stays_absent() {
    let mut b = DynBuilder::new_builder(plan(vec![
        ("name", KindTag::Required),
        ("note", KindTag::Optional),
    ]));
    b.set(0, text("x"));
    let rec = b.build().unwrap();
    assert_eq!(rec, vec![FieldValue::One(text("x")), FieldValue::Maybe(None)]);
}

#[test]
fn populated_optional_is_kept() {
    let mut b = DynBuilder::new_builder(plan(vec![("note", KindTag::Optional)]));
    b.set(0, text("hi"));
    let rec = b.build().unwrap();
    assert_eq!(rec, vec![FieldValue::Maybe(Some(text("hi")))]);
}

#[test]
fn appender_accumulates_in_call_order() {
    let mut b = DynBuilder::new_builder(plan(vec![("tag", KindTag::Accumulating)]));
    b.append(0, text("a"));
    b.append(0, text("b"));
    b.append(0, text("c"));
    let rec = b.build().unwrap();
    assert_eq!(rec, vec![FieldValue::Many(vec![text("a"), text("b"), text("c")])]);
}

#[test]
fn build_copies_accumulator_and_can_run_again() {
    let mut b = DynBuilder::new_builder(plan(vec![("tag", KindTag::Accumulating)]));
    b.append(0, text("a"));
    b.append(0, text("b"));
    let first = b.build().unwrap();
    assert_eq!(first, vec![FieldValue::Many(vec![text("a"), text("b")])]);
    let second = b.build().unwrap();
    assert_eq!(second, vec![FieldValue::Many(vec![text("a"), text("b")])]);
    b.append(0, text("c"));
    let third = b.build().unwrap();
    assert_eq!(third, vec![FieldValue::Many(vec![text("a"), text("b"), text("c")])]);
}

#[test]
fn missing_required_field_is_named() {
    let mut b = DynBuilder::new_builder(plan(vec![("host", KindTag::Required)]));
    let failure = b.build().unwrap_err();
    assert_eq!(failure.field_name, "host");
}

#[test]
fn first_missing_required_field_in_declaration_order_is_named() {
    let mut b = DynBuilder::new_builder(plan(vec![
        ("host", KindTag::Required),
        ("port", KindTag::Required),
    ]));
    let failure = b.build().unwrap_err();
    assert_eq!(failure.field_name, "host");

    let mut b = DynBuilder::new_builder(plan(vec![
        ("host", KindTag::Required),
        ("port", KindTag::Required),
    ]));
    b.set(0, text("localhost"));
    let failure = b.build().unwrap_err();
    assert_eq!(failure.field_name, "port");
}

#[test]
fn required_storage_is_drained_by_build() {
    let mut b = DynBuilder::new_builder(plan(vec![("host", KindTag::Required)]));
    b.set(0, text("localhost"));
    assert!(b.build().is_ok());
    let failure = b.build().unwrap_err();
    assert_eq!(failure.field_name, "host");
}

#[test]
fn factory_instances_are_independent() {
    let fields = vec![("note", KindTag::Optional), ("tag", KindTag::Accumulating)];
    let mut b1 = DynBuilder::new_builder(plan(fields.clone()));
    let mut b2 = DynBuilder::new_builder(plan(fields));
    b1.set(0, text("only in b1"));
    b1.append(1, text("t"));
    let rec2 = b2.build().unwrap();
    assert_eq!(rec2, vec![FieldValue::Maybe(None), FieldValue::Many(vec![])]);
    let rec1 = b1.build().unwrap();
    assert_eq!(
        rec1,
        vec![FieldValue::Maybe(Some(text("only in b1"))), FieldValue::Many(vec![text("t")])]
    );
}

fn command_decl() -> RecordDecl {
    RecordDecl {
        name: "Command".to_string(),
        shape: RecordShape::Named {
            fields: vec![
                FieldDescriptor {
                    name: "name".to_string(),
                    vis: Visibility::Inherited,
                    ty: TypeExpr { head: "String".to_string(), args: vec![] },
                    annotations: vec![],
                },
                FieldDescriptor {
                    name: "note".to_string(),
                    vis: Visibility::Inherited,
                    ty: TypeExpr {
                        head: "Option".to_string(),
                        args: vec![TypeExpr { head: "String".to_string(), args: vec![] }],
                    },
                    annotations: vec![],
                },
                FieldDescriptor {
                    name: "tag".to_string(),
                    vis: Visibility::Inherited,
                    ty: TypeExpr {
                        head: "Vec".to_string(),
                        args: vec![TypeExpr { head: "String".to_string(), args: vec![] }],
                    },
                    annotations: vec![Annotation {
                        name: "builder".to_string(),
                        args: vec![AnnotationArg::KeyString {
                            key: "each".to_string(),
                            value: "push_tag".to_string(),
                        }],
                    }],
                },
            ],
        },
    }
}

#[test]
fn generated_builder_full_scenario() {
    let module = generate(command_decl()).unwrap();
    let mut b = DynBuilder::new_builder(module.shape.plan());
    assert_eq!(b.len(), 3);
    b.set(0, text("x"));
    b.append(2, text("a"));
    b.append(2, text("b"));
    let rec = b.build().unwrap();
    assert_eq!(
        rec,
        vec![
            FieldValue::One(text("x")),
            FieldValue::Maybe(None),
            FieldValue::Many(vec![text("a"), text("b")]),
        ]
    );
}

#[test]
fn generated_builder_scenario_missing_name_fails() {
    let module = generate(command_decl()).unwrap();
    let mut b = DynBuilder::new_builder(module.shape.plan());
    b.append(2, text("a"));
    b.append(2, text("b"));
    let failure = b.build().unwrap_err();
    assert_eq!(failure.field_name, "name");
}

#[test]
fn empty_plan_builds_empty_record() {
    let mut b = DynBuilder::new_builder(vec![]);
    assert_eq!(b.len(), 0);
    let rec = b.build().unwrap();
    assert!(rec.is_empty());
}
