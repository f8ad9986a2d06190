use enum2egui::attrs::{interpret, AttrError, Marker};
use enum2egui::demo::{Color, Metadata, Simple, SubData, TupleStruct};
use enum2egui::edit::{edit, Event};
use enum2egui::layout::{editor, present, Widget};
use enum2egui::shape::{
    check_shape, generate, is_defaultable, stepped_bounds, unnamed_field_label, Decl, FieldDesc,
    GenError, Shape, Stepped, VariantDesc, VariantKind, Wide,
};
use enum2egui::text::decimal_text;
use enum2egui::value::{default_value, Value};

fn plain(name: &str, shape: Shape) -> FieldDesc {
    FieldDesc::named(name.to_string(), shape, &vec![]).unwrap()
}

fn byte_field(i: usize) -> FieldDesc {
    FieldDesc::positional(i, Shape::Stepped(Stepped::U8), &vec![]).unwrap()
}

fn person_shape() -> Shape {
    let red = VariantDesc::declare("Red".to_string(), VariantKind::Unit, vec![], &vec![]).unwrap();
    let custom = VariantDesc::declare(
        "Custom".to_string(),
        VariantKind::Positional,
        vec![byte_field(0), byte_field(1), byte_field(2)],
        &vec![],
    )
    .unwrap();
    let tag = generate(Decl::Enum {
        name: "Tag".to_string(),
        variants: vec![red, custom],
        default_variant: Some(0),
    })
    .unwrap();
    generate(Decl::Struct {
        name: "Person".to_string(),
        fields: vec![
            plain("name", Shape::Text),
            plain("age", Shape::Wide(Wide::I128)),
            plain("tag", tag),
        ],
    })
    .unwrap()
}

fn person(age: i128) -> Value {
    Value::Record(vec![
        Value::Text("Ada".to_string()),
        Value::I128(age),
        Value::Variant(0, vec![]),
    ])
}

fn fields_of(v: &Value) -> &Vec<Value> {
    match v {
        Value::Record(vs) => vs,
        _ => panic!("not a record"),
    }
}

#[test]
fn person_scenario_keeps_age_and_resets_tag() {
    let shape = person_shape();
    let mut v = person(170141183460469231731687303715884105727);
    edit(&shape, &mut v, &vec![1], &Event::Submit("abc".to_string()));
    assert!(matches!(fields_of(&v)[1], Value::I128(170141183460469231731687303715884105727)));
    edit(&shape, &mut v, &vec![2], &Event::Select(1));
    match &fields_of(&v)[2] {
        Value::Variant(1, xs) => {
            assert_eq!(xs.len(), 3);
            assert!(xs.iter().all(|x| matches!(x, Value::Int(0))));
        }
        _ => panic!("tag is not Custom"),
    }
}

#[test]
fn submitted_number_is_parsed() {
    let shape = person_shape();
    let mut v = person(7);
    edit(&shape, &mut v, &vec![1], &Event::Submit("-42".to_string()));
    assert!(matches!(fields_of(&v)[1], Value::I128(-42)));
    edit(&shape, &mut v, &vec![1], &Event::Submit("12 ".to_string()));
    assert!(matches!(fields_of(&v)[1], Value::I128(-42)));
    let wide = Shape::Wide(Wide::U128);
    let mut n = Value::U128(5);
    edit(&wide, &mut n, &vec![], &Event::Submit("340282366920938463463374607431768211455".to_string()));
    assert!(matches!(n, Value::U128(u128::MAX)));
    edit(&wide, &mut n, &vec![], &Event::Submit("-1".to_string()));
    assert!(matches!(n, Value::U128(u128::MAX)));
    edit(&wide, &mut n, &vec![], &Event::Submit("340282366920938463463374607431768211456".to_string()));
    assert!(matches!(n, Value::U128(u128::MAX)));
}

#[test]
fn reselecting_active_variant_changes_nothing() {
    let shape = person_shape();
    let mut v = person(1);
    edit(&shape, &mut v, &vec![2], &Event::Select(1));
    edit(&shape, &mut v, &vec![2, 0], &Event::Step(9));
    edit(&shape, &mut v, &vec![2], &Event::Select(1));
    match &fields_of(&v)[2] {
        Value::Variant(1, xs) => assert!(matches!(xs[0], Value::Int(9))),
        _ => panic!("tag is not Custom"),
    }
    edit(&shape, &mut v, &vec![2], &Event::Select(0));
    assert!(matches!(&fields_of(&v)[2], Value::Variant(0, xs) if xs.is_empty()));
}

#[test]
fn stepper_clamps_into_range() {
    let shape = Shape::Stepped(Stepped::U8);
    let mut v = Value::Int(1);
    edit(&shape, &mut v, &vec![], &Event::Step(300));
    assert!(matches!(v, Value::Int(255)));
    edit(&shape, &mut v, &vec![], &Event::Step(-4));
    assert!(matches!(v, Value::Int(0)));
    assert_eq!(stepped_bounds(Stepped::I8), (-128, 127));
}

#[test]
fn list_append_and_remove_last() {
    let shape = Shape::List(Box::new(Shape::Text));
    let mut v = Value::List(vec![]);
    edit(&shape, &mut v, &vec![], &Event::RemoveLast);
    assert!(matches!(&v, Value::List(xs) if xs.is_empty()));
    edit(&shape, &mut v, &vec![], &Event::Append);
    edit(&shape, &mut v, &vec![0], &Event::Type("a".to_string()));
    edit(&shape, &mut v, &vec![], &Event::Append);
    match &v {
        Value::List(xs) => {
            assert_eq!(xs.len(), 2);
            assert!(matches!(&xs[0], Value::Text(t) if t == "a"));
            assert!(matches!(&xs[1], Value::Text(t) if t.is_empty()));
        }
        _ => panic!("not a list"),
    }
    edit(&shape, &mut v, &vec![], &Event::RemoveLast);
    match &v {
        Value::List(xs) => {
            assert_eq!(xs.len(), 1);
            assert!(matches!(&xs[0], Value::Text(t) if t == "a"));
        }
        _ => panic!("not a list"),
    }
}

#[test]
fn optional_toggle_resets_to_default() {
    let shape = Shape::Optional(Box::new(Shape::Bool));
    let mut v = Value::Optional(None);
    edit(&shape, &mut v, &vec![], &Event::Toggle(true));
    assert!(matches!(&v, Value::Optional(Some(b)) if matches!(**b, Value::Bool(false))));
    edit(&shape, &mut v, &vec![0], &Event::Check(true));
    assert!(matches!(&v, Value::Optional(Some(b)) if matches!(**b, Value::Bool(true))));
    edit(&shape, &mut v, &vec![], &Event::Toggle(false));
    assert!(matches!(v, Value::Optional(None)));
    edit(&shape, &mut v, &vec![], &Event::Toggle(true));
    assert!(matches!(&v, Value::Optional(Some(b)) if matches!(**b, Value::Bool(false))));
}

fn skipping_record() -> Shape {
    let hidden = FieldDesc::named("hidden".to_string(), Shape::Stepped(Stepped::U32), &vec![Marker::Skip]).unwrap();
    let labeled = FieldDesc::named(
        "a".to_string(),
        Shape::Text,
        &vec![Marker::Label("Labeled Field".to_string()), Marker::Label("Second".to_string())],
    )
    .unwrap();
    generate(Decl::Struct {
        name: "Data".to_string(),
        fields: vec![hidden, labeled, plain("flag", Shape::Bool)],
    })
    .unwrap()
}

#[test]
fn rows_skip_hidden_fields_and_use_labels() {
    let shape = skipping_record();
    let v = Value::Record(vec![Value::Int(7), Value::Text("x".to_string()), Value::Bool(true)]);
    match present(&shape, &v) {
        Widget::Fields { title, rows } => {
            assert_eq!(title, "Data");
            let heads: Vec<(usize, String)> = rows.iter().map(|r| (r.index, r.caption.clone())).collect();
            assert_eq!(heads, vec![(1, "Labeled Field".to_string()), (2, "flag".to_string())]);
            assert!(matches!(&rows[0].body, Widget::Caption(t) if t == "x"));
            assert!(matches!(rows[1].body, Widget::Flag(true)));
        }
        _ => panic!("not a record view"),
    }
    match editor(&shape, &v, &vec![4]) {
        Widget::Fields { rows, .. } => {
            assert_eq!(rows.len(), 2);
            assert!(matches!(&rows[1].body, Widget::Checkbox { path, checked: true } if *path == vec![4, 2]));
        }
        _ => panic!("not a record editor"),
    }
}

#[test]
fn edits_never_reach_skipped_fields() {
    let shape = skipping_record();
    let mut v = Value::Record(vec![Value::Int(7), Value::Text("x".to_string()), Value::Bool(true)]);
    edit(&shape, &mut v, &vec![0], &Event::Step(1));
    edit(&shape, &mut v, &vec![2], &Event::Check(false));
    let vs = fields_of(&v);
    assert!(matches!(vs[0], Value::Int(7)));
    assert!(matches!(vs[2], Value::Bool(false)));
}

#[test]
fn interpreter_rejects_unknown_markers() {
    let ms = vec![Marker::Skip, Marker::Unknown("color".to_string()), Marker::Unknown("x".to_string())];
    assert!(matches!(interpret(&ms), Err(AttrError::UnknownMarker(1))));
    let ms = vec![Marker::DisplayName("Shown".to_string()), Marker::Skip];
    let a = interpret(&ms).unwrap();
    assert!(a.skip);
    assert!(a.label.is_none());
    assert_eq!(a.display_name, Some("Shown".to_string()));
    assert!(FieldDesc::named("a".to_string(), Shape::Bool, &vec![Marker::Unknown("q".to_string())]).is_err());
}

#[test]
fn variant_names_resolve() {
    let v = VariantDesc::declare(
        "Custom".to_string(),
        VariantKind::Unit,
        vec![],
        &vec![Marker::DisplayName("Custom Color".to_string())],
    )
    .unwrap();
    assert_eq!(v.display_name, "Custom Color");
    assert_eq!(v.label, "Custom Color");
    let w = VariantDesc::declare(
        "Plain".to_string(),
        VariantKind::Unit,
        vec![],
        &vec![Marker::Label("Picked".to_string())],
    )
    .unwrap();
    assert_eq!(w.display_name, "Plain");
    assert_eq!(w.label, "Picked");
}

#[test]
fn positional_labels() {
    assert_eq!(unnamed_field_label(0), "field_0");
    assert_eq!(unnamed_field_label(12), "field_12");
    assert_eq!(decimal_text(1907), "1907");
    let f = byte_field(3);
    assert_eq!(f.label, "field_3");
}

#[test]
fn generation_errors() {
    assert!(matches!(generate(Decl::Union { name: "U".to_string() }), Err(GenError::UnsupportedUnion)));
    let no_default = Shape::Choice {
        name: "E".to_string(),
        variants: vec![VariantDesc::declare("A".to_string(), VariantKind::Unit, vec![], &vec![]).unwrap()],
        default_variant: None,
    };
    assert!(!is_defaultable(&no_default));
    let r = generate(Decl::Struct {
        name: "S".to_string(),
        fields: vec![plain("items", Shape::List(Box::new(no_default)))],
    });
    assert!(matches!(r, Err(GenError::MissingDefault)));
}

#[test]
fn selector_lists_visible_variants() {
    let shape = Color::shape();
    assert!(check_shape(&shape));
    let v = default_value(&shape);
    assert!(matches!(&v, Value::Variant(0, xs) if xs.is_empty()));
    match editor(&shape, &v, &vec![]) {
        Widget::Selector { text, entries, rows, .. } => {
            assert_eq!(text, "Red");
            assert_eq!(entries.len(), 9);
            assert!(entries.iter().all(|e| e.variant != 5 && e.variant != 6));
            assert_eq!(entries.iter().filter(|e| e.selected).count(), 1);
            assert_eq!(entries[2].caption, "Renamed Unit Variant");
            assert!(rows.is_empty());
        }
        _ => panic!("not a selector"),
    }
    let skipped = Value::Variant(5, vec![Value::Int(1), Value::Int(2), Value::Int(3)]);
    match editor(&shape, &skipped, &vec![]) {
        Widget::Selector { text, entries, rows, .. } => {
            assert_eq!(text, "Skipped Custom");
            assert!(entries.iter().all(|e| !e.selected));
            assert!(rows.is_empty());
        }
        _ => panic!("not a selector"),
    }
    assert!(matches!(present(&shape, &skipped), Widget::Caption(t) if t == "Skipped Custom"));
}

#[test]
fn demo_defaults() {
    let t = TupleStruct::default();
    assert_eq!((t.0, t.1, t.2.as_str()), (3, 24, "Hello!"));
    assert!(Metadata::default().message.is_empty());
    let s = SubData::default();
    assert_eq!((s.value.len(), s.number, s.list.len()), (0, 0, 0));
    assert_eq!(Simple::default(), Simple::Variant);
    assert!(matches!(Color::default(), Color::Red));
    let v = default_value(&TupleStruct::shape());
    assert!(matches!(&v, Value::Record(xs) if xs.len() == 4));
    assert!(check_shape(&SubData::shape()));
    assert!(check_shape(&Simple::shape()));
}

#[test]
fn read_only_markers() {
    let opt = Shape::Optional(Box::new(Shape::Stepped(Stepped::I32)));
    assert!(matches!(present(&opt, &Value::Optional(None)), Widget::Caption(t) if t == "None"));
    let list = Shape::List(Box::new(Shape::Bool));
    assert!(matches!(present(&list, &Value::List(vec![])), Widget::Caption(t) if t == "Empty Vec"));
    let keyed = Shape::Keyed(Box::new(Shape::Text), Box::new(Shape::Text));
    assert!(matches!(present(&keyed, &Value::Entries(vec![])), Widget::Blank));
}

#[test]
fn usize_field_takes_text() {
    let shape = Shape::Wide(Wide::Usize);
    let mut v = default_value(&shape);
    assert!(matches!(v, Value::Usize(0)));
    edit(&shape, &mut v, &vec![], &Event::Submit("+31".to_string()));
    assert!(matches!(v, Value::Usize(31)));
    edit(&shape, &mut v, &vec![], &Event::Submit("".to_string()));
    assert!(matches!(v, Value::Usize(31)));
    assert!(matches!(editor(&shape, &v, &vec![3]), Widget::UnsignedField { path, number: 31 } if path == vec![3]));
}

#[test]
fn unit_record_renders_nothing() {
    let unit = generate(Decl::Struct { name: "Unit".to_string(), fields: vec![] }).unwrap();
    let v = default_value(&unit);
    assert!(matches!(present(&unit, &v), Widget::Blank));
    assert!(matches!(editor(&unit, &v, &vec![]), Widget::Blank));
}

#[test]
fn tuple_elements_side_by_side() {
    let shape = Shape::Tuple(vec![Shape::Stepped(Stepped::U8), Shape::Text]);
    let mut v = default_value(&shape);
    edit(&shape, &mut v, &vec![1], &Event::Type("t".to_string()));
    match present(&shape, &v) {
        Widget::Row(ws) => {
            assert!(matches!(ws[0], Widget::Number(0)));
            assert!(matches!(&ws[1], Widget::Caption(t) if t == "t"));
        }
        _ => panic!("not a row"),
    }
}

#[test]
fn named_variant_rows_use_field_labels() {
    let shape = Color::shape();
    let v = Color::LabeledNamedVariants { r: 1, g: 2, b: 3 }.to_value();
    match editor(&shape, &v, &vec![]) {
        Widget::Selector { text, entries, rows, .. } => {
            assert_eq!(text, "LabeledNamedVariants");
            let captions: Vec<&str> = rows.iter().map(|r| r.caption.as_str()).collect();
            assert_eq!(captions, vec!["Red", "Green", "Blue"]);
            assert!(entries.iter().any(|e| e.selected && e.caption == "Renamed Named Variants"));
            assert!(matches!(&rows[1].body, Widget::Stepper { path, value: 2, min: 0, max: 255 } if *path == vec![1]));
        }
        _ => panic!("not a selector"),
    }
}
