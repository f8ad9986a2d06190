use enum2egui::convert::edit_color;
use enum2egui::demo::{Color, Metadata, Simple, SubData, TupleStruct};
use enum2egui::edit::{edit, Event};
use enum2egui::layout::{present, Widget};
use enum2egui::value::Value;

fn sample_sub() -> SubData {
    SubData {
        value: "v".to_string(),
        number: 4000000000,
        list: vec![Metadata { message: "Hello!".to_string() }],
    }
}

#[test]
fn sub_data_round_trip() {
    let v = sample_sub().to_value();
    let back = SubData::from_value(&v).unwrap();
    assert_eq!(back.value, "v");
    assert_eq!(back.number, 4000000000);
    assert_eq!(back.list.len(), 1);
    assert_eq!(back.list[0].message, "Hello!");
}

#[test]
fn tuple_struct_round_trip_and_rejects_out_of_range() {
    let t = TupleStruct(7, 8, "x".to_string(), sample_sub());
    let mut v = t.to_value();
    let back = TupleStruct::from_value(&v).unwrap();
    assert_eq!((back.0, back.1, back.2.as_str()), (7, 8, "x"));
    if let Value::Record(vs) = &mut v {
        vs[0] = Value::Int(256);
    }
    assert!(TupleStruct::from_value(&v).is_none());
}

#[test]
fn simple_round_trip() {
    let v = Simple::Variant.to_value();
    assert_eq!(Simple::from_value(&v), Some(Simple::Variant));
    assert_eq!(Simple::from_value(&Value::Variant(1, vec![])), None);
}

#[test]
fn color_round_trip() {
    let colors = vec![
        Color::Green,
        Color::LabeledNamedVariants { r: 1, g: 2, b: 3 },
        Color::Custom(3, 2, 1),
        Color::NamedCustom { red: 23, blue: 100, green: 30, metadata: Metadata { message: "Hello!".to_string() } },
        Color::NamedVec { bytes: vec![1, 2] },
        Color::UnnamedVec(vec![9]),
        Color::TupleVec(vec![(1, 70000)]),
    ];
    for c in colors {
        let v = c.to_value();
        let back = Color::from_value(&v).unwrap();
        assert_eq!(format!("{:?}", back.to_value()), format!("{:?}", v));
    }
    assert!(Color::from_value(&Value::Variant(11, vec![])).is_none());
}

#[test]
fn color_switches_variant_through_its_shape() {
    let shape = Color::shape();
    let mut c = Color::Red;
    edit_color(&shape, &mut c, &vec![], &Event::Select(4));
    assert!(matches!(c, Color::Custom(0, 0, 0)));
    edit_color(&shape, &mut c, &vec![1], &Event::Step(77));
    assert!(matches!(c, Color::Custom(0, 77, 0)));
    edit_color(&shape, &mut c, &vec![], &Event::Select(5));
    assert!(matches!(c, Color::Custom(0, 77, 0)));
    edit_color(&shape, &mut c, &vec![], &Event::Select(10));
    assert!(matches!(&c, Color::TupleVec(ps) if ps.is_empty()));
    edit_color(&shape, &mut c, &vec![0], &Event::Append);
    assert!(matches!(&c, Color::TupleVec(ps) if ps.len() == 1 && ps[0] == (0, 0)));
}

#[test]
fn color_reads_as_its_display_name() {
    let shape = Color::shape();
    let v = Color::Custom(1, 2, 3).to_value();
    assert!(matches!(present(&shape, &v), Widget::Caption(t) if t == "Custom"));
    let v = Color::NamedVec { bytes: vec![] }.to_value();
    assert!(matches!(present(&shape, &v), Widget::Caption(t) if t == "Named Vec"));
}

#[test]
fn nested_list_in_record_is_edited_in_place() {
    let shape = SubData::shape();
    let mut v = sample_sub().to_value();
    edit(&shape, &mut v, &vec![2], &Event::Append);
    edit(&shape, &mut v, &vec![2, 1, 0], &Event::Type("new".to_string()));
    let back = SubData::from_value(&v).unwrap();
    assert_eq!(back.list.len(), 2);
    assert_eq!(back.list[0].message, "Hello!");
    assert_eq!(back.list[1].message, "new");
}
