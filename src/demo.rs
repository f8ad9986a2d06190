use vstd::prelude::*;
use vstd::string::*;

use crate::shape::{
    positional_name,
    defaultable, unnamed_field_label, well_formed, FieldDesc, Shape, Stepped, VariantDesc,
    VariantKind,
};

verus! {

fn text_of(s: &str) -> (r: String)
    ensures
        r@ == s@,
{
    String::from_str(s)
}

/// A field under its declared name, shown and captioned by that name.
fn field(name: &str, shape: Shape) -> (f: FieldDesc)
    ensures
        f.name@ == name@,
        f.label@ == name@,
        !f.skip,
        f.shape == shape,
{
    FieldDesc { name: text_of(name), label: text_of(name), skip: false, shape }
}

/// A field under its declared name, captioned by `label`.
fn labeled_field(name: &str, label: &str, shape: Shape) -> (f: FieldDesc)
    ensures
        f.name@ == name@,
        f.label@ == label@,
        !f.skip,
        f.shape == shape,
{
    FieldDesc { name: text_of(name), label: text_of(label), skip: false, shape }
}

/// The positional field at `index`.
fn positional(index: usize, shape: Shape) -> (f: FieldDesc)
    ensures
        f.name@ == positional_name(index as nat),
        f.label@ == positional_name(index as nat),
        !f.skip,
        f.shape == shape,
{
    let name = unnamed_field_label(index);
    let label = unnamed_field_label(index);
    FieldDesc { name, label, skip: false, shape }
}

/// A variant with the given names and flags.
fn variant(name: &str, label: &str, display: &str, skip: bool, kind: VariantKind, fields: Vec<FieldDesc>) -> (v: VariantDesc)
    ensures
        v.name@ == name@,
        v.label@ == label@,
        v.display_name@ == display@,
        v.skip == skip,
        v.kind == kind,
        v.fields == fields,
{
    VariantDesc {
        name: text_of(name),
        label: text_of(label),
        display_name: text_of(display),
        skip,
        kind,
        fields,
    }
}

fn byte() -> (s: Shape)
    ensures
        s == Shape::Stepped(Stepped::U8),
{
    Shape::Stepped(Stepped::U8)
}

/// A message attached to a color.
#[derive(Debug)]
pub struct Metadata {
    pub message: String,
}

impl Default for Metadata {
    fn default() -> (r: Metadata)
        ensures
            r.message@.len() == 0,
    {
        Metadata { message: String::new() }
    }
}

impl Metadata {
    /// The shape of `Metadata`: one text field.
    pub fn shape() -> (s: Shape)
        ensures
            well_formed(s),
            defaultable(s),
            s matches Shape::Record { name, fields } && name@ == "Metadata"@ && fields@.len() == 1
                && fields@[0].name@ == "message"@ && fields@[0].label@ == "message"@
                && !fields@[0].skip && fields@[0].shape == Shape::Text,
    {
        let fields = vec![field("message", Shape::Text)];
        proof {
            assert(well_formed(fields@[0].shape) && defaultable(fields@[0].shape));
        }
        Shape::Record { name: text_of("Metadata"), fields }
    }
}

/// Nested data: a text, a number and a list of messages.
#[derive(Debug)]
pub struct SubData {
    pub value: String,
    pub number: u32,
    pub list: Vec<Metadata>,
}

impl Default for SubData {
    fn default() -> (r: SubData)
        ensures
            r.value@.len() == 0,
            r.number == 0,
            r.list@.len() == 0,
    {
        SubData { value: String::new(), number: 0, list: Vec::new() }
    }
}

impl SubData {
    /// The shape of `SubData`.
    pub fn shape() -> (s: Shape)
        ensures
            well_formed(s),
            defaultable(s),
            s matches Shape::Record { name, fields } && name@ == "SubData"@ && fields@.len() == 3
                && fields@[0].label@ == "value"@ && fields@[0].shape == Shape::Text
                && fields@[1].label@ == "number"@ && fields@[1].shape == Shape::Stepped(
                Stepped::U32,
            ) && fields@[2].label@ == "list"@ && fields@[2].shape is List,
    {
        let fields = vec![
            field("value", Shape::Text),
            field("number", Shape::Stepped(Stepped::U32)),
            field("list", Shape::List(Box::new(Metadata::shape()))),
        ];
        proof {
            assert forall|i: int| 0 <= i < fields@.len() implies well_formed(
                #[trigger] fields@[i].shape,
            ) && defaultable(fields@[i].shape) by {
                if i == 0 {
                } else if i == 1 {
                } else {
                }
            }
        }
        Shape::Record { name: text_of("SubData"), fields }
    }
}

/// A record of positional fields.
#[derive(Debug)]
pub struct TupleStruct(pub u8, pub u32, pub String, pub SubData);

impl Default for TupleStruct {
    fn default() -> (r: TupleStruct)
        ensures
            r.0 == 3,
            r.1 == 24,
            r.2@ == "Hello!"@,
            r.3.value@.len() == 0,
            r.3.number == 0,
            r.3.list@.len() == 0,
    {
        TupleStruct(3, 24, text_of("Hello!"), SubData::default())
    }
}

impl TupleStruct {
    /// The shape of `TupleStruct`: four positional fields.
    pub fn shape() -> (s: Shape)
        ensures
            well_formed(s),
            defaultable(s),
            s matches Shape::Record { name, fields } && name@ == "TupleStruct"@ && fields@.len() == 4
                && forall|i: int|
                0 <= i < 4 ==> (#[trigger] fields@[i]).label@ == positional_name(i as nat)
                    && !fields@[i].skip,
    {
        let fields = vec![
            positional(0, byte()),
            positional(1, Shape::Stepped(Stepped::U32)),
            positional(2, Shape::Text),
            positional(3, SubData::shape()),
        ];
        proof {
            assert forall|i: int| 0 <= i < fields@.len() implies well_formed(
                #[trigger] fields@[i].shape,
            ) && defaultable(fields@[i].shape) by {
                if i == 0 {
                } else if i == 1 {
                } else if i == 2 {
                } else {
                }
            }
        }
        Shape::Record { name: text_of("TupleStruct"), fields }
    }
}

/// A sum of a single unit variant.
#[derive(PartialEq, Eq, Structural, Debug, Clone, Copy, Hash)]
pub enum Simple {
    Variant,
}

impl Default for Simple {
    fn default() -> (r: Simple)
        ensures
            r == Simple::Variant,
    {
        Simple::Variant
    }
}

impl Simple {
    /// The shape of `Simple`.
    pub fn shape() -> (s: Shape)
        ensures
            well_formed(s),
            defaultable(s),
            s matches Shape::Choice { variants, default_variant, .. } && variants@.len() == 1
                && default_variant == Some(0usize),
    {
        let variants = vec![
            variant("Variant", "Variant", "Variant", false, VariantKind::Unit, Vec::new()),
        ];
        Shape::Choice { name: text_of("Simple"), variants, default_variant: Some(0) }
    }
}

/// A color, in one of several forms; some are kept out of the editor.
#[derive(Debug)]
pub enum Color {
    Red,
    Green,
    LabeledUnitVariant,
    LabeledNamedVariants { r: u8, g: u8, b: u8 },
    Custom(u8, u8, u8),
    SkippedCustom(u8, u8, u8),
    SkippedNamedCustom { red: u8, blue: u8, green: u8, metadata: Metadata },
    NamedCustom { red: u8, blue: u8, green: u8, metadata: Metadata },
    NamedVec { bytes: Vec<u8> },
    UnnamedVec(Vec<u8>),
    TupleVec(Vec<(u8, u32)>),
}

impl Default for Color {
    fn default() -> (r: Color)
        ensures
            r is Red,
    {
        Color::Red
    }
}

/// How the variants of `Color` are customized: two are skipped, two carry
/// a selector label, five a display name, and one names its fields' captions.
pub open spec fn color_variants(vs: Seq<VariantDesc>) -> bool {
    &&& forall|i: int| 0 <= i < vs.len() ==> ((#[trigger] vs[i]).skip <==> (i == 5 || i == 6))
    &&& vs[0].display_name@ == "Red"@
    &&& vs[2].label@ == "Renamed Unit Variant"@
    &&& vs[2].display_name@ == "LabeledUnitVariant"@
    &&& vs[3].label@ == "Renamed Named Variants"@
    &&& vs[3].fields@.len() == 3
    &&& vs[3].fields@[0].label@ == "Red"@
    &&& vs[3].fields@[1].label@ == "Green"@
    &&& vs[3].fields@[2].label@ == "Blue"@
    &&& vs[4].display_name@ == "Custom"@
    &&& vs[5].display_name@ == "Skipped Custom"@
    &&& vs[8].display_name@ == "Named Vec"@
    &&& vs[9].display_name@ == "Unnamed Vec"@
    &&& vs[10].display_name@ == "Tuple Vec"@
    &&& vs[4].fields@.len() == 3
}

/// Every field's shape is accepted by generation and has a default.
pub open spec fn fields_ok(fs: Seq<FieldDesc>) -> bool {
    forall|j: int| 0 <= j < fs.len() ==> well_formed(#[trigger] fs[j].shape) && defaultable(fs[j].shape)
}

fn no_fields() -> (fs: Vec<FieldDesc>)
    ensures
        fs@.len() == 0,
        fields_ok(fs@),
{
    Vec::new()
}

fn rgb_fields() -> (fs: Vec<FieldDesc>)
    ensures
        fs@.len() == 3,
        fields_ok(fs@),
{
    let fs = vec![positional(0, byte()), positional(1, byte()), positional(2, byte())];
    proof {
        assert(fs@[0].shape == Shape::Stepped(Stepped::U8));
    }
    fs
}

fn named_rgb_fields() -> (fs: Vec<FieldDesc>)
    ensures
        fs@.len() == 3,
        fs@[0].label@ == "Red"@,
        fs@[1].label@ == "Green"@,
        fs@[2].label@ == "Blue"@,
        fields_ok(fs@),
{
    vec![
        labeled_field("r", "Red", byte()),
        labeled_field("g", "Green", byte()),
        labeled_field("b", "Blue", byte()),
    ]
}

fn custom_fields() -> (fs: Vec<FieldDesc>)
    ensures
        fs@.len() == 4,
        fields_ok(fs@),
{
    let fs = vec![
        field("red", byte()),
        field("blue", byte()),
        field("green", byte()),
        field("metadata", Metadata::shape()),
    ];
    proof {
        assert forall|j: int| 0 <= j < fs@.len() implies well_formed(#[trigger] fs@[j].shape)
            && defaultable(fs@[j].shape) by {
            if j < 3 {
            } else {
            }
        }
    }
    fs
}

fn bytes_fields(named: bool) -> (fs: Vec<FieldDesc>)
    ensures
        fs@.len() == 1,
        fields_ok(fs@),
{
    let list = Shape::List(Box::new(byte()));
    proof {
        assert(defaultable(Shape::Stepped(Stepped::U8)));
        assert(well_formed(Shape::Stepped(Stepped::U8)));
        assert(well_formed(list));
    }
    let fs = if named {
        vec![field("bytes", list)]
    } else {
        vec![positional(0, list)]
    };
    proof {
        assert(well_formed(fs@[0].shape));
    }
    fs
}

fn pairs_fields() -> (fs: Vec<FieldDesc>)
    ensures
        fs@.len() == 1,
        fields_ok(fs@),
{
    let pair = Shape::Tuple(vec![byte(), Shape::Stepped(Stepped::U32)]);
    proof {
        let ss = pair->Tuple_0@;
        assert(ss.len() == 2);
        assert forall|i: int| 0 <= i < ss.len() implies well_formed(#[trigger] ss[i]) && defaultable(ss[i]) by {
            if i == 0 {
                assert(ss[0] == Shape::Stepped(Stepped::U8));
            } else {
                assert(ss[1] == Shape::Stepped(Stepped::U32));
            }
        }
        assert(well_formed(pair));
        assert(defaultable(pair));
    }
    let fs = vec![positional(0, Shape::List(Box::new(pair)))];
    proof {
        assert(well_formed(fs@[0].shape));
    }
    fs
}

impl Color {
    /// The shape of `Color`, with its labels, display names and skipped variants.
    pub fn shape() -> (s: Shape)
        ensures
            well_formed(s),
            defaultable(s),
            s matches Shape::Choice { variants, default_variant, .. } && variants@.len() == 11
                && default_variant == Some(0usize) && color_variants(variants@),
    {
        let variants = vec![
            variant("Red", "Red", "Red", false, VariantKind::Unit, no_fields()),
            variant("Green", "Green", "Green", false, VariantKind::Unit, no_fields()),
            variant(
                "LabeledUnitVariant",
                "Renamed Unit Variant",
                "LabeledUnitVariant",
                false,
                VariantKind::Unit,
                no_fields(),
            ),
            variant(
                "LabeledNamedVariants",
                "Renamed Named Variants",
                "LabeledNamedVariants",
                false,
                VariantKind::Named,
                named_rgb_fields(),
            ),
            variant("Custom", "Custom", "Custom", false, VariantKind::Positional, rgb_fields()),
            variant(
                "SkippedCustom",
                "Skipped Custom",
                "Skipped Custom",
                true,
                VariantKind::Positional,
                rgb_fields(),
            ),
            variant(
                "SkippedNamedCustom",
                "SkippedNamedCustom",
                "SkippedNamedCustom",
                true,
                VariantKind::Named,
                custom_fields(),
            ),
            variant(
                "NamedCustom",
                "NamedCustom",
                "NamedCustom",
                false,
                VariantKind::Named,
                custom_fields(),
            ),
            variant("NamedVec", "Named Vec", "Named Vec", false, VariantKind::Named, bytes_fields(true)),
            variant(
                "UnnamedVec",
                "Unnamed Vec",
                "Unnamed Vec",
                false,
                VariantKind::Positional,
                bytes_fields(false),
            ),
            variant("TupleVec", "Tuple Vec", "Tuple Vec", false, VariantKind::Positional, pairs_fields()),
        ];
        proof {
            let vs = variants@;
            assert forall|i: int| 0 <= i < vs.len() implies ((#[trigger] vs[i]).skip <==> (i == 5
                || i == 6)) by {
                if i < 5 {
                } else if i < 7 {
                } else {
                }
            }
            assert forall|i: int| 0 <= i < vs.len() implies fields_ok(#[trigger] vs[i].fields@) by {
                if i < 3 {
                } else if i < 6 {
                } else if i < 8 {
                } else {
                }
            }
            assert forall|i: int, j: int|
                0 <= i < vs.len() && 0 <= j < vs[i].fields@.len() implies {
                &&& well_formed(#[trigger] vs[i].fields@[j].shape)
                &&& defaultable(vs[i].fields@[j].shape)
            } by {
                assert(fields_ok(vs[i].fields@));
            }
        }
        Shape::Choice { name: text_of("Color"), variants, default_variant: Some(0) }
    }
}

} // verus!
