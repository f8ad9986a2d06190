use vstd::prelude::*;

use crate::demo::{Color, Metadata, Simple, SubData, TupleStruct};
use crate::edit::{edit, edited, Event};
use crate::shape::{well_formed, Shape};
use crate::value::Value;

verus! {

pub open spec fn is_u8(v: Value) -> bool {
    v matches Value::Int(n) && 0 <= n <= u8::MAX
}

pub open spec fn is_u32(v: Value) -> bool {
    v matches Value::Int(n) && 0 <= n <= u32::MAX
}

pub open spec fn holds_text(v: Value, t: Seq<char>) -> bool {
    v matches Value::Text(s) && s@ == t
}

fn byte_of(v: &Value) -> (r: Option<u8>)
    ensures
        r is Some <==> is_u8(*v),
        r matches Some(b) ==> *v == Value::Int(b as i128),
{
    match v {
        Value::Int(n) => if 0 <= *n && *n <= 255 {
            Some(*n as u8)
        } else {
            None
        },
        _ => None,
    }
}

fn word_of(v: &Value) -> (r: Option<u32>)
    ensures
        r is Some <==> is_u32(*v),
        r matches Some(b) ==> *v == Value::Int(b as i128),
{
    match v {
        Value::Int(n) => if 0 <= *n && *n <= 4294967295 {
            Some(*n as u32)
        } else {
            None
        },
        _ => None,
    }
}

fn text_in(v: &Value) -> (r: Option<String>)
    ensures
        r is Some <==> v is Text,
        r matches Some(t) ==> holds_text(*v, t@),
{
    match v {
        Value::Text(t) => Some(t.clone()),
        _ => None,
    }
}

fn text_value(t: &String) -> (v: Value)
    ensures
        holds_text(v, t@),
{
    Value::Text(t.clone())
}

impl Metadata {
    /// Whether `v` is this value in the shape of `Metadata`.
    pub open spec fn encodes(&self, v: Value) -> bool {
        v matches Value::Record(vs) && vs@.len() == 1 && holds_text(vs@[0], self.message@)
    }

    /// Whether `v` holds some `Metadata`.
    pub open spec fn fits(v: Value) -> bool {
        v matches Value::Record(vs) && vs@.len() == 1 && vs@[0] is Text
    }

    pub fn to_value(&self) -> (v: Value)
        ensures
            self.encodes(v),
    {
        Value::Record(vec![text_value(&self.message)])
    }

    pub fn from_value(v: &Value) -> (r: Option<Metadata>)
        ensures
            r is Some <==> Metadata::fits(*v),
            r matches Some(m) ==> m.encodes(*v),
    {
        match v {
            Value::Record(vs) => {
                if vs.len() != 1 {
                    return None;
                }
                match text_in(&vs[0]) {
                    Some(message) => Some(Metadata { message }),
                    None => None,
                }
            },
            _ => None,
        }
    }
}

pub open spec fn messages_encoded(list: Seq<Metadata>, xs: Seq<Value>) -> bool {
    &&& xs.len() == list.len()
    &&& forall|i: int| 0 <= i < list.len() ==> (#[trigger] list[i]).encodes(xs[i])
}

impl SubData {
    pub open spec fn encodes(&self, v: Value) -> bool {
        &&& v matches Value::Record(vs) && vs@.len() == 3
        &&& holds_text(v->Record_0@[0], self.value@)
        &&& v->Record_0@[1] == Value::Int(self.number as i128)
        &&& v->Record_0@[2] matches Value::List(xs) && messages_encoded(self.list@, xs@)
    }

    pub open spec fn fits(v: Value) -> bool {
        &&& v matches Value::Record(vs) && vs@.len() == 3
        &&& v->Record_0@[0] is Text
        &&& is_u32(v->Record_0@[1])
        &&& v->Record_0@[2] matches Value::List(xs) && forall|i: int|
            0 <= i < xs@.len() ==> Metadata::fits(#[trigger] xs@[i])
    }

    pub fn to_value(&self) -> (v: Value)
        ensures
            self.encodes(v),
    {
        let mut xs: Vec<Value> = Vec::new();
        let mut i: usize = 0;
        while i < self.list.len()
            invariant
                0 <= i <= self.list@.len(),
                xs@.len() == i,
                forall|j: int| 0 <= j < i ==> (#[trigger] self.list@[j]).encodes(xs@[j]),
            decreases self.list@.len() - i,
        {
            xs.push(self.list[i].to_value());
            i = i + 1;
        }
        Value::Record(vec![text_value(&self.value), Value::Int(self.number as i128), Value::List(xs)])
    }

    #[verifier::loop_isolation(false)]
    pub fn from_value(v: &Value) -> (r: Option<SubData>)
        ensures
            r is Some <==> SubData::fits(*v),
            r matches Some(d) ==> d.encodes(*v),
    {
        let vs = match v {
            Value::Record(vs) => vs,
            _ => {
                return None;
            },
        };
        if vs.len() != 3 {
            return None;
        }
        let value = match text_in(&vs[0]) {
            Some(t) => t,
            None => {
                return None;
            },
        };
        let number = match word_of(&vs[1]) {
            Some(n) => n,
            None => {
                return None;
            },
        };
        let xs = match &vs[2] {
            Value::List(xs) => xs,
            _ => {
                return None;
            },
        };
        let mut list: Vec<Metadata> = Vec::new();
        let mut i: usize = 0;
        while i < xs.len()
            invariant
                0 <= i <= xs@.len(),
                list@.len() == i,
                forall|j: int| 0 <= j < i ==> Metadata::fits(#[trigger] xs@[j]),
                forall|j: int| 0 <= j < i ==> (#[trigger] list@[j]).encodes(xs@[j]),
            decreases xs@.len() - i,
        {
            match Metadata::from_value(&xs[i]) {
                Some(m) => list.push(m),
                None => {
                    return None;
                },
            }
            i = i + 1;
        }
        Some(SubData { value, number, list })
    }
}

impl TupleStruct {
    pub open spec fn encodes(&self, v: Value) -> bool {
        &&& v matches Value::Record(vs) && vs@.len() == 4
        &&& v->Record_0@[0] == Value::Int(self.0 as i128)
        &&& v->Record_0@[1] == Value::Int(self.1 as i128)
        &&& holds_text(v->Record_0@[2], self.2@)
        &&& self.3.encodes(v->Record_0@[3])
    }

    pub open spec fn fits(v: Value) -> bool {
        &&& v matches Value::Record(vs) && vs@.len() == 4
        &&& is_u8(v->Record_0@[0])
        &&& is_u32(v->Record_0@[1])
        &&& v->Record_0@[2] is Text
        &&& SubData::fits(v->Record_0@[3])
    }

    pub fn to_value(&self) -> (v: Value)
        ensures
            self.encodes(v),
    {
        Value::Record(
            vec![
                Value::Int(self.0 as i128),
                Value::Int(self.1 as i128),
                text_value(&self.2),
                self.3.to_value(),
            ],
        )
    }

    pub fn from_value(v: &Value) -> (r: Option<TupleStruct>)
        ensures
            r is Some <==> TupleStruct::fits(*v),
            r matches Some(t) ==> t.encodes(*v),
    {
        match v {
            Value::Record(vs) => {
                if vs.len() != 4 {
                    return None;
                }
                match (byte_of(&vs[0]), word_of(&vs[1]), text_in(&vs[2]), SubData::from_value(&vs[3])) {
                    (Some(a), Some(b), Some(c), Some(d)) => Some(TupleStruct(a, b, c, d)),
                    _ => None,
                }
            },
            _ => None,
        }
    }
}

impl Simple {
    pub open spec fn encodes(&self, v: Value) -> bool {
        v matches Value::Variant(t, xs) && t == 0 && xs@.len() == 0
    }

    pub fn to_value(&self) -> (v: Value)
        ensures
            self.encodes(v),
    {
        Value::Variant(0, Vec::new())
    }

    pub fn from_value(v: &Value) -> (r: Option<Simple>)
        ensures
            r is Some <==> Simple::Variant.encodes(*v),
            r matches Some(s) ==> s.encodes(*v),
    {
        match v {
            Value::Variant(t, xs) => if *t == 0 && xs.len() == 0 {
                Some(Simple::Variant)
            } else {
                None
            },
            _ => None,
        }
    }
}

pub open spec fn rgb_encoded(xs: Seq<Value>, r: u8, g: u8, b: u8) -> bool {
    &&& xs.len() == 3
    &&& xs[0] == Value::Int(r as i128)
    &&& xs[1] == Value::Int(g as i128)
    &&& xs[2] == Value::Int(b as i128)
}

pub open spec fn custom_encoded(xs: Seq<Value>, red: u8, blue: u8, green: u8, metadata: Metadata) -> bool {
    &&& xs.len() == 4
    &&& rgb_encoded(xs.subrange(0, 3), red, blue, green)
    &&& metadata.encodes(xs[3])
}

pub open spec fn bytes_encoded(bs: Seq<u8>, v: Value) -> bool {
    &&& v matches Value::List(xs) && xs@.len() == bs.len()
    &&& forall|i: int| 0 <= i < bs.len() ==> v->List_0@[i] == Value::Int(#[trigger] bs[i] as i128)
}

pub open spec fn pair_encoded(p: (u8, u32), v: Value) -> bool {
    v matches Value::Tuple(t) && t@.len() == 2 && t@[0] == Value::Int(p.0 as i128) && t@[1]
        == Value::Int(p.1 as i128)
}

pub open spec fn pairs_encoded(ps: Seq<(u8, u32)>, v: Value) -> bool {
    &&& v matches Value::List(xs) && xs@.len() == ps.len()
    &&& forall|i: int| 0 <= i < ps.len() ==> pair_encoded(#[trigger] ps[i], v->List_0@[i])
}

pub open spec fn rgb_fits(xs: Seq<Value>) -> bool {
    xs.len() == 3 && is_u8(xs[0]) && is_u8(xs[1]) && is_u8(xs[2])
}

pub open spec fn custom_fits(xs: Seq<Value>) -> bool {
    xs.len() == 4 && rgb_fits(xs.subrange(0, 3)) && Metadata::fits(xs[3])
}

pub open spec fn bytes_fit(v: Value) -> bool {
    v matches Value::List(xs) && forall|i: int| 0 <= i < xs@.len() ==> is_u8(#[trigger] xs@[i])
}

pub open spec fn pair_fits(v: Value) -> bool {
    v matches Value::Tuple(t) && t@.len() == 2 && is_u8(t@[0]) && is_u32(t@[1])
}

pub open spec fn pairs_fit(v: Value) -> bool {
    v matches Value::List(xs) && forall|i: int| 0 <= i < xs@.len() ==> pair_fits(#[trigger] xs@[i])
}

fn rgb_value(r: u8, g: u8, b: u8) -> (xs: Vec<Value>)
    ensures
        rgb_encoded(xs@, r, g, b),
{
    vec![Value::Int(r as i128), Value::Int(g as i128), Value::Int(b as i128)]
}

fn custom_value(red: u8, blue: u8, green: u8, metadata: &Metadata) -> (xs: Vec<Value>)
    ensures
        custom_encoded(xs@, red, blue, green, *metadata),
{
    let xs = vec![
        Value::Int(red as i128),
        Value::Int(blue as i128),
        Value::Int(green as i128),
        metadata.to_value(),
    ];
    proof {
        assert(rgb_encoded(xs@.subrange(0, 3), red, blue, green));
    }
    xs
}

fn bytes_value(bs: &Vec<u8>) -> (v: Value)
    ensures
        bytes_encoded(bs@, v),
{
    let mut xs: Vec<Value> = Vec::new();
    let mut i: usize = 0;
    while i < bs.len()
        invariant
            0 <= i <= bs@.len(),
            xs@.len() == i,
            forall|j: int| 0 <= j < i ==> xs@[j] == Value::Int(#[trigger] bs@[j] as i128),
        decreases bs@.len() - i,
    {
        xs.push(Value::Int(bs[i] as i128));
        i = i + 1;
    }
    Value::List(xs)
}

fn pairs_value(ps: &Vec<(u8, u32)>) -> (v: Value)
    ensures
        pairs_encoded(ps@, v),
{
    let mut xs: Vec<Value> = Vec::new();
    let mut i: usize = 0;
    while i < ps.len()
        invariant
            0 <= i <= ps@.len(),
            xs@.len() == i,
            forall|j: int| 0 <= j < i ==> pair_encoded(#[trigger] ps@[j], xs@[j]),
        decreases ps@.len() - i,
    {
        let (a, b) = ps[i];
        xs.push(Value::Tuple(vec![Value::Int(a as i128), Value::Int(b as i128)]));
        i = i + 1;
    }
    Value::List(xs)
}

fn rgb_from(xs: &Vec<Value>) -> (r: Option<(u8, u8, u8)>)
    ensures
        r is Some <==> rgb_fits(xs@),
        r matches Some(t) ==> rgb_encoded(xs@, t.0, t.1, t.2),
{
    if xs.len() != 3 {
        return None;
    }
    match (byte_of(&xs[0]), byte_of(&xs[1]), byte_of(&xs[2])) {
        (Some(a), Some(b), Some(c)) => Some((a, b, c)),
        _ => None,
    }
}

fn custom_from(xs: &Vec<Value>) -> (r: Option<(u8, u8, u8, Metadata)>)
    ensures
        r is Some <==> custom_fits(xs@),
        r matches Some(t) ==> custom_encoded(xs@, t.0, t.1, t.2, t.3),
{
    if xs.len() != 4 {
        return None;
    }
    proof {
        assert(xs@.subrange(0, 3)[0] == xs@[0]);
        assert(xs@.subrange(0, 3)[1] == xs@[1]);
        assert(xs@.subrange(0, 3)[2] == xs@[2]);
    }
    match (byte_of(&xs[0]), byte_of(&xs[1]), byte_of(&xs[2]), Metadata::from_value(&xs[3])) {
        (Some(a), Some(b), Some(c), Some(m)) => Some((a, b, c, m)),
        _ => None,
    }
}

#[verifier::loop_isolation(false)]
fn bytes_from(v: &Value) -> (r: Option<Vec<u8>>)
    ensures
        r is Some <==> bytes_fit(*v),
        r matches Some(bs) ==> bytes_encoded(bs@, *v),
{
    let xs = match v {
        Value::List(xs) => xs,
        _ => {
            return None;
        },
    };
    let mut bs: Vec<u8> = Vec::new();
    let mut i: usize = 0;
    while i < xs.len()
        invariant
            0 <= i <= xs@.len(),
            bs@.len() == i,
            forall|j: int| 0 <= j < i ==> is_u8(#[trigger] xs@[j]),
            forall|j: int| 0 <= j < i ==> xs@[j] == Value::Int(#[trigger] bs@[j] as i128),
        decreases xs@.len() - i,
    {
        match byte_of(&xs[i]) {
            Some(b) => bs.push(b),
            None => {
                return None;
            },
        }
        i = i + 1;
    }
    Some(bs)
}

fn pair_from(v: &Value) -> (r: Option<(u8, u32)>)
    ensures
        r is Some <==> pair_fits(*v),
        r matches Some(p) ==> pair_encoded(p, *v),
{
    match v {
        Value::Tuple(t) => {
            if t.len() != 2 {
                return None;
            }
            match (byte_of(&t[0]), word_of(&t[1])) {
                (Some(a), Some(b)) => Some((a, b)),
                _ => None,
            }
        },
        _ => None,
    }
}

#[verifier::loop_isolation(false)]
fn pairs_from(v: &Value) -> (r: Option<Vec<(u8, u32)>>)
    ensures
        r is Some <==> pairs_fit(*v),
        r matches Some(ps) ==> pairs_encoded(ps@, *v),
{
    let xs = match v {
        Value::List(xs) => xs,
        _ => {
            return None;
        },
    };
    let mut ps: Vec<(u8, u32)> = Vec::new();
    let mut i: usize = 0;
    while i < xs.len()
        invariant
            0 <= i <= xs@.len(),
            ps@.len() == i,
            forall|j: int| 0 <= j < i ==> pair_fits(#[trigger] xs@[j]),
            forall|j: int| 0 <= j < i ==> pair_encoded(#[trigger] ps@[j], xs@[j]),
        decreases xs@.len() - i,
    {
        match pair_from(&xs[i]) {
            Some(p) => ps.push(p),
            None => {
                return None;
            },
        }
        i = i + 1;
    }
    Some(ps)
}

impl Color {
    /// Whether `v` is this color in the shape of `Color`: the variant's
    /// position among the declared ones, and its fields in order.
    pub open spec fn encodes(&self, v: Value) -> bool {
        match v {
            Value::Variant(t, xs) => match *self {
                Color::Red => t == 0 && xs@.len() == 0,
                Color::Green => t == 1 && xs@.len() == 0,
                Color::LabeledUnitVariant => t == 2 && xs@.len() == 0,
                Color::LabeledNamedVariants { r, g, b } => t == 3 && rgb_encoded(xs@, r, g, b),
                Color::Custom(r, g, b) => t == 4 && rgb_encoded(xs@, r, g, b),
                Color::SkippedCustom(r, g, b) => t == 5 && rgb_encoded(xs@, r, g, b),
                Color::SkippedNamedCustom { red, blue, green, metadata } => t == 6
                    && custom_encoded(xs@, red, blue, green, metadata),
                Color::NamedCustom { red, blue, green, metadata } => t == 7 && custom_encoded(
                    xs@,
                    red,
                    blue,
                    green,
                    metadata,
                ),
                Color::NamedVec { bytes } => t == 8 && xs@.len() == 1 && bytes_encoded(
                    bytes@,
                    xs@[0],
                ),
                Color::UnnamedVec(bytes) => t == 9 && xs@.len() == 1 && bytes_encoded(
                    bytes@,
                    xs@[0],
                ),
                Color::TupleVec(pairs) => t == 10 && xs@.len() == 1 && pairs_encoded(
                    pairs@,
                    xs@[0],
                ),
            },
            _ => false,
        }
    }

    /// Whether `v` holds some `Color`.
    pub open spec fn fits(v: Value) -> bool {
        match v {
            Value::Variant(t, xs) => if t <= 2 {
                xs@.len() == 0
            } else if t <= 5 {
                rgb_fits(xs@)
            } else if t <= 7 {
                custom_fits(xs@)
            } else if t <= 9 {
                xs@.len() == 1 && bytes_fit(xs@[0])
            } else if t == 10 {
                xs@.len() == 1 && pairs_fit(xs@[0])
            } else {
                false
            },
            _ => false,
        }
    }

    pub fn to_value(&self) -> (v: Value)
        ensures
            self.encodes(v),
    {
        match self {
            Color::Red => Value::Variant(0, Vec::new()),
            Color::Green => Value::Variant(1, Vec::new()),
            Color::LabeledUnitVariant => Value::Variant(2, Vec::new()),
            Color::LabeledNamedVariants { r, g, b } => Value::Variant(3, rgb_value(*r, *g, *b)),
            Color::Custom(r, g, b) => Value::Variant(4, rgb_value(*r, *g, *b)),
            Color::SkippedCustom(r, g, b) => Value::Variant(5, rgb_value(*r, *g, *b)),
            Color::SkippedNamedCustom { red, blue, green, metadata } => Value::Variant(
                6,
                custom_value(*red, *blue, *green, metadata),
            ),
            Color::NamedCustom { red, blue, green, metadata } => Value::Variant(
                7,
                custom_value(*red, *blue, *green, metadata),
            ),
            Color::NamedVec { bytes } => Value::Variant(8, vec![bytes_value(bytes)]),
            Color::UnnamedVec(bytes) => Value::Variant(9, vec![bytes_value(bytes)]),
            Color::TupleVec(pairs) => Value::Variant(10, vec![pairs_value(pairs)]),
        }
    }

    pub fn from_value(v: &Value) -> (r: Option<Color>)
        ensures
            r is Some <==> Color::fits(*v),
            r matches Some(c) ==> c.encodes(*v),
    {
        let (t, xs) = match v {
            Value::Variant(t, xs) => (*t, xs),
            _ => {
                return None;
            },
        };
        if t <= 2 {
            if xs.len() != 0 {
                return None;
            }
            return if t == 0 {
                Some(Color::Red)
            } else if t == 1 {
                Some(Color::Green)
            } else {
                Some(Color::LabeledUnitVariant)
            };
        }
        if t <= 5 {
            return match rgb_from(xs) {
                Some((r, g, b)) => if t == 3 {
                    Some(Color::LabeledNamedVariants { r, g, b })
                } else if t == 4 {
                    Some(Color::Custom(r, g, b))
                } else {
                    Some(Color::SkippedCustom(r, g, b))
                },
                None => None,
            };
        }
        if t <= 7 {
            return match custom_from(xs) {
                Some((red, blue, green, metadata)) => if t == 6 {
                    Some(Color::SkippedNamedCustom { red, blue, green, metadata })
                } else {
                    Some(Color::NamedCustom { red, blue, green, metadata })
                },
                None => None,
            };
        }
        if t > 10 || xs.len() != 1 {
            return None;
        }
        if t <= 9 {
            match bytes_from(&xs[0]) {
                Some(bytes) => if t == 8 {
                    Some(Color::NamedVec { bytes })
                } else {
                    Some(Color::UnnamedVec(bytes))
                },
                None => None,
            }
        } else {
            match pairs_from(&xs[0]) {
                Some(pairs) => Some(Color::TupleVec(pairs)),
                None => None,
            }
        }
    }
}

/// Applies one editing event to a `Color` through its shape: the color's
/// value is edited as `edit` says, and taken back when it still holds a
/// color; otherwise the color stays as it was.
pub fn edit_color(shape: &Shape, c: &mut Color, path: &Vec<usize>, event: &Event)
    requires
        well_formed(*shape),
    ensures
        exists|before: Value, after: Value|
            {
                &&& old(c).encodes(before)
                &&& edited(*shape, before, path@, *event, after)
                &&& (Color::fits(after) ==> final(c).encodes(after))
                &&& (!Color::fits(after) ==> *final(c) == *old(c))
            },
{
    let mut v = c.to_value();
    edit(shape, &mut v, path, event);
    match Color::from_value(&v) {
        Some(next) => {
            *c = next;
        },
        None => {},
    }
}

} // verus!
