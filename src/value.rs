use vstd::prelude::*;

use crate::shape::{defaultable, FieldDesc, Shape, VariantDesc, Wide};

verus! {

/// A runtime value of some shape.
#[derive(Debug)]
pub enum Value {
    Bool(bool),
    /// A stepped integer, whatever its declared width.
    Int(i128),
    U128(u128),
    I128(i128),
    Usize(usize),
    Text(String),
    Optional(Option<Box<Value>>),
    List(Vec<Value>),
    Tuple(Vec<Value>),
    /// Contents of a keyed collection or of a set.
    Entries(Vec<Value>),
    /// Field values of a record, in declaration order.
    Record(Vec<Value>),
    /// The active variant's position and its field values.
    Variant(usize, Vec<Value>),
}

/// Whether `v` is the default value of shape `s`.
pub open spec fn is_default(s: Shape, v: Value) -> bool
    decreases s,
{
    match s {
        Shape::Bool => v == Value::Bool(false),
        Shape::Stepped(_) => v == Value::Int(0),
        Shape::Wide(Wide::U128) => v == Value::U128(0),
        Shape::Wide(Wide::I128) => v == Value::I128(0),
        Shape::Wide(Wide::Usize) => v == Value::Usize(0),
        Shape::Text => v is Text && v->Text_0@.len() == 0,
        Shape::Optional(_) => v == Value::Optional(None),
        Shape::List(_) => v is List && v->List_0@.len() == 0,
        Shape::Keyed(_, _) => v is Entries && v->Entries_0@.len() == 0,
        Shape::Unkeyed(_) => v is Entries && v->Entries_0@.len() == 0,
        Shape::Tuple(ss) => {
            &&& v is Tuple
            &&& v->Tuple_0@.len() == ss@.len()
            &&& forall|i: int| 0 <= i < ss@.len() ==> is_default(#[trigger] ss@[i], v->Tuple_0@[i])
        },
        Shape::Record { fields, .. } => {
            &&& v is Record
            &&& v->Record_0@.len() == fields@.len()
            &&& forall|i: int|
                0 <= i < fields@.len() ==> is_default(#[trigger] fields@[i].shape, v->Record_0@[i])
        },
        Shape::Choice { variants, default_variant, .. } => match default_variant {
            Some(d) => {
                &&& d < variants@.len()
                &&& v is Variant
                &&& v->Variant_0 == d
                &&& v->Variant_1@.len() == variants@[d as int].fields@.len()
                &&& forall|i: int|
                    0 <= i < variants@[d as int].fields@.len() ==> is_default(
                        #[trigger] variants@[d as int].fields@[i].shape,
                        v->Variant_1@[i],
                    )
            },
            None => false,
        },
    }
}

/// Whether `vs` holds the default value of each field, in order.
pub open spec fn fields_default(fields: Seq<FieldDesc>, vs: Seq<Value>) -> bool {
    &&& vs.len() == fields.len()
    &&& forall|i: int| 0 <= i < fields.len() ==> is_default(#[trigger] fields[i].shape, vs[i])
}

/// Whether `v` is variant `t`, described by `vd`, freshly built with every field at its default.
pub open spec fn fresh_variant(vd: VariantDesc, t: usize, v: Value) -> bool {
    &&& v is Variant
    &&& v->Variant_0 == t
    &&& fields_default(vd.fields@, v->Variant_1@)
}

/// The default value of each field, in order.
pub fn field_defaults(fields: &Vec<FieldDesc>) -> (r: Vec<Value>)
    requires
        forall|i: int| 0 <= i < fields@.len() ==> defaultable(#[trigger] fields@[i].shape),
    ensures
        fields_default(fields@, r@),
    decreases fields,
{
    let mut r: Vec<Value> = Vec::new();
    let mut i: usize = 0;
    while i < fields.len()
        invariant
            0 <= i <= fields@.len(),
            forall|j: int| 0 <= j < fields@.len() ==> defaultable(#[trigger] fields@[j].shape),
            r@.len() == i,
            forall|j: int| 0 <= j < i ==> is_default(#[trigger] fields@[j].shape, r@[j]),
        decreases fields@.len() - i,
    {
        proof {
            assert(decreases_to!(*fields => fields@[i as int]));
        }
        let v = default_value(&fields[i].shape);
        r.push(v);
        i = i + 1;
    }
    r
}

/// Synthesizes the default value of shape `s`.
#[verifier::loop_isolation(false)]
pub fn default_value(s: &Shape) -> (v: Value)
    requires
        defaultable(*s),
    ensures
        is_default(*s, v),
    decreases s,
{
    match s {
        Shape::Bool => Value::Bool(false),
        Shape::Stepped(_) => Value::Int(0),
        Shape::Wide(Wide::U128) => Value::U128(0),
        Shape::Wide(Wide::I128) => Value::I128(0),
        Shape::Wide(Wide::Usize) => Value::Usize(0),
        Shape::Text => Value::Text(String::new()),
        Shape::Optional(_) => Value::Optional(None),
        Shape::List(_) => Value::List(Vec::new()),
        Shape::Keyed(_, _) => Value::Entries(Vec::new()),
        Shape::Unkeyed(_) => Value::Entries(Vec::new()),
        Shape::Tuple(ss) => {
            let mut r: Vec<Value> = Vec::new();
            let mut i: usize = 0;
            while i < ss.len()
                invariant
                    0 <= i <= ss@.len(),
                    r@.len() == i,
                    forall|j: int| 0 <= j < i ==> is_default(#[trigger] ss@[j], r@[j]),
                decreases ss@.len() - i,
            {
                let v = default_value(&ss[i]);
                r.push(v);
                i = i + 1;
            }
            Value::Tuple(r)
        },
        Shape::Record { fields, .. } => Value::Record(field_defaults(fields)),
        Shape::Choice { variants, default_variant, .. } => {
            let d = default_variant.unwrap();
            Value::Variant(d, field_defaults(&variants[d].fields))
        },
    }
}

} // verus!
