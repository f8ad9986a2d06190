use vstd::prelude::*;

use crate::shape::{stepped_bounds, stepped_max, stepped_min, well_formed, Shape, Wide};
use crate::text::{i128_of, parse_i128, parse_u128, parse_usize, u128_of, usize_of};
use crate::value::{default_value, field_defaults, fresh_variant, is_default, Value};

verus! {

/// What the user did to one control during a frame.
#[derive(Debug)]
pub enum Event {
    /// A checkbox was set to this state.
    Check(bool),
    /// A stepper asked for this number.
    Step(i128),
    /// A text field now holds this text.
    Type(String),
    /// This text was entered into a wide integer's field.
    Submit(String),
    /// An optional's presence box was set to this state.
    Toggle(bool),
    /// A list's "add" button was pressed.
    Append,
    /// A list's "remove last" button was pressed.
    RemoveLast,
    /// The selector entry of the variant at this position was picked.
    Select(usize),
}

pub open spec fn clamp(n: int, lo: int, hi: int) -> int {
    if n < lo {
        lo
    } else if n > hi {
        hi
    } else {
        n
    }
}

/// Whether `w` is what `e`, aimed at the control of `v` itself, makes of `v`.
/// An event that does not fit the control leaves the value as it was.
pub open spec fn edited_here(s: Shape, v: Value, e: Event, w: Value) -> bool {
    match e {
        Event::Check(b) => if s is Bool && v is Bool {
            w == Value::Bool(b)
        } else {
            w == v
        },
        Event::Step(n) => match s {
            Shape::Stepped(k) => if v is Int {
                w == Value::Int(clamp(n as int, stepped_min(k), stepped_max(k)) as i128)
            } else {
                w == v
            },
            _ => w == v,
        },
        Event::Type(t) => if s is Text && v is Text {
            w is Text && w->Text_0@ == t@
        } else {
            w == v
        },
        Event::Submit(t) => match s {
            Shape::Wide(Wide::U128) => if v is U128 {
                match u128_of(t@) {
                    Some(n) => w == Value::U128(n),
                    None => w == v,
                }
            } else {
                w == v
            },
            Shape::Wide(Wide::I128) => if v is I128 {
                match i128_of(t@) {
                    Some(n) => w == Value::I128(n),
                    None => w == v,
                }
            } else {
                w == v
            },
            Shape::Wide(Wide::Usize) => if v is Usize {
                match usize_of(t@) {
                    Some(n) => w == Value::Usize(n),
                    None => w == v,
                }
            } else {
                w == v
            },
            _ => w == v,
        },
        Event::Toggle(on) => match s {
            Shape::Optional(inner) => if v is Optional {
                if !on {
                    w == Value::Optional(None)
                } else if v->Optional_0 is None {
                    w matches Value::Optional(Some(b)) && is_default(*inner, *b)
                } else {
                    w == v
                }
            } else {
                w == v
            },
            _ => w == v,
        },
        Event::Append => match s {
            Shape::List(elem) => if v is List {
                &&& w is List
                &&& w->List_0@.len() == v->List_0@.len() + 1
                &&& w->List_0@.drop_last() == v->List_0@
                &&& is_default(*elem, w->List_0@.last())
            } else {
                w == v
            },
            _ => w == v,
        },
        Event::RemoveLast => if s is List && v is List && v->List_0@.len() > 0 {
            w is List && w->List_0@ == v->List_0@.drop_last()
        } else {
            w == v
        },
        Event::Select(t) => match s {
            Shape::Choice { variants, .. } => if v is Variant && t < variants@.len()
                && !variants@[t as int].skip && t != v->Variant_0 {
                fresh_variant(variants@[t as int], t, w)
            } else {
                w == v
            },
            _ => w == v,
        },
    }
}

/// Whether `w` is what `e`, aimed at the control found by following `path`
/// down from `v`, makes of `v`. A step of the path picks a field, an element
/// or an optional's content (step 0). A path that leads nowhere, into a
/// skipped field, or into a skipped active variant, leaves `v` as it was.
pub open spec fn edited(s: Shape, v: Value, path: Seq<usize>, e: Event, w: Value) -> bool
    decreases path.len(),
{
    if path.len() == 0 {
        edited_here(s, v, e, w)
    } else {
        let i = path[0] as int;
        let rest = path.drop_first();
        match s {
            Shape::Optional(inner) => match v {
                Value::Optional(Some(b)) => if i == 0 {
                    w matches Value::Optional(Some(c)) && edited(*inner, *b, rest, e, *c)
                } else {
                    w == v
                },
                _ => w == v,
            },
            Shape::List(elem) => if v is List && i < v->List_0@.len() {
                &&& w is List
                &&& w->List_0@ == v->List_0@.update(i, w->List_0@[i])
                &&& edited(*elem, v->List_0@[i], rest, e, w->List_0@[i])
            } else {
                w == v
            },
            Shape::Tuple(ss) => if v is Tuple && i < v->Tuple_0@.len() && i < ss@.len() {
                &&& w is Tuple
                &&& w->Tuple_0@ == v->Tuple_0@.update(i, w->Tuple_0@[i])
                &&& edited(ss@[i], v->Tuple_0@[i], rest, e, w->Tuple_0@[i])
            } else {
                w == v
            },
            Shape::Record { fields, .. } => if v is Record && i < v->Record_0@.len() && i
                < fields@.len() && !fields@[i].skip {
                &&& w is Record
                &&& w->Record_0@ == v->Record_0@.update(i, w->Record_0@[i])
                &&& edited(fields@[i].shape, v->Record_0@[i], rest, e, w->Record_0@[i])
            } else {
                w == v
            },
            Shape::Choice { variants, .. } => if v is Variant && v->Variant_0 < variants@.len()
                && !variants@[v->Variant_0 as int].skip && i < v->Variant_1@.len() && i
                < variants@[v->Variant_0 as int].fields@.len()
                && !variants@[v->Variant_0 as int].fields@[i].skip {
                &&& w is Variant
                &&& w->Variant_0 == v->Variant_0
                &&& w->Variant_1@ == v->Variant_1@.update(i, w->Variant_1@[i])
                &&& edited(
                    variants@[v->Variant_0 as int].fields@[i].shape,
                    v->Variant_1@[i],
                    rest,
                    e,
                    w->Variant_1@[i],
                )
            } else {
                w == v
            },
            _ => w == v,
        }
    }
}

fn copy_text(s: &String) -> (r: String)
    ensures
        r@ == s@,
{
    s.clone()
}

/// Applies `event` to the control of `value` itself.
pub fn edit_here(shape: &Shape, value: &mut Value, event: &Event)
    requires
        well_formed(*shape),
    ensures
        edited_here(*shape, *old(value), *event, *final(value)),
{
    match event {
        Event::Check(b) => {
            if matches!(shape, Shape::Bool) && matches!(value, Value::Bool(_)) {
                *value = Value::Bool(*b);
            }
        },
        Event::Step(n) => {
            if let Shape::Stepped(k) = shape {
                if matches!(value, Value::Int(_)) {
                    let (lo, hi) = stepped_bounds(*k);
                    let m = if *n < lo {
                        lo
                    } else if *n > hi {
                        hi
                    } else {
                        *n
                    };
                    *value = Value::Int(m);
                }
            }
        },
        Event::Type(t) => {
            if matches!(shape, Shape::Text) && matches!(value, Value::Text(_)) {
                *value = Value::Text(copy_text(t));
            }
        },
        Event::Submit(t) => {
            match shape {
                Shape::Wide(Wide::U128) => {
                    if matches!(value, Value::U128(_)) {
                        if let Some(n) = parse_u128(t.as_str()) {
                            *value = Value::U128(n);
                        }
                    }
                },
                Shape::Wide(Wide::I128) => {
                    if matches!(value, Value::I128(_)) {
                        if let Some(n) = parse_i128(t.as_str()) {
                            *value = Value::I128(n);
                        }
                    }
                },
                Shape::Wide(Wide::Usize) => {
                    if matches!(value, Value::Usize(_)) {
                        if let Some(n) = parse_usize(t.as_str()) {
                            *value = Value::Usize(n);
                        }
                    }
                },
                _ => {},
            }
        },
        Event::Toggle(on) => {
            if let Shape::Optional(inner) = shape {
                let absent = match value {
                    Value::Optional(o) => Some(o.is_none()),
                    _ => None,
                };
                match absent {
                    Some(absent) => {
                        if !*on {
                            *value = Value::Optional(None);
                        } else if absent {
                            *value = Value::Optional(Some(Box::new(default_value(inner))));
                        }
                    },
                    None => {},
                }
            }
        },
        Event::Append => {
            if let Shape::List(elem) = shape {
                if let Value::List(xs) = value {
                    let d = default_value(elem);
                    proof {
                        assert(xs@.push(d).drop_last() == xs@);
                    }
                    xs.push(d);
                }
            }
        },
        Event::RemoveLast => {
            if matches!(shape, Shape::List(_)) {
                if let Value::List(xs) = value {
                    if xs.len() > 0 {
                        xs.pop();
                    }
                }
            }
        },
        Event::Select(t) => {
            if let Shape::Choice { variants, .. } = shape {
                let current = match value {
                    Value::Variant(c, _) => Some(*c),
                    _ => None,
                };
                match current {
                    Some(c) => {
                        let t = *t;
                        if t < variants.len() && !variants[t].skip && t != c {
                            *value = Value::Variant(t, field_defaults(&variants[t].fields));
                        }
                    },
                    None => {},
                }
            }
        },
    }
}

fn edit_from(shape: &Shape, value: &mut Value, path: &Vec<usize>, at: usize, event: &Event)
    requires
        well_formed(*shape),
        at <= path@.len(),
    ensures
        edited(*shape, *old(value), path@.subrange(at as int, path@.len() as int), *event, *final(value)),
    decreases path@.len() - at,
{
    if at == path.len() {
        edit_here(shape, value, event);
        return;
    }
    let i = path[at];
    proof {
        let p = path@.subrange(at as int, path@.len() as int);
        assert(p[0] == i);
        assert(p.drop_first() == path@.subrange(at + 1, path@.len() as int));
    }
    match shape {
        Shape::Optional(inner) => {
            if i == 0 {
                if let Value::Optional(Some(b)) = value {
                    edit_from(inner, &mut **b, path, at + 1, event);
                }
            }
        },
        Shape::List(elem) => {
            if let Value::List(xs) = value {
                if i < xs.len() {
                    edit_from(elem, &mut xs[i], path, at + 1, event);
                }
            }
        },
        Shape::Tuple(ss) => {
            if let Value::Tuple(xs) = value {
                if i < xs.len() && i < ss.len() {
                    edit_from(&ss[i], &mut xs[i], path, at + 1, event);
                }
            }
        },
        Shape::Record { fields, .. } => {
            if let Value::Record(xs) = value {
                if i < xs.len() && i < fields.len() && !fields[i].skip {
                    edit_from(&fields[i].shape, &mut xs[i], path, at + 1, event);
                }
            }
        },
        Shape::Choice { variants, .. } => {
            if let Value::Variant(c, xs) = value {
                let c = *c;
                if c < variants.len() && !variants[c].skip && i < xs.len() && i
                    < variants[c].fields.len() && !variants[c].fields[i].skip {
                    edit_from(&variants[c].fields[i].shape, &mut xs[i], path, at + 1, event);
                }
            }
        },
        _ => {},
    }
}

/// Applies `event` to the control reached by following `path` down from
/// `value`. This is the whole of what one frame of editing does to a value.
pub fn edit(shape: &Shape, value: &mut Value, path: &Vec<usize>, event: &Event)
    requires
        well_formed(*shape),
    ensures
        edited(*shape, *old(value), path@, *event, *final(value)),
{
    proof {
        assert(path@.subrange(0, path@.len() as int) == path@);
    }
    edit_from(shape, value, path, 0, event);
}

} // verus!
