use vstd::prelude::*;

use crate::attrs::{label_of, Marker};
use crate::edit::{edited, edited_here, Event};
use crate::layout::{kept, row_heads, FieldRow};
use crate::shape::{or_else, stepped_max, stepped_min, well_formed, FieldDesc, Shape, Wide};
use crate::text::{i128_of, u128_of, usize_of};
use crate::value::{fresh_variant, is_default, Value};

verus! {

/// Picking a variant other than the active one replaces the value with that
/// variant, every field at its default, whatever the old contents were.
pub proof fn variant_switch_resets(s: Shape, v: Value, b: usize, w: Value)
    requires
        s matches Shape::Choice { variants, .. } && b < variants@.len() && !variants@[b as int].skip,
        v matches Value::Variant(a, _) && a != b,
        edited(s, v, seq![], Event::Select(b), w),
    ensures
        s matches Shape::Choice { variants, .. } && fresh_variant(variants@[b as int], b, w),
{
}

/// Picking the active variant again changes nothing.
pub proof fn reselect_is_identity(s: Shape, v: Value, w: Value)
    requires
        v is Variant,
        edited(s, v, seq![], Event::Select(v->Variant_0), w),
    ensures
        w == v,
{
}

/// "Add" grows a list by one default element at its end and keeps the rest.
pub proof fn append_adds_default(s: Shape, v: Value, w: Value)
    requires
        s is List,
        v is List,
        edited(s, v, seq![], Event::Append, w),
    ensures
        w is List,
        w->List_0@.len() == v->List_0@.len() + 1,
        forall|i: int| 0 <= i < v->List_0@.len() ==> w->List_0@[i] == v->List_0@[i],
        is_default(*s->List_0, w->List_0@[v->List_0@.len() as int]),
{
    assert(forall|i: int|
        0 <= i < v->List_0@.len() ==> w->List_0@.drop_last()[i] == w->List_0@[i]);
}

/// "Remove last" drops the final element of a non-empty list and keeps the
/// others; on an empty list it does nothing.
pub proof fn remove_last_drops_end(s: Shape, v: Value, w: Value)
    requires
        s is List,
        v is List,
        edited(s, v, seq![], Event::RemoveLast, w),
    ensures
        v->List_0@.len() == 0 ==> w == v,
        v->List_0@.len() > 0 ==> {
            &&& w is List
            &&& w->List_0@.len() == v->List_0@.len() - 1
            &&& forall|i: int| 0 <= i < w->List_0@.len() ==> w->List_0@[i] == v->List_0@[i]
        },
{
}

/// Text that does not parse leaves a wide integer as it was.
pub proof fn unparsable_text_keeps_number(s: Shape, v: Value, t: String, w: Value)
    requires
        s == Shape::Wide(Wide::U128) ==> u128_of(t@) is None,
        s == Shape::Wide(Wide::I128) ==> i128_of(t@) is None,
        s == Shape::Wide(Wide::Usize) ==> usize_of(t@) is None,
        edited(s, v, seq![], Event::Submit(t), w),
    ensures
        w == v,
{
}

/// Turning an absent optional on gives the inner type's default; turning it
/// off discards the content, so turning it on again gives the default once
/// more, never the old content.
pub proof fn toggle_resets_optional(s: Shape, v: Value, w1: Value, w2: Value)
    requires
        s is Optional,
        v is Optional,
        edited(s, v, seq![], Event::Toggle(false), w1),
        edited(s, w1, seq![], Event::Toggle(true), w2),
    ensures
        w1 == Value::Optional(None),
        w2 matches Value::Optional(Some(b)) && is_default(*s->Optional_0, *b),
{
}

/// An edit anywhere inside a record never changes a skipped field.
pub proof fn skipped_field_untouched(s: Shape, v: Value, path: Seq<usize>, e: Event, w: Value, j: int)
    requires
        s matches Shape::Record { fields, .. } && 0 <= j < fields@.len() && fields@[j].skip,
        v matches Value::Record(vs) && j < vs@.len(),
        edited(s, v, path, e, w),
    ensures
        w matches Value::Record(ws) && j < ws@.len() && ws@[j] == v->Record_0@[j],
{
}

/// An edit inside the active variant keeps that variant and never changes
/// a skipped field of it.
pub proof fn skipped_variant_field_untouched(
    s: Shape,
    v: Value,
    path: Seq<usize>,
    e: Event,
    w: Value,
    j: int,
)
    requires
        s matches Shape::Choice { variants, .. } && v matches Value::Variant(c, vs) && c
            < variants@.len() && 0 <= j < variants@[c as int].fields@.len()
            && variants@[c as int].fields@[j].skip && j < vs@.len(),
        path.len() > 0,
        edited(s, v, path, e, w),
    ensures
        w matches Value::Variant(c, ws) && c == v->Variant_0 && j < ws@.len() && ws@[j]
            == v->Variant_1@[j],
{
}

proof fn lemma_kept(flags: Seq<bool>)
    ensures
        forall|k: int|
            0 <= k < kept(flags).len() ==> 0 <= #[trigger] kept(flags)[k] < flags.len() && !flags[kept(flags)[k]],
        forall|a: int, b: int|
            0 <= a < b < kept(flags).len() ==> #[trigger] kept(flags)[a] < #[trigger] kept(flags)[b],
        forall|i: int|
            0 <= i < flags.len() && !flags[i] ==> exists|k: int|
                0 <= k < kept(flags).len() && #[trigger] kept(flags)[k] == i,
    decreases flags.len(),
{
    if flags.len() > 0 {
        let init = flags.drop_last();
        lemma_kept(init);
        assert forall|i: int| 0 <= i < flags.len() && !flags[i] implies exists|k: int|
            0 <= k < kept(flags).len() && #[trigger] kept(flags)[k] == i by {
            if i < flags.len() - 1 {
                assert(init[i] == flags[i]);
                let k = choose|k: int| 0 <= k < kept(init).len() && #[trigger] kept(init)[k] == i;
                assert(kept(flags)[k] == i);
            } else {
                assert(kept(flags)[kept(init).len() as int] == i);
            }
        }
    }
}

/// The rows a record is rendered with, in its read-only form and in its
/// editor alike, follow the declaration order of the fields with the skipped
/// ones taken out: the row positions increase, and every field not skipped
/// has a row.
pub proof fn rows_follow_declaration(fields: Seq<FieldDesc>, rows: Seq<FieldRow>)
    requires
        row_heads(fields, rows),
    ensures
        forall|a: int, b: int|
            0 <= a < b < rows.len() ==> #[trigger] rows[a].index < #[trigger] rows[b].index,
        forall|j: int|
            0 <= j < fields.len() && !fields[j].skip ==> exists|k: int|
                0 <= k < rows.len() && #[trigger] rows[k].index == j,
{
    let flags = crate::layout::field_flags(fields);
    lemma_kept(flags);
    assert forall|a: int, b: int| 0 <= a < b < rows.len() implies #[trigger] rows[a].index
        < #[trigger] rows[b].index by {
        assert(rows[a].index == kept(flags)[a]);
        assert(rows[b].index == kept(flags)[b]);
    }
    assert forall|j: int| 0 <= j < fields.len() && !fields[j].skip implies exists|k: int|
        0 <= k < rows.len() && #[trigger] rows[k].index == j by {
        assert(!flags[j]);
        let k = choose|k: int| 0 <= k < kept(flags).len() && #[trigger] kept(flags)[k] == j;
        assert(rows[k].index == kept(flags)[k]);
    }
}

/// A skipped field never has a row, in the read-only form or in the editor.
pub proof fn skipped_field_not_rendered(fields: Seq<FieldDesc>, rows: Seq<FieldRow>)
    requires
        row_heads(fields, rows),
    ensures
        forall|k: int|
            0 <= k < rows.len() ==> 0 <= #[trigger] rows[k].index < fields.len() && !fields[rows[k].index as int].skip,
{
    let flags = crate::layout::field_flags(fields);
    lemma_kept(flags);
    assert forall|k: int| 0 <= k < rows.len() implies 0 <= #[trigger] rows[k].index < fields.len()
        && !fields[rows[k].index as int].skip by {
        assert(rows[k].index == kept(flags)[k]);
        assert(flags[kept(flags)[k]] == fields[kept(flags)[k]].skip);
    }
}

proof fn lemma_first_label(ms: Seq<Marker>, m: int)
    requires
        0 <= m < ms.len(),
        ms[m] is Label,
        forall|j: int| 0 <= j < m ==> !(ms[j] is Label),
    ensures
        label_of(ms) == Some(ms[m]->Label_0@),
    decreases m,
{
    if m > 0 {
        lemma_first_label(ms.drop_first(), m - 1);
    }
}

/// A field whose markers give a label override is captioned by the first
/// such label, and never by its declared name, wherever it is rendered.
pub proof fn label_override_captions(
    fields: Seq<FieldDesc>,
    rows: Seq<FieldRow>,
    j: int,
    markers: Seq<Marker>,
    m: int,
)
    requires
        row_heads(fields, rows),
        0 <= j < fields.len(),
        !fields[j].skip,
        fields[j].label@ == or_else(label_of(markers), fields[j].name@),
        0 <= m < markers.len(),
        markers[m] is Label,
        forall|i: int| 0 <= i < m ==> !(markers[i] is Label),
    ensures
        exists|k: int|
            0 <= k < rows.len() && #[trigger] rows[k].index == j && rows[k].caption@
                == markers[m]->Label_0@,
{
    lemma_first_label(markers, m);
    rows_follow_declaration(fields, rows);
    let k = choose|k: int| 0 <= k < rows.len() && #[trigger] rows[k].index == j;
    assert(rows[k].caption@ == fields[j].label@);
}

/// Whether `v` is a value of shape `s`: the right kind at every level, a
/// stepped integer within its type's range, and a sum in exactly one of its
/// declared variants with that variant's fields.
pub open spec fn fits(s: Shape, v: Value) -> bool
    decreases s,
{
    match s {
        Shape::Bool => v is Bool,
        Shape::Stepped(k) => v matches Value::Int(n) && stepped_min(k) <= n <= stepped_max(k),
        Shape::Wide(Wide::U128) => v is U128,
        Shape::Wide(Wide::I128) => v is I128,
        Shape::Wide(Wide::Usize) => v is Usize,
        Shape::Text => v is Text,
        Shape::Optional(inner) => match v {
            Value::Optional(Some(b)) => fits(*inner, *b),
            Value::Optional(None) => true,
            _ => false,
        },
        Shape::List(elem) => match v {
            Value::List(xs) => forall|i: int| 0 <= i < xs@.len() ==> fits(*elem, #[trigger] xs@[i]),
            _ => false,
        },
        Shape::Tuple(ss) => match v {
            Value::Tuple(xs) => xs@.len() == ss@.len() && forall|i: int|
                0 <= i < ss@.len() ==> fits(#[trigger] ss@[i], xs@[i]),
            _ => false,
        },
        Shape::Keyed(_, _) => v is Entries,
        Shape::Unkeyed(_) => v is Entries,
        Shape::Record { fields, .. } => match v {
            Value::Record(vs) => vs@.len() == fields@.len() && forall|i: int|
                0 <= i < fields@.len() ==> fits(#[trigger] fields@[i].shape, vs@[i]),
            _ => false,
        },
        Shape::Choice { variants, .. } => match v {
            Value::Variant(c, vs) => c < variants@.len() && vs@.len()
                == variants@[c as int].fields@.len() && forall|i: int|
                0 <= i < vs@.len() ==> fits(#[trigger] variants@[c as int].fields@[i].shape, vs@[i]),
            _ => false,
        },
    }
}

/// A default value is a value of its shape.
pub proof fn default_fits(s: Shape, v: Value)
    requires
        is_default(s, v),
    ensures
        fits(s, v),
    decreases s,
{
    match s {
        Shape::Stepped(k) => {
            assert(stepped_min(k) <= 0 <= stepped_max(k));
        },
        Shape::Tuple(ss) => {
            assert forall|i: int| 0 <= i < ss@.len() implies fits(#[trigger] ss@[i], v->Tuple_0@[i]) by {
                default_fits(ss@[i], v->Tuple_0@[i]);
            }
        },
        Shape::Record { fields, .. } => {
            assert forall|i: int| 0 <= i < fields@.len() implies fits(
                #[trigger] fields@[i].shape,
                v->Record_0@[i],
            ) by {
                default_fits(fields@[i].shape, v->Record_0@[i]);
            }
        },
        Shape::Choice { variants, default_variant, .. } => {
            let d = default_variant->Some_0 as int;
            assert forall|i: int| 0 <= i < v->Variant_1@.len() implies fits(
                #[trigger] variants@[d].fields@[i].shape,
                v->Variant_1@[i],
            ) by {
                default_fits(variants@[d].fields@[i].shape, v->Variant_1@[i]);
            }
        },
        _ => {},
    }
}

proof fn edit_here_keeps_shape(s: Shape, v: Value, e: Event, w: Value)
    requires
        well_formed(s),
        fits(s, v),
        edited_here(s, v, e, w),
    ensures
        fits(s, w),
{
    match e {
        Event::Toggle(on) => {
            if let Shape::Optional(inner) = s {
                if on && v->Optional_0 is None {
                    default_fits(*inner, *w->Optional_0->Some_0);
                }
            }
        },
        Event::Append => {
            if let Shape::List(elem) = s {
                let xs = v->List_0@;
                let ys = w->List_0@;
                default_fits(*elem, ys.last());
                assert forall|i: int| 0 <= i < ys.len() implies fits(*elem, #[trigger] ys[i]) by {
                    if i < xs.len() {
                        assert(ys.drop_last()[i] == ys[i]);
                    }
                }
            }
        },
        Event::RemoveLast => {
            if let Shape::List(elem) = s {
                if v->List_0@.len() > 0 {
                    let xs = v->List_0@;
                    let ys = w->List_0@;
                    assert forall|i: int| 0 <= i < ys.len() implies fits(*elem, #[trigger] ys[i]) by {
                        assert(xs[i] == ys[i]);
                    }
                }
            }
        },
        Event::Select(t) => {
            if let Shape::Choice { variants, .. } = s {
                if v is Variant && t < variants@.len() && !variants@[t as int].skip && t
                    != v->Variant_0 {
                    let fs = variants@[t as int].fields@;
                    assert forall|i: int| 0 <= i < w->Variant_1@.len() implies fits(
                        #[trigger] variants@[t as int].fields@[i].shape,
                        w->Variant_1@[i],
                    ) by {
                        assert(is_default(fs[i].shape, w->Variant_1@[i]));
                        default_fits(fs[i].shape, w->Variant_1@[i]);
                    }
                }
            }
        },
        _ => {},
    }
}

/// Every edit keeps a value of its shape: a stepped integer stays in range,
/// and a sum stays in exactly one of its declared variants with that
/// variant's fields.
pub proof fn edit_keeps_shape(s: Shape, v: Value, path: Seq<usize>, e: Event, w: Value)
    requires
        well_formed(s),
        fits(s, v),
        edited(s, v, path, e, w),
    ensures
        fits(s, w),
    decreases path.len(),
{
    if path.len() == 0 {
        edit_here_keeps_shape(s, v, e, w);
    } else {
        let i = path[0] as int;
        let rest = path.drop_first();
        match s {
            Shape::Optional(inner) => {
                if let Value::Optional(Some(b)) = v {
                    if i == 0 {
                        edit_keeps_shape(*inner, *b, rest, e, *w->Optional_0->Some_0);
                    }
                }
            },
            Shape::List(elem) => {
                if v is List && i < v->List_0@.len() {
                    let xs = v->List_0@;
                    let ys = w->List_0@;
                    edit_keeps_shape(*elem, xs[i], rest, e, ys[i]);
                    assert forall|j: int| 0 <= j < ys.len() implies fits(*elem, #[trigger] ys[j]) by {
                        if j != i {
                            assert(ys[j] == xs[j]);
                        }
                    }
                }
            },
            Shape::Tuple(ss) => {
                if v is Tuple && i < v->Tuple_0@.len() && i < ss@.len() {
                    let xs = v->Tuple_0@;
                    let ys = w->Tuple_0@;
                    edit_keeps_shape(ss@[i], xs[i], rest, e, ys[i]);
                    assert forall|j: int| 0 <= j < ss@.len() implies fits(#[trigger] ss@[j], ys[j]) by {
                        if j != i {
                            assert(ys[j] == xs[j]);
                        }
                    }
                }
            },
            Shape::Record { fields, .. } => {
                if v is Record && i < v->Record_0@.len() && i < fields@.len() && !fields@[i].skip {
                    let xs = v->Record_0@;
                    let ys = w->Record_0@;
                    edit_keeps_shape(fields@[i].shape, xs[i], rest, e, ys[i]);
                    assert forall|j: int| 0 <= j < fields@.len() implies fits(
                        #[trigger] fields@[j].shape,
                        ys[j],
                    ) by {
                        if j != i {
                            assert(ys[j] == xs[j]);
                        }
                    }
                }
            },
            Shape::Choice { variants, .. } => {
                if v is Variant && v->Variant_0 < variants@.len() && !variants@[v->Variant_0 as int].skip
                    && i < v->Variant_1@.len() && i < variants@[v->Variant_0 as int].fields@.len()
                    && !variants@[v->Variant_0 as int].fields@[i].skip {
                    let c = v->Variant_0 as int;
                    let fs = variants@[c].fields@;
                    let xs = v->Variant_1@;
                    let ys = w->Variant_1@;
                    edit_keeps_shape(fs[i].shape, xs[i], rest, e, ys[i]);
                    assert forall|j: int| 0 <= j < ys.len() implies fits(
                        #[trigger] variants@[c].fields@[j].shape,
                        ys[j],
                    ) by {
                        if j != i {
                            assert(ys[j] == xs[j]);
                        }
                    }
                }
            },
            _ => {},
        }
    }
}

} // verus!
