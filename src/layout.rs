use vstd::prelude::*;
use vstd::string::*;

use crate::shape::{stepped_bounds, stepped_max, stepped_min, FieldDesc, Shape, VariantDesc, Wide};
use crate::value::Value;

verus! {

/// One selector entry of a sum's editor.
#[derive(Debug)]
pub struct Entry {
    /// Position of the variant among the declared ones.
    pub variant: usize,
    pub caption: String,
    /// Whether the value is currently in this variant.
    pub selected: bool,
}

/// One row of a record or of a variant's body: a caption and the field's widget.
#[derive(Debug)]
pub struct FieldRow {
    /// Position of the field among the declared ones.
    pub index: usize,
    pub caption: String,
    pub body: Widget,
}

/// What the host draws for a value. The interactive ones carry the path that
/// an event on them is to be sent with.
#[derive(Debug)]
pub enum Widget {
    /// Nothing at all.
    Blank,
    /// Static text.
    Caption(String),
    /// A boolean shown as text.
    Flag(bool),
    /// An integer shown as text.
    Number(i128),
    /// A wide unsigned integer shown as text.
    Unsigned(u128),
    /// A wide signed integer shown as text.
    Signed(i128),
    /// A list's elements, one after another.
    Items(Vec<Widget>),
    /// A tuple's elements, side by side.
    Row(Vec<Widget>),
    /// A record: its type name, then one row per shown field.
    Fields { title: String, rows: Vec<FieldRow> },
    Checkbox { path: Vec<usize>, checked: bool },
    Stepper { path: Vec<usize>, value: i128, min: i128, max: i128 },
    TextField { path: Vec<usize>, text: String },
    /// Free text holding a wide unsigned integer.
    UnsignedField { path: Vec<usize>, number: u128 },
    /// Free text holding a wide signed integer.
    SignedField { path: Vec<usize>, signed: i128 },
    /// A presence box, and the content's editor when there is content.
    Presence { path: Vec<usize>, inner: Option<Box<Widget>> },
    /// "Add" and "remove last" buttons, then each element's editor.
    ListEditor { path: Vec<usize>, can_remove: bool, items: Vec<Widget> },
    /// The variant selector, then the active variant's field rows.
    Selector { path: Vec<usize>, text: String, entries: Vec<Entry>, rows: Vec<FieldRow> },
}

/// Positions of the entries not flagged, in order.
pub open spec fn kept(flags: Seq<bool>) -> Seq<int>
    decreases flags.len(),
{
    if flags.len() == 0 {
        seq![]
    } else if flags.last() {
        kept(flags.drop_last())
    } else {
        kept(flags.drop_last()).push(flags.len() - 1)
    }
}

pub open spec fn field_flags(fields: Seq<FieldDesc>) -> Seq<bool> {
    fields.map_values(|f: FieldDesc| f.skip)
}

pub open spec fn variant_flags(variants: Seq<VariantDesc>) -> Seq<bool> {
    variants.map_values(|v: VariantDesc| v.skip)
}

/// Positions of the fields that are shown, in declaration order.
pub open spec fn shown(fields: Seq<FieldDesc>) -> Seq<int> {
    kept(field_flags(fields))
}

/// Whether row `k` of `rows` is the caption of the `k`-th shown field.
pub open spec fn row_heads(fields: Seq<FieldDesc>, rows: Seq<FieldRow>) -> bool {
    &&& rows.len() == shown(fields).len()
    &&& forall|k: int|
        0 <= k < rows.len() ==> {
            &&& #[trigger] rows[k].index == shown(fields)[k]
            &&& rows[k].caption@ == fields[rows[k].index as int].label@
        }
}

pub open spec fn none_text() -> Seq<char> {
    seq!['N', 'o', 'n', 'e']
}

pub open spec fn empty_list_text() -> Seq<char> {
    seq!['E', 'm', 'p', 't', 'y', ' ', 'V', 'e', 'c']
}

/// Whether `w` is the read-only presentation of `v`, of shape `s`. A record
/// without fields, and a value that does not fit its shape, show as blank.
pub open spec fn presents(s: Shape, v: Value, w: Widget) -> bool
    decreases s,
{
    match s {
        Shape::Bool => match v {
            Value::Bool(b) => w == Widget::Flag(b),
            _ => w is Blank,
        },
        Shape::Stepped(_) => match v {
            Value::Int(n) => w == Widget::Number(n),
            _ => w is Blank,
        },
        Shape::Wide(Wide::U128) => match v {
            Value::U128(n) => w == Widget::Unsigned(n),
            _ => w is Blank,
        },
        Shape::Wide(Wide::I128) => match v {
            Value::I128(n) => w == Widget::Signed(n),
            _ => w is Blank,
        },
        Shape::Wide(Wide::Usize) => match v {
            Value::Usize(n) => w == Widget::Unsigned(n as u128),
            _ => w is Blank,
        },
        Shape::Text => match v {
            Value::Text(t) => w is Caption && w->Caption_0@ == t@,
            _ => w is Blank,
        },
        Shape::Optional(inner) => match v {
            Value::Optional(Some(b)) => presents(*inner, *b, w),
            Value::Optional(None) => w is Caption && w->Caption_0@ == none_text(),
            _ => w is Blank,
        },
        Shape::List(elem) => match v {
            Value::List(xs) => if xs@.len() == 0 {
                w is Caption && w->Caption_0@ == empty_list_text()
            } else {
                &&& w is Items
                &&& w->Items_0@.len() == xs@.len()
                &&& forall|i: int|
                    0 <= i < xs@.len() ==> presents(*elem, xs@[i], #[trigger] w->Items_0@[i])
            },
            _ => w is Blank,
        },
        Shape::Tuple(ss) => match v {
            Value::Tuple(xs) => if xs@.len() == ss@.len() {
                &&& w is Row
                &&& w->Row_0@.len() == ss@.len()
                &&& forall|i: int|
                    0 <= i < ss@.len() ==> presents(ss@[i], xs@[i], #[trigger] w->Row_0@[i])
            } else {
                w is Blank
            },
            _ => w is Blank,
        },
        Shape::Record { name, fields } => match v {
            Value::Record(vs) => if vs@.len() == fields@.len() && fields@.len() > 0 {
                match w {
                    Widget::Fields { title, rows } => {
                        &&& title@ == name@
                        &&& row_heads(fields@, rows@)
                        &&& forall|k: int|
                            0 <= k < rows@.len() ==> {
                                let i = (#[trigger] rows@[k]).index as int;
                                0 <= i < fields@.len() && presents(
                                    fields@[i].shape,
                                    vs@[i],
                                    rows@[k].body,
                                )
                            }
                    },
                    _ => false,
                }
            } else {
                w is Blank
            },
            _ => w is Blank,
        },
        Shape::Choice { variants, .. } => match v {
            Value::Variant(c, _) => if c < variants@.len() {
                w is Caption && w->Caption_0@ == variants@[c as int].display_name@
            } else {
                w is Blank
            },
            _ => w is Blank,
        },
        _ => w is Blank,
    }
}

fn copy_text(s: &String) -> (r: String)
    ensures
        r@ == s@,
{
    s.clone()
}

proof fn lemma_kept_step(flags: Seq<bool>, i: int)
    requires
        0 <= i < flags.len(),
    ensures
        kept(flags.subrange(0, i + 1)) == if flags[i] {
            kept(flags.subrange(0, i))
        } else {
            kept(flags.subrange(0, i)).push(i)
        },
{
    assert(flags.subrange(0, i + 1).drop_last() == flags.subrange(0, i));
}

/// The read-only presentation of `value`, of shape `shape`.
#[verifier::loop_isolation(false)]
pub fn present(shape: &Shape, value: &Value) -> (w: Widget)
    ensures
        presents(*shape, *value, w),
    decreases shape,
{
    match shape {
        Shape::Bool => match value {
            Value::Bool(b) => Widget::Flag(*b),
            _ => Widget::Blank,
        },
        Shape::Stepped(_) => match value {
            Value::Int(n) => Widget::Number(*n),
            _ => Widget::Blank,
        },
        Shape::Wide(Wide::U128) => match value {
            Value::U128(n) => Widget::Unsigned(*n),
            _ => Widget::Blank,
        },
        Shape::Wide(Wide::I128) => match value {
            Value::I128(n) => Widget::Signed(*n),
            _ => Widget::Blank,
        },
        Shape::Wide(Wide::Usize) => match value {
            Value::Usize(n) => Widget::Unsigned(*n as u128),
            _ => Widget::Blank,
        },
        Shape::Text => match value {
            Value::Text(t) => Widget::Caption(copy_text(t)),
            _ => Widget::Blank,
        },
        Shape::Optional(inner) => match value {
            Value::Optional(Some(b)) => present(inner, b),
            Value::Optional(None) => {
                proof {
                    reveal_strlit("None");
                }
                let t = String::from_str("None");
                proof {
                    assert(t@ =~= none_text());
                }
                Widget::Caption(t)
            },
            _ => Widget::Blank,
        },
        Shape::List(elem) => match value {
            Value::List(xs) => {
                if xs.len() == 0 {
                    proof {
                        reveal_strlit("Empty Vec");
                    }
                    let t = String::from_str("Empty Vec");
                    proof {
                        assert(t@ =~= empty_list_text());
                    }
                    return Widget::Caption(t);
                }
                let mut ws: Vec<Widget> = Vec::new();
                let mut i: usize = 0;
                while i < xs.len()
                    invariant
                        0 <= i <= xs@.len(),
                        ws@.len() == i,
                        forall|j: int| 0 <= j < i ==> presents(**elem, xs@[j], #[trigger] ws@[j]),
                    decreases xs@.len() - i,
                {
                    ws.push(present(elem, &xs[i]));
                    i = i + 1;
                }
                Widget::Items(ws)
            },
            _ => Widget::Blank,
        },
        Shape::Tuple(ss) => match value {
            Value::Tuple(xs) => {
                if xs.len() != ss.len() {
                    return Widget::Blank;
                }
                let mut ws: Vec<Widget> = Vec::new();
                let mut i: usize = 0;
                while i < xs.len()
                    invariant
                        0 <= i <= xs@.len(),
                        ws@.len() == i,
                        forall|j: int| 0 <= j < i ==> presents(ss@[j], xs@[j], #[trigger] ws@[j]),
                    decreases xs@.len() - i,
                {
                    ws.push(present(&ss[i], &xs[i]));
                    i = i + 1;
                }
                Widget::Row(ws)
            },
            _ => Widget::Blank,
        },
        Shape::Record { name, fields } => match value {
            Value::Record(vs) => {
                if vs.len() != fields.len() || fields.len() == 0 {
                    return Widget::Blank;
                }
                let ghost flags = field_flags(fields@);
                let mut rows: Vec<FieldRow> = Vec::new();
                let mut i: usize = 0;
                while i < fields.len()
                    invariant
                        0 <= i <= fields@.len(),
                        flags == field_flags(fields@),
                        rows@.len() == kept(flags.subrange(0, i as int)).len(),
                        forall|k: int|
                            0 <= k < rows@.len() ==> {
                                &&& #[trigger] rows@[k].index == kept(flags.subrange(0, i as int))[k]
                                &&& 0 <= rows@[k].index < i
                                &&& rows@[k].caption@ == fields@[rows@[k].index as int].label@
                                &&& presents(
                                    fields@[rows@[k].index as int].shape,
                                    vs@[rows@[k].index as int],
                                    rows@[k].body,
                                )
                            },
                    decreases fields@.len() - i,
                {
                    proof {
                        lemma_kept_step(flags, i as int);
                    }
                    if !fields[i].skip {
                        let body = present(&fields[i].shape, &vs[i]);
                        rows.push(FieldRow { index: i, caption: copy_text(&fields[i].label), body });
                    }
                    i = i + 1;
                }
                proof {
                    assert(flags.subrange(0, fields@.len() as int) == flags);
                }
                Widget::Fields { title: copy_text(name), rows }
            },
            _ => Widget::Blank,
        },
        Shape::Choice { variants, .. } => match value {
            Value::Variant(c, _) => {
                if *c < variants.len() {
                    Widget::Caption(copy_text(&variants[*c].display_name))
                } else {
                    Widget::Blank
                }
            },
            _ => Widget::Blank,
        },
        _ => Widget::Blank,
    }
}

/// Whether `entries` offers one entry per variant that is not skipped, in
/// order, captioned by the variant's label, with exactly the active one selected.
pub open spec fn entry_list(variants: Seq<VariantDesc>, c: usize, entries: Seq<Entry>) -> bool {
    &&& entries.len() == kept(variant_flags(variants)).len()
    &&& forall|k: int|
        0 <= k < entries.len() ==> {
            &&& #[trigger] entries[k].variant == kept(variant_flags(variants))[k]
            &&& entries[k].caption@ == variants[entries[k].variant as int].label@
            &&& entries[k].selected == (entries[k].variant == c)
        }
}

/// Whether `rows` edits the shown fields of `fields`, holding `vs`, each at
/// `p` extended by the field's position.
pub open spec fn rows_edit(fields: Seq<FieldDesc>, vs: Seq<Value>, p: Seq<usize>, rows: Seq<FieldRow>) -> bool
    decreases fields, 0nat,
{
    &&& row_heads(fields, rows)
    &&& forall|k: int|
        0 <= k < rows.len() ==> {
            let i = (#[trigger] rows[k]).index as int;
            0 <= i < fields.len() && i < vs.len() && edits(fields[i].shape, vs[i], p.push(i as usize), rows[k].body)
        }
}

/// Whether `w` is the editor of `v`, of shape `s`, placed at path `p`. A
/// record without fields, and a value that does not fit its shape, get no
/// editor. A value in a skipped variant gets a selector in which no entry is
/// selected and no field rows: it stays as it is until another variant is picked.
pub open spec fn edits(s: Shape, v: Value, p: Seq<usize>, w: Widget) -> bool
    decreases s, 1nat,
{
    match s {
        Shape::Bool => match v {
            Value::Bool(b) => w matches Widget::Checkbox { path, checked } && path@ == p && checked == b,
            _ => w is Blank,
        },
        Shape::Stepped(k) => match v {
            Value::Int(n) => w matches Widget::Stepper { path, value, min, max } && path@ == p
                && value == n && min == stepped_min(k) && max == stepped_max(k),
            _ => w is Blank,
        },
        Shape::Wide(Wide::U128) => match v {
            Value::U128(n) => w matches Widget::UnsignedField { path, number } && path@ == p
                && number == n,
            _ => w is Blank,
        },
        Shape::Wide(Wide::I128) => match v {
            Value::I128(n) => w matches Widget::SignedField { path, signed } && path@ == p
                && signed == n,
            _ => w is Blank,
        },
        Shape::Wide(Wide::Usize) => match v {
            Value::Usize(n) => w matches Widget::UnsignedField { path, number } && path@ == p
                && number == n as u128,
            _ => w is Blank,
        },
        Shape::Text => match v {
            Value::Text(t) => w matches Widget::TextField { path, text } && path@ == p && text@
                == t@,
            _ => w is Blank,
        },
        Shape::Optional(inner) => match v {
            Value::Optional(o) => match w {
                Widget::Presence { path, inner: wi } => path@ == p && match o {
                    Some(b) => wi matches Some(x) && edits(*inner, *b, p.push(0), *x),
                    None => wi is None,
                },
                _ => false,
            },
            _ => w is Blank,
        },
        Shape::List(elem) => match v {
            Value::List(xs) => match w {
                Widget::ListEditor { path, can_remove, items } => {
                    &&& path@ == p
                    &&& can_remove == (xs@.len() > 0)
                    &&& items@.len() == xs@.len()
                    &&& forall|i: int|
                        0 <= i < xs@.len() ==> edits(
                            *elem,
                            xs@[i],
                            p.push(i as usize),
                            #[trigger] items@[i],
                        )
                },
                _ => false,
            },
            _ => w is Blank,
        },
        Shape::Tuple(ss) => match v {
            Value::Tuple(xs) => if xs@.len() == ss@.len() {
                &&& w is Row
                &&& w->Row_0@.len() == ss@.len()
                &&& forall|i: int|
                    0 <= i < ss@.len() ==> edits(
                        ss@[i],
                        xs@[i],
                        p.push(i as usize),
                        #[trigger] w->Row_0@[i],
                    )
            } else {
                w is Blank
            },
            _ => w is Blank,
        },
        Shape::Record { name, fields } => match v {
            Value::Record(vs) => if vs@.len() == fields@.len() && fields@.len() > 0 {
                match w {
                    Widget::Fields { title, rows } => title@ == name@ && rows_edit(
                        fields@,
                        vs@,
                        p,
                        rows@,
                    ),
                    _ => false,
                }
            } else {
                w is Blank
            },
            _ => w is Blank,
        },
        Shape::Choice { variants, .. } => match v {
            Value::Variant(c, vs) => if c < variants@.len() {
                match w {
                    Widget::Selector { path, text, entries, rows } => {
                        &&& path@ == p
                        &&& text@ == variants@[c as int].display_name@
                        &&& entry_list(variants@, c, entries@)
                        &&& if !variants@[c as int].skip && vs@.len()
                            == variants@[c as int].fields@.len() {
                            rows_edit(variants@[c as int].fields@, vs@, p, rows@)
                        } else {
                            rows@.len() == 0
                        }
                    },
                    _ => false,
                }
            } else {
                w is Blank
            },
            _ => w is Blank,
        },
        _ => w is Blank,
    }
}

/// `path` with `i` added at its end.
pub fn child_path(path: &Vec<usize>, i: usize) -> (r: Vec<usize>)
    ensures
        r@ == path@.push(i),
{
    let mut r: Vec<usize> = Vec::new();
    let mut j: usize = 0;
    while j < path.len()
        invariant
            0 <= j <= path@.len(),
            r@ == path@.subrange(0, j as int),
        decreases path@.len() - j,
    {
        r.push(path[j]);
        j = j + 1;
    }
    r.push(i);
    proof {
        assert(path@.subrange(0, path@.len() as int) == path@);
    }
    r
}

#[verifier::loop_isolation(false)]
fn field_editors(fields: &Vec<FieldDesc>, vs: &Vec<Value>, path: &Vec<usize>) -> (rows: Vec<FieldRow>)
    requires
        vs@.len() == fields@.len(),
    ensures
        rows_edit(fields@, vs@, path@, rows@),
    decreases fields, 0nat,
{
    let ghost flags = field_flags(fields@);
    let mut rows: Vec<FieldRow> = Vec::new();
    let mut i: usize = 0;
    while i < fields.len()
        invariant
            0 <= i <= fields@.len(),
            rows@.len() == kept(flags.subrange(0, i as int)).len(),
            forall|k: int|
                0 <= k < rows@.len() ==> {
                    &&& #[trigger] rows@[k].index == kept(flags.subrange(0, i as int))[k]
                    &&& 0 <= rows@[k].index < i
                    &&& rows@[k].caption@ == fields@[rows@[k].index as int].label@
                    &&& edits(
                        fields@[rows@[k].index as int].shape,
                        vs@[rows@[k].index as int],
                        path@.push(rows@[k].index),
                        rows@[k].body,
                    )
                },
        decreases fields@.len() - i,
    {
        proof {
            lemma_kept_step(flags, i as int);
            assert(decreases_to!(*fields => fields@[i as int]));
        }
        if !fields[i].skip {
            let p = child_path(path, i);
            let body = editor(&fields[i].shape, &vs[i], &p);
            rows.push(FieldRow { index: i, caption: copy_text(&fields[i].label), body });
        }
        i = i + 1;
    }
    proof {
        assert(flags.subrange(0, fields@.len() as int) == flags);
    }
    rows
}

fn variant_entries(variants: &Vec<VariantDesc>, c: usize) -> (entries: Vec<Entry>)
    ensures
        entry_list(variants@, c, entries@),
{
    let ghost flags = variant_flags(variants@);
    let mut entries: Vec<Entry> = Vec::new();
    let mut i: usize = 0;
    while i < variants.len()
        invariant
            0 <= i <= variants@.len(),
            flags == variant_flags(variants@),
            entries@.len() == kept(flags.subrange(0, i as int)).len(),
            forall|k: int|
                0 <= k < entries@.len() ==> {
                    &&& #[trigger] entries@[k].variant == kept(flags.subrange(0, i as int))[k]
                    &&& 0 <= entries@[k].variant < i
                    &&& entries@[k].caption@ == variants@[entries@[k].variant as int].label@
                    &&& entries@[k].selected == (entries@[k].variant == c)
                },
        decreases variants@.len() - i,
    {
        proof {
            lemma_kept_step(flags, i as int);
        }
        if !variants[i].skip {
            entries.push(Entry { variant: i, caption: copy_text(&variants[i].label), selected: i == c });
        }
        i = i + 1;
    }
    proof {
        assert(flags.subrange(0, variants@.len() as int) == flags);
    }
    entries
}

/// The editor of `value`, of shape `shape`, placed at `path`.
#[verifier::loop_isolation(false)]
pub fn editor(shape: &Shape, value: &Value, path: &Vec<usize>) -> (w: Widget)
    ensures
        edits(*shape, *value, path@, w),
    decreases shape, 1nat,
{
    match shape {
        Shape::Bool => match value {
            Value::Bool(b) => Widget::Checkbox { path: copy_path(path), checked: *b },
            _ => Widget::Blank,
        },
        Shape::Stepped(k) => match value {
            Value::Int(n) => {
                let (min, max) = stepped_bounds(*k);
                Widget::Stepper { path: copy_path(path), value: *n, min, max }
            },
            _ => Widget::Blank,
        },
        Shape::Wide(Wide::U128) => match value {
            Value::U128(n) => Widget::UnsignedField { path: copy_path(path), number: *n },
            _ => Widget::Blank,
        },
        Shape::Wide(Wide::I128) => match value {
            Value::I128(n) => Widget::SignedField { path: copy_path(path), signed: *n },
            _ => Widget::Blank,
        },
        Shape::Wide(Wide::Usize) => match value {
            Value::Usize(n) => Widget::UnsignedField { path: copy_path(path), number: *n as u128 },
            _ => Widget::Blank,
        },
        Shape::Text => match value {
            Value::Text(t) => Widget::TextField { path: copy_path(path), text: copy_text(t) },
            _ => Widget::Blank,
        },
        Shape::Optional(inner) => match value {
            Value::Optional(o) => {
                let wi = match o {
                    Some(b) => {
                        let p = child_path(path, 0);
                        Some(Box::new(editor(inner, b, &p)))
                    },
                    None => None,
                };
                Widget::Presence { path: copy_path(path), inner: wi }
            },
            _ => Widget::Blank,
        },
        Shape::List(elem) => match value {
            Value::List(xs) => {
                let mut items: Vec<Widget> = Vec::new();
                let mut i: usize = 0;
                while i < xs.len()
                    invariant
                        0 <= i <= xs@.len(),
                        items@.len() == i,
                        forall|j: int|
                            0 <= j < i ==> edits(
                                **elem,
                                xs@[j],
                                path@.push(j as usize),
                                #[trigger] items@[j],
                            ),
                    decreases xs@.len() - i,
                {
                    let p = child_path(path, i);
                    items.push(editor(elem, &xs[i], &p));
                    i = i + 1;
                }
                Widget::ListEditor { path: copy_path(path), can_remove: xs.len() > 0, items }
            },
            _ => Widget::Blank,
        },
        Shape::Tuple(ss) => match value {
            Value::Tuple(xs) => {
                if xs.len() != ss.len() {
                    return Widget::Blank;
                }
                let mut ws: Vec<Widget> = Vec::new();
                let mut i: usize = 0;
                while i < xs.len()
                    invariant
                        0 <= i <= xs@.len(),
                        ws@.len() == i,
                        forall|j: int|
                            0 <= j < i ==> edits(
                                ss@[j],
                                xs@[j],
                                path@.push(j as usize),
                                #[trigger] ws@[j],
                            ),
                    decreases xs@.len() - i,
                {
                    let p = child_path(path, i);
                    ws.push(editor(&ss[i], &xs[i], &p));
                    i = i + 1;
                }
                Widget::Row(ws)
            },
            _ => Widget::Blank,
        },
        Shape::Record { name, fields } => match value {
            Value::Record(vs) => {
                if vs.len() != fields.len() || fields.len() == 0 {
                    return Widget::Blank;
                }
                let rows = field_editors(fields, vs, path);
                Widget::Fields { title: copy_text(name), rows }
            },
            _ => Widget::Blank,
        },
        Shape::Choice { variants, .. } => match value {
            Value::Variant(c, vs) => {
                let c = *c;
                if c >= variants.len() {
                    return Widget::Blank;
                }
                let entries = variant_entries(variants, c);
                let rows = if !variants[c].skip && vs.len() == variants[c].fields.len() {
                    field_editors(&variants[c].fields, vs, path)
                } else {
                    Vec::new()
                };
                Widget::Selector {
                    path: copy_path(path),
                    text: copy_text(&variants[c].display_name),
                    entries,
                    rows,
                }
            },
            _ => Widget::Blank,
        },
        _ => Widget::Blank,
    }
}

fn copy_path(path: &Vec<usize>) -> (r: Vec<usize>)
    ensures
        r@ == path@,
{
    let mut r: Vec<usize> = Vec::new();
    let mut j: usize = 0;
    while j < path.len()
        invariant
            0 <= j <= path@.len(),
            r@ == path@.subrange(0, j as int),
        decreases path@.len() - j,
    {
        r.push(path[j]);
        j = j + 1;
    }
    proof {
        assert(path@.subrange(0, path@.len() as int) == path@);
    }
    r
}

} // verus!
