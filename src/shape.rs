use vstd::prelude::*;
use vstd::string::*;

use crate::attrs::{display_name_of, interpret, label_of, skip_of, AttrError, Attrs, Marker};
use crate::text::{decimal, decimal_text};

verus! {

/// Integer types small enough for a stepper control.
#[derive(PartialEq, Eq, Structural, Debug, Clone, Copy)]
pub enum Stepped {
    I8,
    I16,
    I32,
    I64,
    U8,
    U16,
    U32,
    U64,
}

/// Integer types edited as free text.
#[derive(PartialEq, Eq, Structural, Debug, Clone, Copy)]
pub enum Wide {
    U128,
    I128,
    Usize,
}

#[derive(PartialEq, Eq, Structural, Debug, Clone, Copy)]
pub enum VariantKind {
    Unit,
    Named,
    Positional,
}

/// The structural description of a type.
#[derive(Debug)]
pub enum Shape {
    Bool,
    Stepped(Stepped),
    Wide(Wide),
    Text,
    Optional(Box<Shape>),
    List(Box<Shape>),
    Tuple(Vec<Shape>),
    /// A keyed collection; shown and edited as nothing.
    Keyed(Box<Shape>, Box<Shape>),
    /// A set; shown and edited as nothing.
    Unkeyed(Box<Shape>),
    /// A product of fields, in declaration order.
    Record { name: String, fields: Vec<FieldDesc> },
    /// A sum of variants, in declaration order, with the variant its default value takes.
    Choice { name: String, variants: Vec<VariantDesc>, default_variant: Option<usize> },
}

/// One field of a record or of a variant.
#[derive(Debug)]
pub struct FieldDesc {
    pub name: String,
    /// Caption of the field's row.
    pub label: String,
    pub skip: bool,
    pub shape: Shape,
}

/// One variant of a sum.
#[derive(Debug)]
pub struct VariantDesc {
    pub name: String,
    /// Caption of the variant's selector entry.
    pub label: String,
    /// What the variant reads as when turned into text.
    pub display_name: String,
    pub skip: bool,
    pub kind: VariantKind,
    pub fields: Vec<FieldDesc>,
}

/// A type declaration handed to the generator.
#[derive(Debug)]
pub enum Decl {
    Struct { name: String, fields: Vec<FieldDesc> },
    Enum { name: String, variants: Vec<VariantDesc>, default_variant: Option<usize> },
    Union { name: String },
}

#[derive(PartialEq, Eq, Structural, Debug, Clone, Copy)]
pub enum GenError {
    /// Untagged unions have no shape the generator can walk.
    UnsupportedUnion,
    /// A place that must synthesize a default value holds a type without one.
    MissingDefault,
}

pub open spec fn stepped_min(k: Stepped) -> int {
    match k {
        Stepped::I8 => i8::MIN as int,
        Stepped::I16 => i16::MIN as int,
        Stepped::I32 => i32::MIN as int,
        Stepped::I64 => i64::MIN as int,
        _ => 0,
    }
}

pub open spec fn stepped_max(k: Stepped) -> int {
    match k {
        Stepped::I8 => i8::MAX as int,
        Stepped::I16 => i16::MAX as int,
        Stepped::I32 => i32::MAX as int,
        Stepped::I64 => i64::MAX as int,
        Stepped::U8 => u8::MAX as int,
        Stepped::U16 => u16::MAX as int,
        Stepped::U32 => u32::MAX as int,
        Stepped::U64 => u64::MAX as int,
    }
}

/// The range of a stepped integer type, as (least, greatest).
pub fn stepped_bounds(k: Stepped) -> (r: (i128, i128))
    ensures
        r.0 == stepped_min(k),
        r.1 == stepped_max(k),
{
    match k {
        Stepped::I8 => (i8::MIN as i128, i8::MAX as i128),
        Stepped::I16 => (i16::MIN as i128, i16::MAX as i128),
        Stepped::I32 => (i32::MIN as i128, i32::MAX as i128),
        Stepped::I64 => (i64::MIN as i128, i64::MAX as i128),
        Stepped::U8 => (0, u8::MAX as i128),
        Stepped::U16 => (0, u16::MAX as i128),
        Stepped::U32 => (0, u32::MAX as i128),
        Stepped::U64 => (0, u64::MAX as i128),
    }
}

/// Whether a default value of this shape can be synthesized.
pub open spec fn defaultable(s: Shape) -> bool
    decreases s,
{
    match s {
        Shape::Tuple(ss) => forall|i: int| 0 <= i < ss@.len() ==> defaultable(#[trigger] ss@[i]),
        Shape::Record { fields, .. } => forall|i: int|
            0 <= i < fields@.len() ==> defaultable(#[trigger] fields@[i].shape),
        Shape::Choice { variants, default_variant, .. } => match default_variant {
            Some(d) => d < variants@.len() && forall|i: int|
                0 <= i < variants@[d as int].fields@.len() ==> defaultable(
                    #[trigger] variants@[d as int].fields@[i].shape,
                ),
            None => false,
        },
        _ => true,
    }
}

/// Whether generation accepts this shape: every place that synthesizes a
/// default (an optional's inner type, a list's element, a variant's fields)
/// holds a defaultable type, and a sum's default names one of its variants.
pub open spec fn well_formed(s: Shape) -> bool
    decreases s,
{
    match s {
        Shape::Optional(inner) => defaultable(*inner) && well_formed(*inner),
        Shape::List(elem) => defaultable(*elem) && well_formed(*elem),
        Shape::Tuple(ss) => forall|i: int| 0 <= i < ss@.len() ==> well_formed(#[trigger] ss@[i]),
        Shape::Keyed(k, v) => well_formed(*k) && well_formed(*v),
        Shape::Unkeyed(k) => well_formed(*k),
        Shape::Record { fields, .. } => forall|i: int|
            0 <= i < fields@.len() ==> well_formed(#[trigger] fields@[i].shape),
        Shape::Choice { variants, default_variant, .. } => {
            &&& (default_variant matches Some(d) ==> d < variants@.len())
            &&& forall|i: int, j: int|
                0 <= i < variants@.len() && 0 <= j < variants@[i].fields@.len() ==> {
                    &&& well_formed(#[trigger] variants@[i].fields@[j].shape)
                    &&& defaultable(variants@[i].fields@[j].shape)
                }
        },
        _ => true,
    }
}

/// Tells whether a default value of `s` can be synthesized.
#[verifier::loop_isolation(false)]
pub fn is_defaultable(s: &Shape) -> (r: bool)
    ensures
        r == defaultable(*s),
    decreases s,
{
    match s {
        Shape::Tuple(ss) => {
            let mut i: usize = 0;
            while i < ss.len()
                invariant
                    0 <= i <= ss@.len(),
                    forall|j: int| 0 <= j < i ==> defaultable(#[trigger] ss@[j]),
                decreases ss@.len() - i,
            {
                if !is_defaultable(&ss[i]) {
                    return false;
                }
                i = i + 1;
            }
            true
        },
        Shape::Record { fields, .. } => {
            let mut i: usize = 0;
            while i < fields.len()
                invariant
                    0 <= i <= fields@.len(),
                    forall|j: int| 0 <= j < i ==> defaultable(#[trigger] fields@[j].shape),
                decreases fields@.len() - i,
            {
                if !is_defaultable(&fields[i].shape) {
                    return false;
                }
                i = i + 1;
            }
            true
        },
        Shape::Choice { variants, default_variant, .. } => match default_variant {
            Some(d) => {
                let d = *d;
                if d >= variants.len() {
                    return false;
                }
                let fields = &variants[d].fields;
                let mut i: usize = 0;
                while i < fields.len()
                    invariant
                        d < variants@.len(),
                        fields == variants@[d as int].fields,
                        0 <= i <= fields@.len(),
                        forall|j: int| 0 <= j < i ==> defaultable(#[trigger] fields@[j].shape),
                    decreases fields@.len() - i,
                {
                    if !is_defaultable(&fields[i].shape) {
                        return false;
                    }
                    i = i + 1;
                }
                true
            },
            None => false,
        },
        _ => true,
    }
}

/// Tells whether generation accepts `s`.
#[verifier::loop_isolation(false)]
pub fn check_shape(s: &Shape) -> (r: bool)
    ensures
        r == well_formed(*s),
    decreases s,
{
    match s {
        Shape::Optional(inner) => is_defaultable(inner) && check_shape(inner),
        Shape::List(elem) => is_defaultable(elem) && check_shape(elem),
        Shape::Tuple(ss) => {
            let mut i: usize = 0;
            while i < ss.len()
                invariant
                    0 <= i <= ss@.len(),
                    forall|j: int| 0 <= j < i ==> well_formed(#[trigger] ss@[j]),
                decreases ss@.len() - i,
            {
                if !check_shape(&ss[i]) {
                    return false;
                }
                i = i + 1;
            }
            true
        },
        Shape::Keyed(k, v) => check_shape(k) && check_shape(v),
        Shape::Unkeyed(k) => check_shape(k),
        Shape::Record { fields, .. } => {
            let mut i: usize = 0;
            while i < fields.len()
                invariant
                    0 <= i <= fields@.len(),
                    forall|j: int| 0 <= j < i ==> well_formed(#[trigger] fields@[j].shape),
                decreases fields@.len() - i,
            {
                if !check_shape(&fields[i].shape) {
                    return false;
                }
                i = i + 1;
            }
            true
        },
        Shape::Choice { variants, default_variant, .. } => {
            if let Some(d) = default_variant {
                if *d >= variants.len() {
                    return false;
                }
            }
            let mut i: usize = 0;
            while i < variants.len()
                invariant
                    0 <= i <= variants@.len(),
                    forall|a: int, b: int|
                        0 <= a < i && 0 <= b < variants@[a].fields@.len() ==> {
                            &&& well_formed(#[trigger] variants@[a].fields@[b].shape)
                            &&& defaultable(variants@[a].fields@[b].shape)
                        },
                decreases variants@.len() - i,
            {
                let fields = &variants[i].fields;
                let mut j: usize = 0;
                while j < fields.len()
                    invariant
                        0 <= i < variants@.len(),
                        fields == variants@[i as int].fields,
                        0 <= j <= fields@.len(),
                        forall|a: int, b: int|
                            0 <= a < i && 0 <= b < variants@[a].fields@.len() ==> {
                                &&& well_formed(#[trigger] variants@[a].fields@[b].shape)
                                &&& defaultable(variants@[a].fields@[b].shape)
                            },
                        forall|b: int|
                            0 <= b < j ==> {
                                &&& well_formed(#[trigger] fields@[b].shape)
                                &&& defaultable(fields@[b].shape)
                            },
                    decreases fields@.len() - j,
                {
                    if !check_shape(&fields[j].shape) || !is_defaultable(&fields[j].shape) {
                        return false;
                    }
                    j = j + 1;
                }
                i = i + 1;
            }
            true
        },
        _ => true,
    }
}

/// The name a positional field is known by.
pub open spec fn positional_name(index: nat) -> Seq<char> {
    seq!['f', 'i', 'e', 'l', 'd', '_'] + decimal(index)
}

/// The name of the positional field at `index`: `field_` and the index.
pub fn unnamed_field_label(index: usize) -> (r: String)
    ensures
        r@ == positional_name(index as nat),
{
    proof {
        reveal_strlit("field_");
    }
    let digits = decimal_text(index);
    String::from_str("field_").concat(digits.as_str())
}

/// An override if one was given, else the fallback.
pub open spec fn or_else(o: Option<Seq<char>>, fallback: Seq<char>) -> Seq<char> {
    match o {
        Some(t) => t,
        None => fallback,
    }
}

fn take_or_copy(o: Option<String>, fallback: &String) -> (r: String)
    ensures
        r@ == or_else(crate::attrs::opt_view(o), fallback@),
{
    match o {
        Some(t) => t,
        None => fallback.clone(),
    }
}

impl FieldDesc {
    /// Describes a field declared under `name` with the given markers.
    pub fn named(name: String, shape: Shape, markers: &Vec<Marker>) -> (r: Result<FieldDesc, AttrError>)
        ensures
            r is Err <==> crate::attrs::has_unknown(markers@),
            r matches Ok(f) ==> {
                &&& f.name@ == name@
                &&& f.label@ == or_else(label_of(markers@), name@)
                &&& f.skip == skip_of(markers@)
                &&& f.shape == shape
            },
    {
        match interpret(markers) {
            Ok(Attrs { skip, label, .. }) => {
                let label = take_or_copy(label, &name);
                Ok(FieldDesc { name, label, skip, shape })
            },
            Err(e) => Err(e),
        }
    }

    /// Describes the positional field at `index` with the given markers.
    pub fn positional(index: usize, shape: Shape, markers: &Vec<Marker>) -> (r: Result<
        FieldDesc,
        AttrError,
    >)
        ensures
            r is Err <==> crate::attrs::has_unknown(markers@),
            r matches Ok(f) ==> {
                &&& f.name@ == positional_name(index as nat)
                &&& f.label@ == or_else(label_of(markers@), positional_name(index as nat))
                &&& f.skip == skip_of(markers@)
                &&& f.shape == shape
            },
    {
        FieldDesc::named(unnamed_field_label(index), shape, markers)
    }
}

impl VariantDesc {
    /// Describes a variant declared under `name` with the given markers. Its
    /// display name is the override, else `name`; its selector caption is the
    /// label override, else the display name.
    pub fn declare(name: String, kind: VariantKind, fields: Vec<FieldDesc>, markers: &Vec<Marker>) -> (r:
        Result<VariantDesc, AttrError>)
        ensures
            r is Err <==> crate::attrs::has_unknown(markers@),
            r matches Ok(v) ==> {
                &&& v.name@ == name@
                &&& v.display_name@ == or_else(display_name_of(markers@), name@)
                &&& v.label@ == or_else(label_of(markers@), v.display_name@)
                &&& v.skip == skip_of(markers@)
                &&& v.kind == kind
                &&& v.fields == fields
            },
    {
        match interpret(markers) {
            Ok(Attrs { skip, label, display_name }) => {
                let display_name = take_or_copy(display_name, &name);
                let label = take_or_copy(label, &display_name);
                Ok(VariantDesc { name, label, display_name, skip, kind, fields })
            },
            Err(e) => Err(e),
        }
    }
}

/// The shape a non-union declaration describes.
pub open spec fn shape_of(d: Decl) -> Shape
    recommends
        !(d is Union),
{
    match d {
        Decl::Struct { name, fields } => Shape::Record { name, fields },
        Decl::Enum { name, variants, default_variant } => Shape::Choice {
            name,
            variants,
            default_variant,
        },
        Decl::Union { name } => Shape::Record { name, fields: arbitrary() },
    }
}

/// Turns a declaration into the shape the generated behaviors walk, or
/// rejects it: unions are not supported, and a declaration that is not
/// well formed lacks a default where one must be synthesized.
pub fn generate(decl: Decl) -> (r: Result<Shape, GenError>)
    ensures
        decl is Union ==> r == Err::<Shape, GenError>(GenError::UnsupportedUnion),
        !(decl is Union) ==> (r is Ok <==> well_formed(shape_of(decl))),
        !(decl is Union) && !well_formed(shape_of(decl)) ==> r == Err::<Shape, GenError>(
            GenError::MissingDefault,
        ),
        r matches Ok(s) ==> s == shape_of(decl),
{
    let s = match decl {
        Decl::Struct { name, fields } => Shape::Record { name, fields },
        Decl::Enum { name, variants, default_variant } => Shape::Choice {
            name,
            variants,
            default_variant,
        },
        Decl::Union { .. } => {
            return Err(GenError::UnsupportedUnion);
        },
    };
    if check_shape(&s) {
        Ok(s)
    } else {
        Err(GenError::MissingDefault)
    }
}

} // verus!
