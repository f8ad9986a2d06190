use vstd::prelude::*;

verus! {

/// One customization directive written on a field or on a variant.
#[derive(Debug)]
pub enum Marker {
    /// Leave the field or variant out of the generated interface.
    Skip,
    /// Caption shown instead of the declared name.
    Label(String),
    /// Text a variant turns into when converted to a string.
    DisplayName(String),
    /// A directive this interpreter does not know.
    Unknown(String),
}

/// What the markers of one declaration resolve to.
#[derive(Debug)]
pub struct Attrs {
    pub skip: bool,
    pub label: Option<String>,
    pub display_name: Option<String>,
}

/// A marker list that cannot be interpreted.
#[derive(PartialEq, Eq, Structural, Debug, Clone, Copy)]
pub enum AttrError {
    /// The marker at this position is not a known directive.
    UnknownMarker(usize),
}

pub open spec fn opt_view(o: Option<String>) -> Option<Seq<char>> {
    match o {
        Some(s) => Some(s@),
        None => None,
    }
}

/// Whether any marker asks to skip.
pub open spec fn skip_of(ms: Seq<Marker>) -> bool {
    exists|i: int| 0 <= i < ms.len() && ms[i] is Skip
}

/// The first label override, if any.
pub open spec fn label_of(ms: Seq<Marker>) -> Option<Seq<char>>
    decreases ms.len(),
{
    if ms.len() == 0 {
        None
    } else {
        match ms[0] {
            Marker::Label(s) => Some(s@),
            _ => label_of(ms.drop_first()),
        }
    }
}

/// The first display-name override, if any.
pub open spec fn display_name_of(ms: Seq<Marker>) -> Option<Seq<char>>
    decreases ms.len(),
{
    if ms.len() == 0 {
        None
    } else {
        match ms[0] {
            Marker::DisplayName(s) => Some(s@),
            _ => display_name_of(ms.drop_first()),
        }
    }
}

/// Whether some marker is unknown.
pub open spec fn has_unknown(ms: Seq<Marker>) -> bool {
    exists|i: int| 0 <= i < ms.len() && ms[i] is Unknown
}

/// Position of the first unknown marker.
pub open spec fn first_unknown(ms: Seq<Marker>) -> int
    decreases ms.len(),
{
    if ms.len() == 0 {
        0
    } else if ms[0] is Unknown {
        0
    } else {
        1 + first_unknown(ms.drop_first())
    }
}

proof fn lemma_first_unknown(ms: Seq<Marker>, i: int)
    requires
        0 <= i <= ms.len(),
        forall|j: int| 0 <= j < i ==> !(ms[j] is Unknown),
    ensures
        first_unknown(ms) == i + first_unknown(ms.subrange(i, ms.len() as int)),
        label_of(ms) == (if label_of(ms.subrange(0, i)) is Some {
            label_of(ms.subrange(0, i))
        } else {
            label_of(ms.subrange(i, ms.len() as int))
        }),
        display_name_of(ms) == (if display_name_of(ms.subrange(0, i)) is Some {
            display_name_of(ms.subrange(0, i))
        } else {
            display_name_of(ms.subrange(i, ms.len() as int))
        }),
    decreases i,
{
    if i > 0 {
        let t = ms.drop_first();
        lemma_first_unknown(t, i - 1);
        assert(ms.subrange(1, ms.len() as int) == t);
        assert(t.subrange(i - 1, t.len() as int) == ms.subrange(i, ms.len() as int));
        assert(ms.subrange(0, i).drop_first() == t.subrange(0, i - 1));
    } else {
        assert(ms.subrange(0, ms.len() as int) == ms);
    }
}

proof fn lemma_first_unknown_at(ms: Seq<Marker>, i: int)
    requires
        0 <= i < ms.len(),
        ms[i] is Unknown,
        forall|j: int| 0 <= j < i ==> !(ms[j] is Unknown),
    ensures
        first_unknown(ms) == i,
{
    lemma_first_unknown(ms, i);
}

fn clone_text(s: &String) -> (r: String)
    ensures
        r@ == s@,
{
    s.clone()
}

/// Resolves the markers of one declaration. An unknown marker is an error;
/// otherwise the first label and the first display name given win.
pub fn interpret(markers: &Vec<Marker>) -> (r: Result<Attrs, AttrError>)
    ensures
        has_unknown(markers@) <==> r is Err,
        r matches Err(AttrError::UnknownMarker(i)) ==> i == first_unknown(markers@),
        r matches Ok(a) ==> {
            &&& a.skip == skip_of(markers@)
            &&& opt_view(a.label) == label_of(markers@)
            &&& opt_view(a.display_name) == display_name_of(markers@)
        },
{
    let mut skip = false;
    let mut label: Option<String> = None;
    let mut display_name: Option<String> = None;
    let mut i: usize = 0;
    while i < markers.len()
        invariant
            0 <= i <= markers@.len(),
            forall|j: int| 0 <= j < i ==> !(markers@[j] is Unknown),
            skip == exists|j: int| 0 <= j < i && markers@[j] is Skip,
            opt_view(label) == label_of(markers@.subrange(0, i as int)),
            opt_view(display_name) == display_name_of(markers@.subrange(0, i as int)),
        decreases markers@.len() - i,
    {
        proof {
            let ms = markers@;
            let a = ms.subrange(0, i as int);
            let b = ms.subrange(0, i + 1);
            lemma_first_unknown(b, i as int);
            assert(b.subrange(0, i as int) == a);
            assert(b.subrange(i as int, i + 1) == seq![ms[i as int]]);
            let one = seq![ms[i as int]];
            assert(one.drop_first() =~= Seq::<Marker>::empty());
            assert(label_of(one.drop_first()) is None);
            assert(display_name_of(one.drop_first()) is None);
            assert(label_of(one) == match ms[i as int] {
                Marker::Label(s) => Some(s@),
                _ => None,
            });
            assert(display_name_of(one) == match ms[i as int] {
                Marker::DisplayName(s) => Some(s@),
                _ => None,
            });
        }
        match &markers[i] {
            Marker::Skip => {
                skip = true;
            },
            Marker::Label(s) => {
                if label.is_none() {
                    label = Some(clone_text(s));
                }
            },
            Marker::DisplayName(s) => {
                if display_name.is_none() {
                    display_name = Some(clone_text(s));
                }
            },
            Marker::Unknown(_) => {
                proof {
                    lemma_first_unknown_at(markers@, i as int);
                }
                return Err(AttrError::UnknownMarker(i));
            },
        }
        i = i + 1;
    }
    proof {
        assert(markers@.subrange(0, markers@.len() as int) == markers@);
    }
    Ok(Attrs { skip, label, display_name })
}

} // verus!
