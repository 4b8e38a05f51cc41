use vstd::prelude::*;

use crate::catalog::{content_type_or_default, find_descriptor, has_id, ids_unique, select_descriptors, selected, FontMeta, FontStyle};

verus! {

/// The style, weight and width of a font, as plain values (see `FontMeta`).
#[derive(Clone, Copy, Debug, PartialEq, Eq, Structural)]
pub struct FontProperties {
    pub style: FontStyle,
    pub weight_bits: u32,
    pub stretch_bits: u32,
}

/// What the font registry reported for the first font of one family.
#[derive(Debug)]
pub struct FamilyFont {
    /// The font's unique name, if it has one.
    pub postscript_name: Option<String>,
    pub family: String,
    pub full_name: String,
    pub is_monospace: bool,
    pub props: FontProperties,
}

#[derive(Clone, Copy, Debug, PartialEq, Eq, Structural)]
pub enum FontError {
    /// The identifier names no font of the last built list, or cannot name a font at all.
    NotFound,
}

/// Whether `s` holds no NUL character.
pub open spec fn no_nul(s: Seq<char>) -> bool {
    forall|i: int| 0 <= i < s.len() ==> s[i] != '\0'
}

/// Relies on `str::contains` with a `char` pattern: whether a NUL character occurs in
/// the string.
#[verifier::external_body]
fn contains_nul(s: &str) -> (r: bool)
    ensures
        r == !no_nul(s@),
{
    s.contains('\0')
}

/// The media type that infer recognises from a file's leading bytes, if any.
pub uninterp spec fn sniffed_type(bytes: Seq<u8>) -> Option<Seq<char>>;

/// Relies on `infer::get` and `infer::Type::mime_type`: the media type recognised from the
/// bytes' signature; it depends on the bytes alone.
#[verifier::external_body]
fn sniff_mime(bytes: &Vec<u8>) -> (r: Option<String>)
    ensures
        match r {
            Some(t) => sniffed_type(bytes@) == Some(t@),
            None => sniffed_type(bytes@) is None,
        },
{
    match infer::get(bytes.as_slice()) {
        Some(kind) => Some(kind.mime_type().to_string()),
        None => None,
    }
}

/// The content type to serve font bytes with: the recognised media type, or
/// `application/octet-stream`.
pub fn content_type(bytes: &Vec<u8>) -> (r: String)
    ensures
        r@ == match sniffed_type(bytes@) {
            Some(t) => t,
            None => "application/octet-stream"@,
        },
{
    content_type_or_default(sniff_mime(bytes))
}

/// The descriptor of a family's font: `None` where its unique name is missing or empty.
pub open spec fn spec_descriptor(f: FamilyFont) -> Option<FontMeta> {
    match f.postscript_name {
        Some(id) => if id@.len() == 0 {
            None
        } else {
            Some(
                FontMeta {
                    family: f.family,
                    full_name: Some(f.full_name),
                    postscript_name: id,
                    is_monospace: f.is_monospace,
                    weight_bits: f.props.weight_bits,
                    style: f.props.style,
                    stretch_bits: f.props.stretch_bits,
                },
            )
        },
        None => None,
    }
}

/// The descriptors of the families that could be read (`Some`) and whose font has a
/// unique name, in order.
pub open spec fn family_candidates(fs: Seq<Option<FamilyFont>>) -> Seq<FontMeta>
    decreases fs.len(),
{
    if fs.len() == 0 {
        Seq::empty()
    } else {
        let rest = family_candidates(fs.drop_last());
        match fs.last() {
            Some(f) => match spec_descriptor(f) {
                Some(m) => rest.push(m),
                None => rest,
            },
            None => rest,
        }
    }
}

/// The descriptor made of what the registry reported for a font, or `None` where its
/// unique name is missing or empty.
pub fn descriptor(f: FamilyFont) -> (r: Option<FontMeta>)
    ensures
        r == spec_descriptor(f),
{
    match f.postscript_name {
        Some(id) => {
            if id.as_str().is_empty() {
                None
            } else {
                Some(FontMeta {
                    family: f.family,
                    full_name: Some(f.full_name),
                    postscript_name: id,
                    is_monospace: f.is_monospace,
                    weight_bits: f.props.weight_bits,
                    style: f.props.style,
                    stretch_bits: f.props.stretch_bits,
                })
            }
        },
        None => None,
    }
}

/// The descriptor list: one candidate per family that could be read (`None` marks one
/// that could not) and whose font has a unique name, then each identifier kept once, at
/// its first family.
pub fn get_fonts_meta(families: Vec<Option<FamilyFont>>) -> (r: Vec<FontMeta>)
    ensures
        r@ == selected(family_candidates(families@)),
        ids_unique(r@),
{
    let ghost all = families@;
    let mut rest = families;
    let mut rev: Vec<FontMeta> = Vec::new();
    while rest.len() > 0
        invariant
            family_candidates(all) == family_candidates(rest@) + rev@.reverse(),
        decreases rest.len(),
    {
        let ghost before = rest@;
        let f = rest.pop().unwrap();
        assert(rest@ == before.drop_last());
        match f {
            Some(font) => {
                match descriptor(font) {
                    Some(m) => {
                        assert(rev@.push(m).reverse() =~= seq![m] + rev@.reverse());
                        rev.push(m);
                    },
                    None => {},
                }
            },
            None => {},
        }
    }
    assert(family_candidates(all) =~= rev@.reverse());
    let mut candidates: Vec<FontMeta> = Vec::new();
    while rev.len() > 0
        invariant
            family_candidates(all) == candidates@ + rev@.reverse(),
        decreases rev.len(),
    {
        let ghost before = rev@;
        let m = rev.pop().unwrap();
        assert(before.reverse() =~= seq![m] + rev@.reverse());
        candidates.push(m);
    }
    assert(candidates@ =~= family_candidates(all));
    select_descriptors(candidates)
}

/// Whether the font named `postscript_name` may be served: its position in `known` (the
/// last built descriptor list). A name that is not in the list, or that holds a NUL
/// character (which no font registry name can), is not found.
pub fn get_font(known: &Vec<FontMeta>, postscript_name: &String) -> (r: Result<usize, FontError>)
    ensures
        r is Err <==> (!has_id(known@, postscript_name@) || !no_nul(postscript_name@)),
        r is Err ==> r == Err::<usize, FontError>(FontError::NotFound),
        r matches Ok(i) ==> i < known@.len() && known@[i as int].postscript_name@ == postscript_name@,
{
    match find_descriptor(known, postscript_name) {
        Some(i) => {
            if contains_nul(postscript_name.as_str()) {
                Err(FontError::NotFound)
            } else {
                Ok(i)
            }
        },
        None => Err(FontError::NotFound),
    }
}

} // verus!
