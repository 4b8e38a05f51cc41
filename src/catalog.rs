use vstd::prelude::*;

verus! {

/// The slant of a font.
#[derive(Clone, Copy, Debug, PartialEq, Eq, Structural)]
pub enum FontStyle {
    Normal,
    Italic,
    Oblique,
}

impl FontStyle {
    /// The style's name: `Normal`, `Italic` or `Oblique`.
    pub fn name(&self) -> (r: String)
        ensures
            r@ == match *self {
                FontStyle::Normal => "Normal"@,
                FontStyle::Italic => "Italic"@,
                FontStyle::Oblique => "Oblique"@,
            },
    {
        match self {
            FontStyle::Normal => "Normal".to_string(),
            FontStyle::Italic => "Italic".to_string(),
            FontStyle::Oblique => "Oblique".to_string(),
        }
    }
}

/// The descriptor of one font family's representative font. `weight_bits` and
/// `stretch_bits` hold the IEEE-754 single-precision bit patterns of the font's weight and
/// width values; they are carried as they are and never computed on.
#[derive(Debug)]
pub struct FontMeta {
    pub family: String,
    pub full_name: Option<String>,
    /// The font's unique identifier (its PostScript name).
    pub postscript_name: String,
    pub is_monospace: bool,
    pub weight_bits: u32,
    pub style: FontStyle,
    pub stretch_bits: u32,
}

/// Whether some font in `s` has the identifier `id`.
pub open spec fn has_id(s: Seq<FontMeta>, id: Seq<char>) -> bool {
    exists|i: int| 0 <= i < s.len() && (#[trigger] s[i]).postscript_name@ == id
}

/// The descriptors kept out of the candidates `s`, in their order: each one with a
/// non-empty identifier that no earlier candidate has.
pub open spec fn selected(s: Seq<FontMeta>) -> Seq<FontMeta>
    decreases s.len(),
{
    if s.len() == 0 {
        Seq::empty()
    } else {
        let m = s.last();
        let rest = s.drop_last();
        if m.postscript_name@.len() > 0 && !has_id(rest, m.postscript_name@) {
            selected(rest).push(m)
        } else {
            selected(rest)
        }
    }
}

/// Whether the identifiers of `s` are non-empty and pairwise distinct.
pub open spec fn ids_unique(s: Seq<FontMeta>) -> bool {
    &&& forall|i: int| 0 <= i < s.len() ==> (#[trigger] s[i]).postscript_name@.len() > 0
    &&& forall|i: int, j: int|
        0 <= i < s.len() && 0 <= j < s.len() && i != j ==> (#[trigger] s[i]).postscript_name@
            != (#[trigger] s[j]).postscript_name@
}

/// Keeps, in order, each candidate with a non-empty identifier that no earlier candidate
/// has; the others are dropped.
pub fn select_descriptors(candidates: Vec<FontMeta>) -> (r: Vec<FontMeta>)
    ensures
        r@ == selected(candidates@),
        ids_unique(r@),
{
    let ghost all = candidates@;
    let mut rest = candidates;
    let mut kept_rev: Vec<FontMeta> = Vec::new();
    while rest.len() > 0
        invariant
            selected(all) == selected(rest@) + kept_rev@.reverse(),
        decreases rest.len(),
    {
        let ghost before = rest@;
        let m = rest.pop().unwrap();
        assert(rest@ == before.drop_last());
        if !m.postscript_name.as_str().is_empty() && find_descriptor(&rest, &m.postscript_name).is_none() {
            proof {
                assert(kept_rev@.push(m).reverse() =~= seq![m] + kept_rev@.reverse());
            }
            kept_rev.push(m);
        }
    }
    assert(selected(all) =~= kept_rev@.reverse());
    let mut out: Vec<FontMeta> = Vec::new();
    while kept_rev.len() > 0
        invariant
            selected(all) == out@ + kept_rev@.reverse(),
        decreases kept_rev.len(),
    {
        let ghost before = kept_rev@;
        let m = kept_rev.pop().unwrap();
        assert(before.reverse() =~= seq![m] + kept_rev@.reverse());
        out.push(m);
    }
    assert(out@ =~= selected(all));
    proof {
        lemma_selected_ids_unique(all);
    }
    out
}

/// Every selected descriptor is one of the candidates.
pub proof fn lemma_selected_from(s: Seq<FontMeta>)
    ensures
        forall|i: int| 0 <= i < selected(s).len() ==> s.contains(#[trigger] selected(s)[i]),
    decreases s.len(),
{
    if s.len() > 0 {
        let rest = s.drop_last();
        lemma_selected_from(rest);
        assert forall|i: int| 0 <= i < selected(s).len() implies s.contains(#[trigger] selected(s)[i]) by {
            if i < selected(rest).len() {
                let x = selected(rest)[i];
                assert(rest.contains(x));
                let k = choose|k: int| 0 <= k < rest.len() && rest[k] == x;
                assert(s[k] == x);
            } else {
                assert(s[s.len() - 1] == s.last());
            }
        }
    }
}

/// No two descriptors that a selection keeps share an identifier, and none has an empty
/// one.
pub proof fn lemma_selected_ids_unique(s: Seq<FontMeta>)
    ensures
        ids_unique(selected(s)),
    decreases s.len(),
{
    if s.len() > 0 {
        let rest = s.drop_last();
        let m = s.last();
        lemma_selected_ids_unique(rest);
        lemma_selected_from(rest);
        if m.postscript_name@.len() > 0 && !has_id(rest, m.postscript_name@) {
            let r = selected(rest);
            assert forall|i: int| 0 <= i < r.len() implies (#[trigger] r[i]).postscript_name@
                != m.postscript_name@ by {
                assert(rest.contains(r[i]));
                let k = choose|k: int| 0 <= k < rest.len() && rest[k] == r[i];
                assert(rest[k].postscript_name@ == r[i].postscript_name@);
            }
            assert(selected(s) == r.push(m));
        }
    }
}


/// The (identifier, document) pairs of the first `n` descriptors of `ms` whose renders in
/// `rs` succeeded, in order.
pub open spec fn previews_upto(ms: Seq<FontMeta>, rs: Seq<Option<Seq<char>>>, n: int) -> Seq<(Seq<char>, Seq<char>)>
    decreases n,
{
    if n <= 0 {
        Seq::empty()
    } else {
        let rest = previews_upto(ms, rs, n - 1);
        match rs[n - 1] {
            Some(doc) => rest.push((ms[n - 1].postscript_name@, doc)),
            None => rest,
        }
    }
}

pub open spec fn min_len(a: int, b: int) -> int {
    if a < b { a } else { b }
}

/// The (identifier, document) pairs of the descriptors `ms` whose renders `rs` succeeded,
/// in order; the i-th render belongs to the i-th descriptor. A descriptor whose render
/// failed, or that has no render, gets no entry.
pub open spec fn previews(ms: Seq<FontMeta>, rs: Seq<Option<Seq<char>>>) -> Seq<(Seq<char>, Seq<char>)> {
    previews_upto(ms, rs, min_len(ms.len() as int, rs.len() as int))
}

/// The identifiers that a preview map has entries for, in order.
pub open spec fn keys(es: Seq<(Seq<char>, Seq<char>)>) -> Seq<Seq<char>> {
    es.map_values(|e: (Seq<char>, Seq<char>)| e.0)
}

pub open spec fn render_views(rs: Seq<Option<String>>) -> Seq<Option<Seq<char>>> {
    rs.map_values(|r: Option<String>| match r {
        Some(d) => Some(d@),
        None => None,
    })
}

pub open spec fn entry_views(es: Seq<(String, String)>) -> Seq<(Seq<char>, Seq<char>)> {
    es.map_values(|e: (String, String)| (e.0@, e.1@))
}

fn copy_string(s: &String) -> (r: String)
    ensures
        r@ == s@,
{
    s.clone()
}

/// Pairs each descriptor with its rendered preview (the i-th render belongs to the i-th
/// descriptor), keyed by the descriptor's identifier; descriptors whose render failed
/// (`None`) or that have no render get no entry.
pub fn collect_previews(metas: &Vec<FontMeta>, rendered: &Vec<Option<String>>) -> (r: Vec<(String, String)>)
    ensures
        entry_views(r@) == previews(metas@, render_views(rendered@)),
        ids_unique(metas@) ==> keys_distinct(entry_views(r@)),
{
    let n: usize = if metas.len() < rendered.len() { metas.len() } else { rendered.len() };
    let ghost rs = render_views(rendered@);
    let mut out: Vec<(String, String)> = Vec::new();
    let mut i: usize = 0;
    while i < n
        invariant
            n <= metas.len(),
            n <= rendered.len(),
            rs == render_views(rendered@),
            i <= n,
            entry_views(out@) == previews_upto(metas@, rs, i as int),
        decreases n - i,
    {
        match &rendered[i] {
            Some(doc) => {
                out.push((copy_string(&metas[i].postscript_name), copy_string(doc)));
                assert(entry_views(out@) =~= previews_upto(metas@, rs, i + 1));
            },
            None => {},
        }
        i = i + 1;
    }
    proof {
        if ids_unique(metas@) {
            lemma_preview_keys_distinct(metas@, rs, n as int);
        }
    }
    out
}

/// Whether no two entries share a key.
pub open spec fn keys_distinct(es: Seq<(Seq<char>, Seq<char>)>) -> bool {
    forall|i: int, j: int| 0 <= i < es.len() && 0 <= j < es.len() && i != j ==> (#[trigger] es[i]).0 != (#[trigger] es[j]).0
}

proof fn lemma_preview_keys_before(ms: Seq<FontMeta>, rs: Seq<Option<Seq<char>>>, n: int)
    requires
        n <= ms.len(),
        n <= rs.len(),
    ensures
        forall|k: int| 0 <= k < previews_upto(ms, rs, n).len() ==> exists|j: int|
            0 <= j < n && (#[trigger] ms[j]).postscript_name@ == (#[trigger] previews_upto(ms, rs, n)[k]).0,
    decreases n,
{
    if n > 0 {
        lemma_preview_keys_before(ms, rs, n - 1);
        let p = previews_upto(ms, rs, n);
        let rest = previews_upto(ms, rs, n - 1);
        assert forall|k: int| 0 <= k < p.len() implies exists|j: int|
            0 <= j < n && (#[trigger] ms[j]).postscript_name@ == (#[trigger] p[k]).0 by {
            if k < rest.len() {
                assert(p[k] == rest[k]);
                let j = choose|j: int| 0 <= j < n - 1 && (#[trigger] ms[j]).postscript_name@ == rest[k].0;
                assert(ms[j].postscript_name@ == p[k].0);
            } else {
                assert(ms[n - 1].postscript_name@ == p[k].0);
            }
        }
    }
}

/// Where the descriptors' identifiers are unique, so are the preview map's keys.
pub proof fn lemma_preview_keys_distinct(ms: Seq<FontMeta>, rs: Seq<Option<Seq<char>>>, n: int)
    requires
        ids_unique(ms),
        n <= ms.len(),
        n <= rs.len(),
    ensures
        keys_distinct(previews_upto(ms, rs, n)),
    decreases n,
{
    if n > 0 {
        lemma_preview_keys_distinct(ms, rs, n - 1);
        lemma_preview_keys_before(ms, rs, n - 1);
        let rest = previews_upto(ms, rs, n - 1);
        match rs[n - 1] {
            Some(doc) => {
                let p = rest.push((ms[n - 1].postscript_name@, doc));
                assert forall|k: int| 0 <= k < rest.len() implies (#[trigger] rest[k]).0 != ms[n - 1].postscript_name@ by {
                    let j = choose|j: int| 0 <= j < n - 1 && (#[trigger] ms[j]).postscript_name@ == rest[k].0;
                    assert(ms[j].postscript_name@ != ms[n - 1].postscript_name@);
                }
                assert forall|a: int, b: int| 0 <= a < p.len() && 0 <= b < p.len() && a != b implies (#[trigger] p[a]).0 != (#[trigger] p[b]).0 by {
                    if a < rest.len() && b < rest.len() {
                        assert(p[a] == rest[a] && p[b] == rest[b]);
                    } else if a < rest.len() {
                        assert(p[a] == rest[a]);
                    } else {
                        assert(p[b] == rest[b]);
                    }
                }
            },
            None => {},
        }
    }
}

/// Every key of the preview map is the identifier of one of the descriptors.
pub proof fn lemma_preview_keys_are_ids(ms: Seq<FontMeta>, rs: Seq<Option<Seq<char>>>)
    ensures
        forall|k: int| 0 <= k < previews(ms, rs).len() ==> has_id(ms, (#[trigger] previews(ms, rs)[k]).0),
{
    lemma_preview_keys_upto(ms, rs, min_len(ms.len() as int, rs.len() as int));
}

proof fn lemma_preview_keys_upto(ms: Seq<FontMeta>, rs: Seq<Option<Seq<char>>>, n: int)
    requires
        n <= ms.len(),
        n <= rs.len(),
    ensures
        forall|k: int| 0 <= k < previews_upto(ms, rs, n).len() ==> has_id(ms, (#[trigger] previews_upto(ms, rs, n)[k]).0),
    decreases n,
{
    if n > 0 {
        lemma_preview_keys_upto(ms, rs, n - 1);
        let p = previews_upto(ms, rs, n);
        assert forall|k: int| 0 <= k < p.len() implies has_id(ms, (#[trigger] p[k]).0) by {
            let rest = previews_upto(ms, rs, n - 1);
            if k < rest.len() {
                assert(p[k] == rest[k]);
            } else {
                assert(ms[n - 1].postscript_name@ == p[k].0);
            }
        }
    }
}

/// A list whose identifiers are already non-empty and distinct is kept whole.
pub proof fn lemma_unique_ids_all_selected(s: Seq<FontMeta>)
    requires
        ids_unique(s),
    ensures
        selected(s) == s,
    decreases s.len(),
{
    if s.len() > 0 {
        let rest = s.drop_last();
        let m = s.last();
        assert(ids_unique(rest));
        lemma_unique_ids_all_selected(rest);
        assert(m == s[s.len() - 1]);
        assert(!has_id(rest, m.postscript_name@)) by {
            if has_id(rest, m.postscript_name@) {
                let j = choose|j: int| 0 <= j < rest.len() && (#[trigger] rest[j]).postscript_name@ == m.postscript_name@;
                assert(s[j] == rest[j]);
            }
        }
        assert(rest.push(m) =~= s);
    }
}

/// Selecting again from a descriptor list that a rebuild produced changes nothing.
pub proof fn lemma_selection_idempotent(s: Seq<FontMeta>)
    ensures
        selected(selected(s)) == selected(s),
{
    lemma_selected_ids_unique(s);
    lemma_unique_ids_all_selected(selected(s));
}

/// The keys of the preview map depend only on the descriptors and on which renders
/// succeeded, not on the documents rendered: two rebuilds whose renders succeed for the
/// same descriptors give the same keys.
pub proof fn lemma_preview_keys_stable(ms: Seq<FontMeta>, ra: Seq<Option<Seq<char>>>, rb: Seq<Option<Seq<char>>>)
    requires
        ra.len() == rb.len(),
        forall|i: int| 0 <= i < ra.len() ==> ((#[trigger] ra[i]) is Some <==> rb[i] is Some),
    ensures
        keys(previews(ms, ra)) == keys(previews(ms, rb)),
{
    lemma_preview_keys_stable_upto(ms, ra, rb, min_len(ms.len() as int, ra.len() as int));
}

proof fn lemma_preview_keys_stable_upto(
    ms: Seq<FontMeta>,
    ra: Seq<Option<Seq<char>>>,
    rb: Seq<Option<Seq<char>>>,
    n: int,
)
    requires
        ra.len() == rb.len(),
        n <= ra.len(),
        n <= ms.len(),
        forall|i: int| 0 <= i < ra.len() ==> ((#[trigger] ra[i]) is Some <==> rb[i] is Some),
    ensures
        keys(previews_upto(ms, ra, n)) == keys(previews_upto(ms, rb, n)),
    decreases n,
{
    if n > 0 {
        lemma_preview_keys_stable_upto(ms, ra, rb, n - 1);
        assert(ra[n - 1] is Some <==> rb[n - 1] is Some);
        let pa = previews_upto(ms, ra, n - 1);
        let pb = previews_upto(ms, rb, n - 1);
        match (ra[n - 1], rb[n - 1]) {
            (Some(da), Some(db)) => {
                let ea = (ms[n - 1].postscript_name@, da);
                let eb = (ms[n - 1].postscript_name@, db);
                assert(keys(pa.push(ea)) =~= keys(pa).push(ea.0));
                assert(keys(pb.push(eb)) =~= keys(pb).push(eb.0));
            },
            _ => {},
        }
    }
}

/// With no fonts at all, the descriptor list and the preview map are both empty.
pub proof fn lemma_empty_font_set(rs: Seq<Option<Seq<char>>>)
    ensures
        selected(Seq::<FontMeta>::empty()) == Seq::<FontMeta>::empty(),
        previews(selected(Seq::<FontMeta>::empty()), rs) == Seq::<(Seq<char>, Seq<char>)>::empty(),
{
}

/// The position of the descriptor with identifier `id`, if there is one.
pub fn find_descriptor(metas: &Vec<FontMeta>, id: &String) -> (r: Option<usize>)
    ensures
        r is None <==> !has_id(metas@, id@),
        r matches Some(i) ==> i < metas@.len() && metas@[i as int].postscript_name@ == id@,
{
    let mut i: usize = 0;
    while i < metas.len()
        invariant
            i <= metas.len(),
            forall|k: int| 0 <= k < i ==> (#[trigger] metas@[k]).postscript_name@ != id@,
        decreases metas.len() - i,
    {
        if metas[i].postscript_name == *id {
            return Some(i);
        }
        i = i + 1;
    }
    None
}

/// The content type for font bytes: the sniffed media type, or
/// `application/octet-stream` where none was recognised.
pub fn content_type_or_default(sniffed: Option<String>) -> (r: String)
    ensures
        r@ == match sniffed {
            Some(t) => t@,
            None => "application/octet-stream"@,
        },
{
    match sniffed {
        Some(t) => t,
        None => "application/octet-stream".to_string(),
    }
}

} // verus!
