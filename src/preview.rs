use vstd::prelude::*;
use vstd::string::*;

use crate::path::{
    command_in_bounds, emit_all, vertex_bound, vertex_in_bounds, OutlineCommand, PathCommand, SvgPathBuilder,
    Vertex,
};
use crate::text::{number_text, numerator_bound, push_number};

verus! {

/// The em size of a preview, in output units.
pub const FONT_SIZE: i128 = 12;

/// The margin around a preview's geometry, in output units.
pub const PADDING: i128 = 2;

/// The font-wide metrics a preview needs. `ascent` and `descent` are in 26.6 fixed-point
/// font units, like the outline points; `descent` is negative below the baseline.
#[derive(Clone, Copy, Debug, PartialEq, Eq, Structural)]
pub struct FontMetrics {
    pub units_per_em: u16,
    pub ascent: i32,
    pub descent: i32,
}

/// What the font has for one character of the sample text.
pub enum GlyphSlot {
    /// The font has no glyph for the character.
    Missing,
    /// The glyph's outline program and its horizontal advance (26.6 font units).
    Drawn { outline: Vec<OutlineCommand>, advance: i32 },
    /// The font has a glyph, but its outline could not be read.
    Unreadable,
}

#[derive(Clone, Copy, Debug, PartialEq, Eq, Structural)]
pub enum PreviewError {
    /// The font declares zero units per em, so nothing can be scaled.
    ZeroUnitsPerEm,
    /// A glyph's outline could not be read.
    UnreadableGlyph,
}

/// A view box; each field is a numerator over the denominator of the path it frames.
#[derive(Clone, Copy, Debug, PartialEq, Eq, Structural)]
pub struct ViewBox {
    pub x: i128,
    pub y: i128,
    pub width: i128,
    pub height: i128,
}

pub open spec fn spec_view_box(ascent: int, descent: int, cursor_x: int, padding: int) -> ViewBox {
    ViewBox {
        x: (-padding) as i128,
        y: (-ascent - padding) as i128,
        width: (cursor_x + 2 * padding) as i128,
        height: (ascent - descent + 2 * padding) as i128,
    }
}

/// The view box of a laid-out line: as wide as the advanced cursor and as tall as the
/// font's ascent to descent, with `padding` on every side, its top at the ascent.
pub fn view_box(ascent: i128, descent: i128, cursor_x: i128, padding: i128) -> (r: ViewBox)
    requires
        -vertex_bound() <= ascent <= vertex_bound(),
        -vertex_bound() <= descent <= vertex_bound(),
        -vertex_bound() <= cursor_x <= vertex_bound(),
        -vertex_bound() <= padding <= vertex_bound(),
    ensures
        r == spec_view_box(ascent as int, descent as int, cursor_x as int, padding as int),
{
    ViewBox {
        x: -padding,
        y: -ascent - padding,
        width: cursor_x + 2 * padding,
        height: ascent - descent + 2 * padding,
    }
}

/// How far a slot moves the cursor, in path numerators.
pub open spec fn slot_advance(g: GlyphSlot) -> int {
    match g {
        GlyphSlot::Drawn { advance, .. } => FONT_SIZE * advance,
        _ => 0,
    }
}

/// The cursor after laying out `gs` from zero.
pub open spec fn layout_cursor(gs: Seq<GlyphSlot>) -> int
    decreases gs.len(),
{
    if gs.len() == 0 {
        0
    } else {
        layout_cursor(gs.drop_last()) + slot_advance(gs.last())
    }
}

/// The path commands of one slot drawn at cursor `x`.
pub open spec fn slot_commands(g: GlyphSlot, x: int) -> Seq<PathCommand> {
    match g {
        GlyphSlot::Drawn { outline, .. } => emit_all(outline@, FONT_SIZE as int, x, 0),
        _ => Seq::empty(),
    }
}

/// The path of the slots laid out left to right along one baseline, each glyph shifted
/// by the advances of those before it.
pub open spec fn layout_commands(gs: Seq<GlyphSlot>) -> Seq<PathCommand>
    decreases gs.len(),
{
    if gs.len() == 0 {
        Seq::empty()
    } else {
        layout_commands(gs.drop_last()) + slot_commands(gs.last(), layout_cursor(gs.drop_last()))
    }
}

pub open spec fn has_unreadable(gs: Seq<GlyphSlot>) -> bool {
    exists|i: int| 0 <= i < gs.len() && gs[i] is Unreadable
}

/// The denominator of every number in a preview of a font with `units_per_em`.
pub open spec fn denominator(units_per_em: int) -> int {
    64 * units_per_em
}

/// The view box of a preview, from the font's metrics and the laid-out cursor.
pub open spec fn preview_view_box(m: FontMetrics, cursor_x: int) -> ViewBox {
    spec_view_box(
        FONT_SIZE * m.ascent,
        FONT_SIZE * m.descent,
        cursor_x,
        PADDING * denominator(m.units_per_em as int),
    )
}

/// The two coordinates of a vertex, separated by a space.
pub open spec fn vertex_text(p: Vertex, den: int) -> Seq<char> {
    number_text(p.x as int, den) + " "@ + number_text(p.y as int, den)
}

pub open spec fn command_text(c: PathCommand, den: int) -> Seq<char> {
    match c {
        PathCommand::Move(p) => "M "@ + vertex_text(p, den),
        PathCommand::Line(p) => "L "@ + vertex_text(p, den),
        PathCommand::Quad(c0, p) => "Q "@ + vertex_text(c0, den) + " "@ + vertex_text(p, den),
        PathCommand::Cubic(c0, c1, p) => "C "@ + vertex_text(c0, den) + " "@ + vertex_text(c1, den)
            + " "@ + vertex_text(p, den),
        PathCommand::Close => "Z"@,
    }
}

/// The path data: the commands' texts separated by single spaces.
pub open spec fn path_text(cs: Seq<PathCommand>, den: int) -> Seq<char>
    decreases cs.len(),
{
    if cs.len() == 0 {
        Seq::empty()
    } else if cs.len() == 1 {
        command_text(cs[0], den)
    } else {
        path_text(cs.drop_last(), den) + " "@ + command_text(cs.last(), den)
    }
}

/// The four numbers of a view box attribute.
pub open spec fn box_text(vb: ViewBox, den: int) -> Seq<char> {
    number_text(vb.x as int, den) + " "@ + number_text(vb.y as int, den) + " "@
        + number_text(vb.width as int, den) + " "@ + number_text(vb.height as int, den)
}

/// The opening tag of the document, up to where the path data starts.
pub open spec fn svg_head(vb: ViewBox, den: int) -> Seq<char> {
    "<svg xmlns=\"http://www.w3.org/2000/svg\" viewBox=\""@ + box_text(vb, den)
        + "\" width=\""@ + number_text(vb.width as int, den)
        + "\" height=\""@ + number_text(vb.height as int, den) + "\"><path d=\""@
}

/// An SVG document with the view box, its width and height as the document's size, and
/// one path filled with the current color.
pub open spec fn svg_text(vb: ViewBox, cs: Seq<PathCommand>, den: int) -> Seq<char> {
    svg_head(vb, den) + path_text(cs, den) + "\" fill=\"currentColor\"/></svg>"@
}

/// The preview document of a font with metrics `m` for the sample whose slots are `gs`.
pub open spec fn preview_text(m: FontMetrics, gs: Seq<GlyphSlot>) -> Seq<char> {
    svg_text(
        preview_view_box(m, layout_cursor(gs)),
        layout_commands(gs),
        denominator(m.units_per_em as int),
    )
}


fn push_vertex(s: &mut String, p: Vertex, den: i128)
    requires
        0 < den <= 0x1_0000_0000,
        vertex_in_bounds(p),
    ensures
        final(s)@ == old(s)@ + vertex_text(p, den as int),
{
    push_number(s, p.x, den);
    s.append(" ");
    push_number(s, p.y, den);
    assert(final(s)@ =~= old(s)@ + vertex_text(p, den as int));
}

fn push_command(s: &mut String, c: PathCommand, den: i128)
    requires
        0 < den <= 0x1_0000_0000,
        command_in_bounds(c),
    ensures
        final(s)@ == old(s)@ + command_text(c, den as int),
{
    let ghost start = s@;
    match c {
        PathCommand::Move(p) => {
            s.append("M ");
            push_vertex(s, p, den);
            assert(s@ =~= start + command_text(c, den as int));
        },
        PathCommand::Line(p) => {
            s.append("L ");
            push_vertex(s, p, den);
            assert(s@ =~= start + command_text(c, den as int));
        },
        PathCommand::Quad(c0, p) => {
            s.append("Q ");
            push_vertex(s, c0, den);
            s.append(" ");
            push_vertex(s, p, den);
            assert(s@ =~= start + command_text(c, den as int));
        },
        PathCommand::Cubic(c0, c1, p) => {
            s.append("C ");
            push_vertex(s, c0, den);
            s.append(" ");
            push_vertex(s, c1, den);
            s.append(" ");
            push_vertex(s, p, den);
            assert(s@ =~= start + command_text(c, den as int));
        },
        PathCommand::Close => {
            s.append("Z");
        },
    }
}

/// Appends the path data of `cs`: the commands' texts separated by single spaces.
pub fn push_path(s: &mut String, cs: &Vec<PathCommand>, den: i128)
    requires
        0 < den <= 0x1_0000_0000,
        forall|i: int| 0 <= i < cs@.len() ==> command_in_bounds(#[trigger] cs@[i]),
    ensures
        final(s)@ == old(s)@ + path_text(cs@, den as int),
{
    let ghost start = s@;
    let mut i: usize = 0;
    while i < cs.len()
        invariant
            0 < den <= 0x1_0000_0000,
            forall|i: int| 0 <= i < cs@.len() ==> command_in_bounds(#[trigger] cs@[i]),
            i <= cs.len(),
            s@ == start + path_text(cs@.subrange(0, i as int), den as int),
        decreases cs.len() - i,
    {
        let ghost before = s@;
        if i > 0 {
            s.append(" ");
        }
        push_command(s, cs[i], den);
        let ghost next = cs@.subrange(0, i + 1);
        assert(next.drop_last() =~= cs@.subrange(0, i as int));
        assert(s@ =~= start + path_text(next, den as int));
        i = i + 1;
    }
    assert(cs@.subrange(0, cs@.len() as int) =~= cs@);
}

fn push_box(s: &mut String, vb: ViewBox, den: i128)
    requires
        0 < den <= 0x1_0000_0000,
        -numerator_bound() <= vb.x <= numerator_bound(),
        -numerator_bound() <= vb.y <= numerator_bound(),
        -numerator_bound() <= vb.width <= numerator_bound(),
        -numerator_bound() <= vb.height <= numerator_bound(),
    ensures
        final(s)@ == old(s)@ + box_text(vb, den as int),
{
    push_number(s, vb.x, den);
    s.append(" ");
    push_number(s, vb.y, den);
    s.append(" ");
    push_number(s, vb.width, den);
    s.append(" ");
    push_number(s, vb.height, den);
    assert(final(s)@ =~= old(s)@ + box_text(vb, den as int));
}

fn push_head(s: &mut String, vb: ViewBox, den: i128)
    requires
        0 < den <= 0x1_0000_0000,
        -numerator_bound() <= vb.x <= numerator_bound(),
        -numerator_bound() <= vb.y <= numerator_bound(),
        -numerator_bound() <= vb.width <= numerator_bound(),
        -numerator_bound() <= vb.height <= numerator_bound(),
    ensures
        final(s)@ == old(s)@ + svg_head(vb, den as int),
{
    s.append("<svg xmlns=\"http://www.w3.org/2000/svg\" viewBox=\"");
    push_box(s, vb, den);
    s.append("\" width=\"");
    push_number(s, vb.width, den);
    s.append("\" height=\"");
    push_number(s, vb.height, den);
    s.append("\"><path d=\"");
    assert(final(s)@ =~= old(s)@ + svg_head(vb, den as int));
}

/// Appends the SVG document that frames the path `cs` with the view box `vb`.
pub fn push_svg(s: &mut String, vb: ViewBox, cs: &Vec<PathCommand>, den: i128)
    requires
        0 < den <= 0x1_0000_0000,
        forall|i: int| 0 <= i < cs@.len() ==> command_in_bounds(#[trigger] cs@[i]),
        -numerator_bound() <= vb.x <= numerator_bound(),
        -numerator_bound() <= vb.y <= numerator_bound(),
        -numerator_bound() <= vb.width <= numerator_bound(),
        -numerator_bound() <= vb.height <= numerator_bound(),
    ensures
        final(s)@ == old(s)@ + svg_text(vb, cs@, den as int),
{
    push_head(s, vb, den);
    push_path(s, cs, den);
    s.append("\" fill=\"currentColor\"/></svg>");
    assert(final(s)@ =~= old(s)@ + svg_text(vb, cs@, den as int));
}

/// Renders the sample whose characters have the slots `glyphs` as an SVG document: the
/// glyphs laid out left to right at an em size of `FONT_SIZE`, Y flipped, framed by the
/// font's metrics with `PADDING` around. Characters without a glyph are skipped.
pub fn generate_preview(metrics: &FontMetrics, glyphs: &Vec<GlyphSlot>) -> (r: Result<String, PreviewError>)
    ensures
        metrics.units_per_em == 0 ==> r == Err::<String, PreviewError>(PreviewError::ZeroUnitsPerEm),
        metrics.units_per_em != 0 && has_unreadable(glyphs@)
            ==> r == Err::<String, PreviewError>(PreviewError::UnreadableGlyph),
        metrics.units_per_em != 0 && !has_unreadable(glyphs@) ==> r is Ok && r->Ok_0@ == preview_text(
            *metrics,
            glyphs@,
        ),
{
    if metrics.units_per_em == 0 {
        return Err(PreviewError::ZeroUnitsPerEm);
    }
    let den: i128 = 64 * metrics.units_per_em as i128;
    let mut cursor: i128 = 0;
    let mut commands: Vec<PathCommand> = Vec::new();
    let mut i: usize = 0;
    while i < glyphs.len()
        invariant
            metrics.units_per_em > 0,
            den == 64 * metrics.units_per_em,
            i <= glyphs.len(),
            -(i as int) * 0x6_0000_0000 <= cursor <= (i as int) * 0x6_0000_0000,
            cursor == layout_cursor(glyphs@.subrange(0, i as int)),
            commands@ == layout_commands(glyphs@.subrange(0, i as int)),
            forall|k: int| 0 <= k < commands@.len() ==> command_in_bounds(#[trigger] commands@[k]),
            forall|k: int| 0 <= k < i ==> !(#[trigger] glyphs@[k] is Unreadable),
        decreases glyphs.len() - i,
    {
        let ghost sub = glyphs@.subrange(0, i + 1);
        assert(sub.drop_last() =~= glyphs@.subrange(0, i as int));
        assert(sub.last() == glyphs@[i as int]);
        match &glyphs[i] {
            GlyphSlot::Missing => {},
            GlyphSlot::Unreadable => {
                assert(has_unreadable(glyphs@));
                return Err(PreviewError::UnreadableGlyph);
            },
            GlyphSlot::Drawn { outline, advance } => {
                assert(i < 0x1_0000_0000_0000_0000);
                let mut b = SvgPathBuilder::new(cursor, 0, FONT_SIZE);
                b.walk(outline);
                let ghost old_commands = commands@;
                assert(b.commands@ =~= emit_all(outline@, FONT_SIZE as int, cursor as int, 0));
                commands.append(&mut b.commands);
                assert(forall|k: int| 0 <= k < b.commands@.len() ==> command_in_bounds(#[trigger] b.commands@[k]));
                cursor = cursor + FONT_SIZE * (*advance as i128);
            },
        }
        assert(commands@ == layout_commands(sub));
        i = i + 1;
    }
    assert(glyphs@.subrange(0, glyphs@.len() as int) =~= glyphs@);
    let vb = view_box(
        FONT_SIZE * metrics.ascent as i128,
        FONT_SIZE * metrics.descent as i128,
        cursor,
        PADDING * den,
    );
    let mut s = String::new();
    push_svg(&mut s, vb, &commands, den);
    assert(s@ =~= preview_text(*metrics, glyphs@));
    Ok(s)
}


/// A character without a glyph adds no path command and does not move the cursor: the
/// layout of a sample with a missing glyph anywhere in it is the layout without it.
pub proof fn lemma_missing_glyph_skipped(a: Seq<GlyphSlot>, b: Seq<GlyphSlot>)
    ensures
        layout_cursor(a + seq![GlyphSlot::Missing] + b) == layout_cursor(a + b),
        layout_commands(a + seq![GlyphSlot::Missing] + b) == layout_commands(a + b),
    decreases b.len(),
{
    let with = a + seq![GlyphSlot::Missing] + b;
    if b.len() == 0 {
        assert(with.drop_last() =~= a);
        assert(a + b =~= a);
        assert(layout_commands(with) =~= layout_commands(a));
    } else {
        let b0 = b.drop_last();
        lemma_missing_glyph_skipped(a, b0);
        assert(with.drop_last() =~= a + seq![GlyphSlot::Missing] + b0);
        assert((a + b).drop_last() =~= a + b0);
        assert(with.last() == b.last());
        assert((a + b).last() == b.last());
    }
}


/// The slots of a sample with every character that has no glyph taken out.
pub open spec fn without_missing(gs: Seq<GlyphSlot>) -> Seq<GlyphSlot> {
    gs.filter(|g: GlyphSlot| !(g is Missing))
}

/// Characters without a glyph add no path command, no cursor advance and no failure:
/// the sample renders exactly as the sample with all of them taken out.
pub proof fn lemma_missing_glyphs_skipped(m: FontMetrics, gs: Seq<GlyphSlot>)
    ensures
        layout_cursor(gs) == layout_cursor(without_missing(gs)),
        layout_commands(gs) == layout_commands(without_missing(gs)),
        has_unreadable(gs) == has_unreadable(without_missing(gs)),
        preview_text(m, gs) == preview_text(m, without_missing(gs)),
    decreases gs.len(),
{
    reveal(Seq::filter);
    if gs.len() > 0 {
        let rest = gs.drop_last();
        let g = gs.last();
        lemma_missing_glyphs_skipped(m, rest);
        let f = without_missing(gs);
        let fr = without_missing(rest);
        assert(g == gs[gs.len() - 1]);
        if g is Missing {
            assert(f == fr);
            assert(has_unreadable(gs) == has_unreadable(rest)) by {
                if has_unreadable(gs) {
                    let i = choose|i: int| 0 <= i < gs.len() && gs[i] is Unreadable;
                    assert(rest[i] == gs[i]);
                }
                if has_unreadable(rest) {
                    let i = choose|i: int| 0 <= i < rest.len() && rest[i] is Unreadable;
                    assert(rest[i] == gs[i]);
                }
            }
        } else {
            assert(f == fr.push(g));
            assert(f.drop_last() =~= fr);
            assert(f.last() == g);
            assert(has_unreadable(gs) == (has_unreadable(rest) || g is Unreadable)) by {
                if has_unreadable(gs) {
                    let i = choose|i: int| 0 <= i < gs.len() && gs[i] is Unreadable;
                    if i < rest.len() {
                        assert(rest[i] == gs[i]);
                    }
                }
                if has_unreadable(rest) {
                    let i = choose|i: int| 0 <= i < rest.len() && rest[i] is Unreadable;
                    assert(rest[i] == gs[i]);
                }
            }
            assert(has_unreadable(f) == (has_unreadable(fr) || g is Unreadable)) by {
                if has_unreadable(f) {
                    let i = choose|i: int| 0 <= i < f.len() && f[i] is Unreadable;
                    if i < fr.len() {
                        assert(fr[i] == f[i]);
                    }
                }
                if has_unreadable(fr) {
                    let i = choose|i: int| 0 <= i < fr.len() && fr[i] is Unreadable;
                    assert(fr[i] == f[i]);
                }
                if g is Unreadable {
                    assert(f[f.len() - 1] == g);
                }
            }
        }
    }
}

} // verus!
