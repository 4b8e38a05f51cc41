use vstd::prelude::*;

verus! {

/// A point of a glyph outline, in 26.6 fixed-point font units (1/64 of a font unit),
/// with the font's Y axis pointing up.
#[derive(Clone, Copy, Debug, PartialEq, Eq, Structural)]
pub struct Point {
    pub x: i32,
    pub y: i32,
}

/// One step of a glyph's outline program.
#[derive(Clone, Copy, Debug, PartialEq, Eq, Structural)]
pub enum OutlineCommand {
    MoveTo(Point),
    LineTo(Point),
    QuadTo(Point, Point),
    /// The two control points, then the end point.
    CubicTo(Point, Point, Point),
    Close,
}

/// A point of the emitted path. Each coordinate is the numerator of a rational number
/// whose denominator is fixed by whoever renders the path; Y points down.
#[derive(Clone, Copy, Debug, PartialEq, Eq, Structural)]
pub struct Vertex {
    pub x: i128,
    pub y: i128,
}

/// One command of the emitted vector path.
#[derive(Clone, Copy, Debug, PartialEq, Eq, Structural)]
pub enum PathCommand {
    Move(Vertex),
    Line(Vertex),
    Quad(Vertex, Vertex),
    Cubic(Vertex, Vertex, Vertex),
    Close,
}

/// The largest scale factor a builder accepts.
pub open spec fn scale_bound() -> int {
    0x1_0000_0000
}

/// The largest offset a builder accepts.
pub open spec fn offset_bound() -> int {
    0x8_0000_0000_0000_0000_0000_0000
}

/// A glyph point scaled, shifted by the offset, and flipped to a Y-down convention.
pub open spec fn transform(p: Point, scale: int, ox: int, oy: int) -> Vertex {
    Vertex { x: (p.x * scale + ox) as i128, y: (-(p.y * scale + oy)) as i128 }
}

/// The path command that one outline command becomes.
pub open spec fn emit(c: OutlineCommand, scale: int, ox: int, oy: int) -> PathCommand {
    match c {
        OutlineCommand::MoveTo(p) => PathCommand::Move(transform(p, scale, ox, oy)),
        OutlineCommand::LineTo(p) => PathCommand::Line(transform(p, scale, ox, oy)),
        OutlineCommand::QuadTo(c0, p) => PathCommand::Quad(
            transform(c0, scale, ox, oy),
            transform(p, scale, ox, oy),
        ),
        OutlineCommand::CubicTo(c0, c1, p) => PathCommand::Cubic(
            transform(c0, scale, ox, oy),
            transform(c1, scale, ox, oy),
            transform(p, scale, ox, oy),
        ),
        OutlineCommand::Close => PathCommand::Close,
    }
}

/// The path commands that an outline program becomes, one for each of its steps.
pub open spec fn emit_all(cs: Seq<OutlineCommand>, scale: int, ox: int, oy: int) -> Seq<PathCommand> {
    cs.map_values(|c: OutlineCommand| emit(c, scale, ox, oy))
}

/// The largest magnitude of a coordinate in an emitted path.
pub open spec fn vertex_bound() -> int {
    0x10_0000_0000_0000_0000_0000_0000
}

pub open spec fn vertex_in_bounds(v: Vertex) -> bool {
    -vertex_bound() <= v.x <= vertex_bound() && -vertex_bound() <= v.y <= vertex_bound()
}

pub open spec fn command_in_bounds(c: PathCommand) -> bool {
    match c {
        PathCommand::Move(p) => vertex_in_bounds(p),
        PathCommand::Line(p) => vertex_in_bounds(p),
        PathCommand::Quad(c0, p) => vertex_in_bounds(c0) && vertex_in_bounds(p),
        PathCommand::Cubic(c0, c1, p) => vertex_in_bounds(c0) && vertex_in_bounds(c1)
            && vertex_in_bounds(p),
        PathCommand::Close => true,
    }
}

/// Collects the path of one glyph: each outline step is scaled, shifted by the glyph's
/// offset and flipped vertically.
pub struct SvgPathBuilder {
    pub commands: Vec<PathCommand>,
    pub offset_x: i128,
    pub offset_y: i128,
    pub scale: i128,
}

impl SvgPathBuilder {
    pub open spec fn wf(&self) -> bool {
        &&& 0 <= self.scale <= scale_bound()
        &&& -offset_bound() <= self.offset_x <= offset_bound()
        &&& -offset_bound() <= self.offset_y <= offset_bound()
        &&& forall|i: int| 0 <= i < self.commands@.len() ==> command_in_bounds(#[trigger] self.commands@[i])
    }

    pub open spec fn emitted(&self, c: OutlineCommand) -> PathCommand {
        emit(c, self.scale as int, self.offset_x as int, self.offset_y as int)
    }

    pub fn new(offset_x: i128, offset_y: i128, scale: i128) -> (r: Self)
        requires
            0 <= scale <= scale_bound(),
            -offset_bound() <= offset_x <= offset_bound(),
            -offset_bound() <= offset_y <= offset_bound(),
        ensures
            r.wf(),
            r.commands@ == Seq::<PathCommand>::empty(),
            r.offset_x == offset_x,
            r.offset_y == offset_y,
            r.scale == scale,
    {
        SvgPathBuilder { commands: Vec::new(), offset_x, offset_y, scale }
    }

    fn point(&self, p: Point) -> (r: Vertex)
        requires
            self.wf(),
        ensures
            r == transform(p, self.scale as int, self.offset_x as int, self.offset_y as int),
            vertex_in_bounds(r),
    {
        proof {
            let s = self.scale as int;
            assert(-0x8000_0000 * s <= p.x * s <= 0x8000_0000 * s) by (nonlinear_arith)
                requires
                    -0x8000_0000 <= p.x <= 0x8000_0000,
                    0 <= s,
            ;
            assert(-0x8000_0000 * s <= p.y * s <= 0x8000_0000 * s) by (nonlinear_arith)
                requires
                    -0x8000_0000 <= p.y <= 0x8000_0000,
                    0 <= s,
            ;
        }
        Vertex {
            x: p.x as i128 * self.scale + self.offset_x,
            y: -(p.y as i128 * self.scale + self.offset_y),
        }
    }

    pub fn move_to(&mut self, to: Point)
        requires
            old(self).wf(),
        ensures
            final(self).wf(),
            final(self).scale == old(self).scale,
            final(self).offset_x == old(self).offset_x,
            final(self).offset_y == old(self).offset_y,
            final(self).commands@ == old(self).commands@.push(
                old(self).emitted(OutlineCommand::MoveTo(to)),
            ),
    {
        let p = self.point(to);
        self.commands.push(PathCommand::Move(p));
    }

    pub fn line_to(&mut self, to: Point)
        requires
            old(self).wf(),
        ensures
            final(self).wf(),
            final(self).scale == old(self).scale,
            final(self).offset_x == old(self).offset_x,
            final(self).offset_y == old(self).offset_y,
            final(self).commands@ == old(self).commands@.push(
                old(self).emitted(OutlineCommand::LineTo(to)),
            ),
    {
        let p = self.point(to);
        self.commands.push(PathCommand::Line(p));
    }

    pub fn quadratic_curve_to(&mut self, ctrl: Point, to: Point)
        requires
            old(self).wf(),
        ensures
            final(self).wf(),
            final(self).scale == old(self).scale,
            final(self).offset_x == old(self).offset_x,
            final(self).offset_y == old(self).offset_y,
            final(self).commands@ == old(self).commands@.push(
                old(self).emitted(OutlineCommand::QuadTo(ctrl, to)),
            ),
    {
        let c = self.point(ctrl);
        let p = self.point(to);
        self.commands.push(PathCommand::Quad(c, p));
    }

    /// `ctrl_from` and `ctrl_to` are the two ends of the control segment.
    pub fn cubic_curve_to(&mut self, ctrl_from: Point, ctrl_to: Point, to: Point)
        requires
            old(self).wf(),
        ensures
            final(self).wf(),
            final(self).scale == old(self).scale,
            final(self).offset_x == old(self).offset_x,
            final(self).offset_y == old(self).offset_y,
            final(self).commands@ == old(self).commands@.push(
                old(self).emitted(OutlineCommand::CubicTo(ctrl_from, ctrl_to, to)),
            ),
    {
        let c0 = self.point(ctrl_from);
        let c1 = self.point(ctrl_to);
        let p = self.point(to);
        self.commands.push(PathCommand::Cubic(c0, c1, p));
    }

    pub fn close(&mut self)
        requires
            old(self).wf(),
        ensures
            final(self).wf(),
            final(self).scale == old(self).scale,
            final(self).offset_x == old(self).offset_x,
            final(self).offset_y == old(self).offset_y,
            final(self).commands@ == old(self).commands@.push(PathCommand::Close),
    {
        self.commands.push(PathCommand::Close);
    }

    /// Feeds a whole outline program through the builder, one step at a time.
    pub fn walk(&mut self, outline: &Vec<OutlineCommand>)
        requires
            old(self).wf(),
        ensures
            final(self).wf(),
            final(self).scale == old(self).scale,
            final(self).offset_x == old(self).offset_x,
            final(self).offset_y == old(self).offset_y,
            final(self).commands@ == old(self).commands@ + emit_all(
                outline@,
                old(self).scale as int,
                old(self).offset_x as int,
                old(self).offset_y as int,
            ),
    {
        let ghost start = self.commands@;
        let ghost (s, ox, oy) = (self.scale as int, self.offset_x as int, self.offset_y as int);
        let mut i: usize = 0;
        while i < outline.len()
            invariant
                self.wf(),
                self.scale == s,
                self.offset_x == ox,
                self.offset_y == oy,
                i <= outline.len(),
                self.commands@ == start + emit_all(outline@.subrange(0, i as int), s, ox, oy),
            decreases outline.len() - i,
        {
            let ghost before = self.commands@;
            match outline[i] {
                OutlineCommand::MoveTo(p) => self.move_to(p),
                OutlineCommand::LineTo(p) => self.line_to(p),
                OutlineCommand::QuadTo(c, p) => self.quadratic_curve_to(c, p),
                OutlineCommand::CubicTo(c0, c1, p) => self.cubic_curve_to(c0, c1, p),
                OutlineCommand::Close => self.close(),
            }
            assert(outline@.subrange(0, i + 1) =~= outline@.subrange(0, i as int).push(outline@[i as int]));
            assert(emit_all(outline@.subrange(0, i + 1), s, ox, oy) =~= emit_all(
                outline@.subrange(0, i as int), s, ox, oy).push(emit(outline@[i as int], s, ox, oy)));
            i = i + 1;
        }
        assert(outline@.subrange(0, outline@.len() as int) =~= outline@);
    }
}

} // verus!
