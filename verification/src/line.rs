use crate::drawable::Drawable;
use crate::quad::corner_u;
use crate::quad::corner_v;
use crate::render_steps::RenderSteps;
use crate::rendering::RenderTarget;
use vstd::prelude::*;

verus! {

/// How many guide lines lie on each side of an axis.
pub const LINE_AMOUNT: i32 = 15;

/// The distance in pixels from one guide line to the next.
pub const LINE_STEP: i32 = 100;

/// How bright a guide line is drawn: the two axes stand out from the rest.
#[derive(Clone, Copy, Debug, PartialEq, Eq, Structural)]
pub enum LineTone {
    Axis,
    Guide,
}

/// A straight line between two points of the world, in pixels.
#[derive(Clone, Copy, Debug, PartialEq, Eq, Structural)]
pub struct Segment {
    pub start_x: i32,
    pub start_y: i32,
    pub end_x: i32,
    pub end_y: i32,
    pub tone: LineTone,
}

/// One corner of the flat triangle that a line is drawn as: where it lies in
/// the world, in pixels, and the texture coordinate that it carries.
#[derive(Clone, Copy, Debug, PartialEq, Eq, Structural)]
pub struct LineVertex {
    pub x: i32,
    pub y: i32,
    pub u: i8,
    pub v: i8,
}

impl Segment {
    /// The triangle that the line is drawn as: from its start to its end and
    /// back to its start, with the texture coordinates of a quad's first
    /// triangle.
    pub open spec fn spec_shape(&self) -> Seq<LineVertex> {
        Seq::new(
            3,
            |i: int|
                LineVertex {
                    x: if i == 1 {
                        self.end_x
                    } else {
                        self.start_x
                    },
                    y: if i == 1 {
                        self.end_y
                    } else {
                        self.start_y
                    },
                    u: corner_u(i) as i8,
                    v: corner_v(i) as i8,
                },
        )
    }

    /// The triangle that the line is drawn as.
    pub fn shape(&self) -> (vertices: Vec<LineVertex>)
        ensures
            vertices@ == self.spec_shape(),
    {
        let vertices = vec![
            LineVertex { x: self.start_x, y: self.start_y, u: 0, v: 0 },
            LineVertex { x: self.end_x, y: self.end_y, u: 0, v: 1 },
            LineVertex { x: self.start_x, y: self.start_y, u: 1, v: 0 },
        ];
        assert(vertices@ =~= self.spec_shape());
        vertices
    }
}

/// How the triangles of a draw are filled.
#[derive(Clone, Copy, Debug, PartialEq, Eq, Structural)]
pub enum PolygonMode {
    /// The whole face.
    Fill,
    /// The edges only.
    Line,
}

/// One draw of a line: the line, the size of the target drawn into, and
/// how its flat triangle is filled.
#[derive(Clone, Copy, Debug, PartialEq, Eq, Structural)]
pub struct SegmentDraw {
    pub segment: Segment,
    pub mode: PolygonMode,
    pub target_width: u32,
    pub target_height: u32,
}

impl Drawable for Segment {
    type Call = SegmentDraw;

    /// A line is drawn in every pass, by its edges, from end to end as it
    /// stands in the world.
    open spec fn draw_of(&self, target: RenderTarget, step: RenderSteps) -> Option<SegmentDraw> {
        Some(
            SegmentDraw {
                segment: *self,
                mode: PolygonMode::Line,
                target_width: target.width,
                target_height: target.height,
            },
        )
    }

    fn draw(&self, target: &RenderTarget, step: &RenderSteps) -> (call: Option<SegmentDraw>) {
        Some(
            SegmentDraw {
                segment: *self,
                mode: PolygonMode::Line,
                target_width: target.width,
                target_height: target.height,
            },
        )
    }
}

/// Where the `k`th guide line crosses the other axis.
pub open spec fn guide_offset(k: int) -> int {
    (k - LINE_AMOUNT) * LINE_STEP
}

/// The tone of the `k`th guide line: the one through the origin is an axis.
pub open spec fn guide_tone(k: int) -> LineTone {
    if k == LINE_AMOUNT {
        LineTone::Axis
    } else {
        LineTone::Guide
    }
}

/// The `n`th line of the guide grid. Lines come in pairs: the even ones run
/// along the y axis, the odd ones along the x axis, both at the same offset
/// and as far as the grid reaches.
pub open spec fn guide_line(n: int) -> Segment {
    let k = n / 2;
    let reach = LINE_AMOUNT * LINE_STEP;
    if n % 2 == 0 {
        Segment {
            start_x: guide_offset(k) as i32,
            start_y: (-reach) as i32,
            end_x: guide_offset(k) as i32,
            end_y: reach as i32,
            tone: guide_tone(k),
        }
    } else {
        Segment {
            start_x: (-reach) as i32,
            start_y: guide_offset(k) as i32,
            end_x: reach as i32,
            end_y: guide_offset(k) as i32,
            tone: guide_tone(k),
        }
    }
}

/// The guide grid: for each offset from `-LINE_AMOUNT` steps up to, but not
/// with, `LINE_AMOUNT` steps, one line along each axis.
pub fn generate_grid() -> (lines: Vec<Segment>)
    ensures
        lines@.len() == 4 * LINE_AMOUNT,
        forall|n: int| 0 <= n < lines@.len() ==> lines@[n] == guide_line(n),
{
    let mut lines: Vec<Segment> = Vec::new();
    let other_start: i32 = -LINE_AMOUNT * LINE_STEP;
    let other_end: i32 = -other_start;
    let mut pos: i32 = -LINE_AMOUNT;
    while pos < LINE_AMOUNT
        invariant
            -LINE_AMOUNT <= pos <= LINE_AMOUNT,
            other_start == -LINE_AMOUNT * LINE_STEP,
            other_end == LINE_AMOUNT * LINE_STEP,
            lines@.len() == 2 * (pos + LINE_AMOUNT),
            forall|n: int| 0 <= n < lines@.len() ==> lines@[n] == guide_line(n),
        decreases LINE_AMOUNT - pos,
    {
        let offset: i32 = pos * LINE_STEP;
        let tone = if pos == 0 {
            LineTone::Axis
        } else {
            LineTone::Guide
        };
        lines.push(
            Segment { start_x: offset, start_y: other_start, end_x: offset, end_y: other_end, tone },
        );
        lines.push(
            Segment { start_x: other_start, start_y: offset, end_x: other_end, end_y: offset, tone },
        );
        pos = pos + 1;
    }
    lines
}

} // verus!
