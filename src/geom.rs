//! Integer vectors and axis-aligned rectangles on the terminal's cell grid.
use vstd::prelude::*;

verus! {

/// A signed 2D cell coordinate; may lie off screen.
#[derive(Clone, Copy, PartialEq, Eq, Structural, Debug, Hash)]
pub struct IVec2 {
    pub x: i32,
    pub y: i32,
}

/// An unsigned 2D extent.
#[derive(Clone, Copy, PartialEq, Eq, Structural, Debug, Hash)]
pub struct UVec2 {
    pub x: u32,
    pub y: u32,
}

/// An absolute position on the terminal's 16-bit addressable grid.
#[derive(Clone, Copy, PartialEq, Eq, Structural, Debug, Hash)]
pub struct U16Vec2 {
    pub x: u16,
    pub y: u16,
}

pub fn ivec2(x: i32, y: i32) -> (r: IVec2)
    ensures
        r == (IVec2 { x, y }),
{
    IVec2 { x, y }
}

pub fn uvec2(x: u32, y: u32) -> (r: UVec2)
    ensures
        r == (UVec2 { x, y }),
{
    UVec2 { x, y }
}

pub fn u16vec2(x: u16, y: u16) -> (r: U16Vec2)
    ensures
        r == (U16Vec2 { x, y }),
{
    U16Vec2 { x, y }
}

impl U16Vec2 {
    /// The sentinel used when a position cannot be represented or queried.
    pub open spec fn max_spec() -> U16Vec2 {
        U16Vec2 { x: u16::MAX, y: u16::MAX }
    }

    pub fn max() -> (r: U16Vec2)
        ensures
            r == U16Vec2::max_spec(),
    {
        U16Vec2 { x: u16::MAX, y: u16::MAX }
    }

    /// Widens to the unsigned 32-bit extent type.
    pub fn to_uvec2(self) -> (r: UVec2)
        ensures
            r.x == self.x,
            r.y == self.y,
    {
        UVec2 { x: self.x as u32, y: self.y as u32 }
    }
}

pub open spec fn min_u32(a: u32, b: u32) -> u32 {
    if a <= b { a } else { b }
}

/// An axis-aligned rectangle: a signed origin and an unsigned size.
#[derive(Clone, Copy, PartialEq, Eq, Structural, Debug, Hash)]
pub struct TermRect {
    pub pos: IVec2,
    pub size: UVec2,
}

impl TermRect {
    /// Whether the origin of `self`, read relative to `ctx`, has an `i32` absolute origin.
    pub open spec fn composable(self, ctx: TermRect) -> bool {
        i32::MIN <= ctx.pos.x + self.pos.x <= i32::MAX
            && i32::MIN <= ctx.pos.y + self.pos.y <= i32::MAX
    }

    /// `self` read relative to `ctx`: the origins add up and each side of the
    /// size is the smaller of the two rectangles' sides.
    pub open spec fn compose(self, ctx: TermRect) -> TermRect
        recommends
            self.composable(ctx),
    {
        TermRect {
            pos: IVec2 {
                x: (ctx.pos.x + self.pos.x) as i32,
                y: (ctx.pos.y + self.pos.y) as i32,
            },
            size: UVec2 {
                x: min_u32(self.size.x, ctx.size.x),
                y: min_u32(self.size.y, ctx.size.y),
            },
        }
    }

    pub fn new(pos: IVec2, size: UVec2) -> (r: TermRect)
        ensures
            r == (TermRect { pos, size }),
    {
        TermRect { pos, size }
    }

    /// Returns `self` moved by the origin of `rhs` and limited to the size of `rhs`.
    ///
    /// The size is the componentwise minimum of both sizes, so a child never
    /// reaches further than its own requested extent nor than its context's.
    pub fn move_clamp(&self, rhs: TermRect) -> (r: TermRect)
        requires
            self.composable(rhs),
        ensures
            r == self.compose(rhs),
    {
        let pos = IVec2 { x: rhs.pos.x + self.pos.x, y: rhs.pos.y + self.pos.y };
        let w = if self.size.x <= rhs.size.x {
            self.size.x
        } else {
            rhs.size.x
        };
        let h = if self.size.y <= rhs.size.y {
            self.size.y
        } else {
            rhs.size.y
        };
        TermRect { pos, size: UVec2 { x: w, y: h } }
    }

    pub fn x(&self) -> (r: i32)
        ensures
            r == self.pos.x,
    {
        self.pos.x
    }

    pub fn y(&self) -> (r: i32)
        ensures
            r == self.pos.y,
    {
        self.pos.y
    }

    pub fn width(&self) -> (r: u32)
        ensures
            r == self.size.x,
    {
        self.size.x
    }

    pub fn height(&self) -> (r: u32)
        ensures
            r == self.size.y,
    {
        self.size.y
    }
}

/// Composition places the child's origin at the context's origin plus the
/// child's own origin, and the composed size never exceeds either size.
pub proof fn law_compose(ctx: TermRect, rel: TermRect)
    requires
        rel.composable(ctx),
    ensures
        rel.compose(ctx).pos.x == ctx.pos.x + rel.pos.x,
        rel.compose(ctx).pos.y == ctx.pos.y + rel.pos.y,
        rel.compose(ctx).size.x == min_u32(rel.size.x, ctx.size.x),
        rel.compose(ctx).size.y == min_u32(rel.size.y, ctx.size.y),
        rel.compose(ctx).size.x <= ctx.size.x && rel.compose(ctx).size.x <= rel.size.x,
        rel.compose(ctx).size.y <= ctx.size.y && rel.compose(ctx).size.y <= rel.size.y,
{
}

} // verus!
