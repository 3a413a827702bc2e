//! The rectangular playable area: its four boundary walls and the clamp box
//! that keeps a moving body inside it.

use vstd::prelude::*;

use crate::config::{COORD_LIMIT, WORLD_LIMIT};

verus! {

/// Rejected world geometry, found when the world is set up rather than at
/// tick time.  The variants are checked in the order they are declared:
/// a report names the first failing check.
#[derive(Clone, Copy, Debug, PartialEq, Eq, Structural)]
pub enum GeometryError {
    /// An edge or the thickness lies outside `[-WORLD_LIMIT, WORLD_LIMIT]`.
    OutOfRange,
    /// The top edge does not lie strictly above the bottom edge.
    InvertedVertical,
    /// The right edge does not lie strictly right of the left edge.
    InvertedHorizontal,
    /// The wall thickness is zero or negative.
    NonPositiveThickness,
    /// The wall thickness is at least the world's width or height.
    ThicknessTooLarge,
    /// A body's half-extents leave it no room between opposite walls.
    MarginTooLarge,
}

/// The playable area: the center lines of the four boundary walls and the
/// walls' thickness, in sub-units.  Immutable once validated.
#[derive(Clone, Copy, Debug, PartialEq, Eq, Structural)]
pub struct WorldBounds {
    pub top: i64,
    pub left: i64,
    pub bottom: i64,
    pub right: i64,
    pub thickness: i64,
}

impl WorldBounds {
    /// Non-degenerate geometry: edges ordered and in range, walls of positive
    /// thickness thinner than either world span.
    pub open spec fn wf(self) -> bool {
        &&& -WORLD_LIMIT <= self.left < self.right <= WORLD_LIMIT
        &&& -WORLD_LIMIT <= self.bottom < self.top <= WORLD_LIMIT
        &&& 0 < self.thickness <= WORLD_LIMIT
        &&& self.thickness < self.right - self.left
        &&& self.thickness < self.top - self.bottom
    }

    /// The first failing validation check for these five values, `Ok` when
    /// all pass.
    pub open spec fn validate_spec(
        top: int,
        left: int,
        bottom: int,
        right: int,
        thickness: int,
    ) -> Result<WorldBounds, GeometryError> {
        if !(-WORLD_LIMIT <= top <= WORLD_LIMIT && -WORLD_LIMIT <= left <= WORLD_LIMIT
            && -WORLD_LIMIT <= bottom <= WORLD_LIMIT && -WORLD_LIMIT <= right <= WORLD_LIMIT
            && -WORLD_LIMIT <= thickness <= WORLD_LIMIT) {
            Err(GeometryError::OutOfRange)
        } else if top <= bottom {
            Err(GeometryError::InvertedVertical)
        } else if right <= left {
            Err(GeometryError::InvertedHorizontal)
        } else if thickness <= 0 {
            Err(GeometryError::NonPositiveThickness)
        } else if thickness >= right - left || thickness >= top - bottom {
            Err(GeometryError::ThicknessTooLarge)
        } else {
            Ok(WorldBounds {
                top: top as i64,
                left: left as i64,
                bottom: bottom as i64,
                right: right as i64,
                thickness: thickness as i64,
            })
        }
    }

    /// Validate and build the world geometry.  Degenerate geometry is
    /// rejected here so that clamp bounds can never invert at tick time.
    pub fn new(top: i64, left: i64, bottom: i64, right: i64, thickness: i64) -> (r: Result<
        WorldBounds,
        GeometryError,
    >)
        ensures
            r == WorldBounds::validate_spec(
                top as int,
                left as int,
                bottom as int,
                right as int,
                thickness as int,
            ),
            r is Ok <==> (WorldBounds { top, left, bottom, right, thickness }).wf(),
            r is Ok ==> r->Ok_0 == (WorldBounds { top, left, bottom, right, thickness }),
    {
        if !(-WORLD_LIMIT <= top && top <= WORLD_LIMIT && -WORLD_LIMIT <= left && left <= WORLD_LIMIT
            && -WORLD_LIMIT <= bottom && bottom <= WORLD_LIMIT && -WORLD_LIMIT <= right
            && right <= WORLD_LIMIT && -WORLD_LIMIT <= thickness && thickness <= WORLD_LIMIT) {
            Err(GeometryError::OutOfRange)
        } else if top <= bottom {
            Err(GeometryError::InvertedVertical)
        } else if right <= left {
            Err(GeometryError::InvertedHorizontal)
        } else if thickness <= 0 {
            Err(GeometryError::NonPositiveThickness)
        } else if thickness >= right - left || thickness >= top - bottom {
            Err(GeometryError::ThicknessTooLarge)
        } else {
            Ok(WorldBounds { top, left, bottom, right, thickness })
        }
    }

    /// The world's width: the distance between the left and right center
    /// lines.
    pub open spec fn width(self) -> int {
        self.right - self.left
    }

    /// The world's height: the distance between the bottom and top center
    /// lines.
    pub open spec fn height(self) -> int {
        self.top - self.bottom
    }
}

/// One of the four static boundary walls.
#[derive(Clone, Copy, Debug, PartialEq, Eq, Structural)]
pub enum WallLocation {
    Top,
    Left,
    Bottom,
    Right,
}

impl WallLocation {
    /// x coordinate of this wall's midpoint: the middle of the world for the
    /// horizontal walls, the edge's own center line for the vertical ones.
    pub open spec fn pos_x_spec(self, wb: WorldBounds) -> int {
        match self {
            WallLocation::Top => wb.left + wb.width() / 2,
            WallLocation::Bottom => wb.left + wb.width() / 2,
            WallLocation::Left => wb.left as int,
            WallLocation::Right => wb.right as int,
        }
    }

    /// y coordinate of this wall's midpoint.
    pub open spec fn pos_y_spec(self, wb: WorldBounds) -> int {
        match self {
            WallLocation::Top => wb.top as int,
            WallLocation::Bottom => wb.bottom as int,
            WallLocation::Left => wb.bottom + wb.height() / 2,
            WallLocation::Right => wb.bottom + wb.height() / 2,
        }
    }

    /// This wall's extent along the x axis: the thickness for the vertical
    /// walls, the width less one thickness for the horizontal ones, so that
    /// the four walls meet flush at the corners without double-counted area.
    pub open spec fn size_x_spec(self, wb: WorldBounds) -> int {
        match self {
            WallLocation::Top => wb.width() - wb.thickness,
            WallLocation::Bottom => wb.width() - wb.thickness,
            WallLocation::Left => wb.thickness as int,
            WallLocation::Right => wb.thickness as int,
        }
    }

    /// This wall's extent along the y axis.
    pub open spec fn size_y_spec(self, wb: WorldBounds) -> int {
        match self {
            WallLocation::Top => wb.thickness as int,
            WallLocation::Bottom => wb.thickness as int,
            WallLocation::Left => wb.height() - wb.thickness,
            WallLocation::Right => wb.height() - wb.thickness,
        }
    }

    /// The midpoint of this wall's edge.
    pub fn position(&self, wb: &WorldBounds) -> (r: (i64, i64))
        requires
            wb.wf(),
        ensures
            r.0 == self.pos_x_spec(*wb),
            r.1 == self.pos_y_spec(*wb),
    {
        let mid_x = wb.left + (wb.right - wb.left) / 2;
        let mid_y = wb.bottom + (wb.top - wb.bottom) / 2;
        match self {
            WallLocation::Top => (mid_x, wb.top),
            WallLocation::Bottom => (mid_x, wb.bottom),
            WallLocation::Left => (wb.left, mid_y),
            WallLocation::Right => (wb.right, mid_y),
        }
    }

    /// The wall's full extent along each axis.
    pub fn size(&self, wb: &WorldBounds) -> (r: (i64, i64))
        requires
            wb.wf(),
        ensures
            r.0 == self.size_x_spec(*wb),
            r.1 == self.size_y_spec(*wb),
    {
        match self {
            WallLocation::Top => (wb.right - wb.left - wb.thickness, wb.thickness),
            WallLocation::Bottom => (wb.right - wb.left - wb.thickness, wb.thickness),
            WallLocation::Left => (wb.thickness, wb.top - wb.bottom - wb.thickness),
            WallLocation::Right => (wb.thickness, wb.top - wb.bottom - wb.thickness),
        }
    }
}

/// A wall as placed geometry: its location tag, its midpoint and its full
/// size, ready for a renderer and for the wall's collider entity.
#[derive(Clone, Copy, Debug, PartialEq, Eq, Structural)]
pub struct Wall {
    pub location: WallLocation,
    pub center_x: i64,
    pub center_y: i64,
    pub size_x: i64,
    pub size_y: i64,
}

impl Wall {
    /// Place the wall at `location` within `wb`.
    pub fn new(location: WallLocation, wb: &WorldBounds) -> (r: Wall)
        requires
            wb.wf(),
        ensures
            r.location == location,
            r.center_x == location.pos_x_spec(*wb),
            r.center_y == location.pos_y_spec(*wb),
            r.size_x == location.size_x_spec(*wb),
            r.size_y == location.size_y_spec(*wb),
    {
        let (center_x, center_y) = location.position(wb);
        let (size_x, size_y) = location.size(wb);
        Wall { location, center_x, center_y, size_x, size_y }
    }
}

/// The closed box a moving body's center is clamped into, one interval per
/// axis.
#[derive(Clone, Copy, Debug, PartialEq, Eq, Structural)]
pub struct BoundBox {
    pub min_x: i64,
    pub max_x: i64,
    pub min_y: i64,
    pub max_y: i64,
}

impl BoundBox {
    /// Ordered intervals within `COORD_LIMIT`.
    pub open spec fn wf(self) -> bool {
        &&& -COORD_LIMIT <= self.min_x <= self.max_x <= COORD_LIMIT
        &&& -COORD_LIMIT <= self.min_y <= self.max_y <= COORD_LIMIT
    }

    /// Whether the point lies inside the box.
    pub open spec fn contains(self, x: int, y: int) -> bool {
        &&& self.min_x <= x <= self.max_x
        &&& self.min_y <= y <= self.max_y
    }
}

/// Smallest x a body with half-width `hx` may center on: an inward margin of
/// half the wall thickness plus `hx` beyond the left wall's center line.
pub open spec fn bound_min_x(wb: WorldBounds, hx: int) -> int {
    wb.left + wb.thickness / 2 + hx
}

/// Largest x a body with half-width `hx` may center on.
pub open spec fn bound_max_x(wb: WorldBounds, hx: int) -> int {
    wb.right - wb.thickness / 2 - hx
}

/// Smallest y a body with half-height `hy` may center on.
pub open spec fn bound_min_y(wb: WorldBounds, hy: int) -> int {
    wb.bottom + wb.thickness / 2 + hy
}

/// Largest y a body with half-height `hy` may center on.
pub open spec fn bound_max_y(wb: WorldBounds, hy: int) -> int {
    wb.top - wb.thickness / 2 - hy
}

/// The clamp box for a body with the given half-extents, or
/// `MarginTooLarge` when the body is too wide or too tall to fit between
/// opposite walls.
pub fn bound_box_for(wb: &WorldBounds, hx: i64, hy: i64) -> (r: Result<BoundBox, GeometryError>)
    requires
        wb.wf(),
        0 <= hx <= WORLD_LIMIT,
        0 <= hy <= WORLD_LIMIT,
    ensures
        r is Ok <==> bound_min_x(*wb, hx as int) <= bound_max_x(*wb, hx as int) && bound_min_y(
            *wb,
            hy as int,
        ) <= bound_max_y(*wb, hy as int),
        r is Ok ==> r->Ok_0 == (BoundBox {
            min_x: bound_min_x(*wb, hx as int) as i64,
            max_x: bound_max_x(*wb, hx as int) as i64,
            min_y: bound_min_y(*wb, hy as int) as i64,
            max_y: bound_max_y(*wb, hy as int) as i64,
        }) && r->Ok_0.wf(),
        r is Err ==> r->Err_0 == GeometryError::MarginTooLarge,
{
    let half_thickness = wb.thickness / 2;
    let min_x = wb.left + half_thickness + hx;
    let max_x = wb.right - half_thickness - hx;
    let min_y = wb.bottom + half_thickness + hy;
    let max_y = wb.top - half_thickness - hy;
    if min_x <= max_x && min_y <= max_y {
        Ok(BoundBox { min_x, max_x, min_y, max_y })
    } else {
        Err(GeometryError::MarginTooLarge)
    }
}

} // verus!
