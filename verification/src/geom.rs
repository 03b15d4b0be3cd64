//! Integer pixel geometry: positions, sizes and rectangles.
use vstd::prelude::*;

verus! {

/// Integer pixel position.
#[derive(Clone, Copy, Debug, Default, PartialEq, Eq, Hash, Structural)]
pub struct Pos {
    pub x: i32,
    pub y: i32,
}

/// Integer pixel size.
#[derive(Clone, Copy, Debug, Default, PartialEq, Eq, Hash, Structural)]
pub struct Size {
    pub w: u32,
    pub h: u32,
}

/// Rectangle in pixels.
#[derive(Clone, Copy, Debug, Default, PartialEq, Eq, Hash, Structural)]
pub struct Rect {
    pub pos: Pos,
    pub size: Size,
}

impl Pos {
    /// A position from its coordinates.
    pub fn new(x: i32, y: i32) -> (r: Self)
        ensures
            r.x == x,
            r.y == y,
    {
        Self { x, y }
    }

    /// Offset by `offset`.
    pub fn add(self, offset: Pos) -> (r: Self)
        requires
            i32::MIN <= self.x + offset.x <= i32::MAX,
            i32::MIN <= self.y + offset.y <= i32::MAX,
        ensures
            r.x == self.x + offset.x,
            r.y == self.y + offset.y,
    {
        Self { x: self.x + offset.x, y: self.y + offset.y }
    }

    /// Offset by `-offset`.
    pub fn sub(self, offset: Pos) -> (r: Self)
        requires
            i32::MIN <= self.x - offset.x <= i32::MAX,
            i32::MIN <= self.y - offset.y <= i32::MAX,
        ensures
            r.x == self.x - offset.x,
            r.y == self.y - offset.y,
    {
        Self { x: self.x - offset.x, y: self.y - offset.y }
    }
}

impl Size {
    /// A size from its dimensions.
    pub fn new(w: u32, h: u32) -> (r: Self)
        ensures
            r.w == w,
            r.h == h,
    {
        Self { w, h }
    }

    /// A size is valid when both dimensions are non-zero.
    pub fn is_valid(&self) -> (r: bool)
        ensures
            r == (self.w > 0 && self.h > 0),
    {
        self.w > 0 && self.h > 0
    }
}

/// Integer division by two, rounding toward zero.
pub open spec fn half_toward_zero(v: int) -> int {
    if v >= 0 {
        v / 2
    } else {
        -((-v) / 2)
    }
}

/// Where an extent of length `len` starting at `p` is moved to, and the length it
/// keeps, to lie within `0..limit`.
pub open spec fn fit_axis(p: int, len: int, limit: int) -> (int, int) {
    let x = if p < 0 {
        0
    } else if p + len > limit {
        if limit - len > 0 {
            limit - len
        } else {
            0
        }
    } else {
        p
    };
    let l = if x + len > limit {
        limit - x
    } else {
        len
    };
    (x, l)
}

/// Dimensions and coordinates small enough for the signed and unsigned views of
/// them to agree.
pub open spec fn fits_i32(r: Rect, size: Size) -> bool {
    &&& r.size.w <= i32::MAX
    &&& r.size.h <= i32::MAX
    &&& size.w <= i32::MAX
    &&& size.h <= i32::MAX
}

fn fit_axis_exec(p: i32, len: u32, limit: u32) -> (r: (i32, u32))
    requires
        len <= i32::MAX,
        limit <= i32::MAX,
    ensures
        r.0 as int == fit_axis(p as int, len as int, limit as int).0,
        r.1 as int == fit_axis(p as int, len as int, limit as int).1,
{
    let x: i32 = if p < 0 {
        0
    } else if p as u32 + len > limit {
        let d = limit as i32 - len as i32;
        if d > 0 {
            d
        } else {
            0
        }
    } else {
        p
    };
    let l: u32 = if x as u32 + len > limit {
        limit - x as u32
    } else {
        len
    };
    (x, l)
}

impl Rect {
    /// A rectangle from its position and size.
    pub fn new(x: i32, y: i32, w: u32, h: u32) -> (r: Self)
        ensures
            r.pos.x == x,
            r.pos.y == y,
            r.size.w == w,
            r.size.h == h,
    {
        Self { pos: Pos { x, y }, size: Size { w, h } }
    }

    /// Half the sum of position and size on each axis, rounded toward zero.
    pub fn center(&self) -> (r: Pos)
        requires
            self.size.w <= i32::MAX,
            self.size.h <= i32::MAX,
            i32::MIN <= self.pos.x + self.size.w <= i32::MAX,
            i32::MIN <= self.pos.y + self.size.h <= i32::MAX,
        ensures
            r.x == half_toward_zero(self.pos.x + self.size.w),
            r.y == half_toward_zero(self.pos.y + self.size.h),
    {
        let x = (self.pos.x + self.size.w as i32) / 2;
        let y = (self.pos.y + self.size.h as i32) / 2;
        Pos { x, y }
    }

    /// The rectangle moved, then clipped, to lie within `size`: a negative
    /// coordinate becomes zero, a rectangle that overhangs is moved back as far as
    /// the origin allows, and what still overhangs is cut off.
    pub fn fitted(&self, size: Size) -> (r: Self)
        requires
            fits_i32(*self, size),
        ensures
            r.pos.x == fit_axis(self.pos.x as int, self.size.w as int, size.w as int).0,
            r.size.w == fit_axis(self.pos.x as int, self.size.w as int, size.w as int).1,
            r.pos.y == fit_axis(self.pos.y as int, self.size.h as int, size.h as int).0,
            r.size.h == fit_axis(self.pos.y as int, self.size.h as int, size.h as int).1,
    {
        let (x, w) = fit_axis_exec(self.pos.x, self.size.w, size.w);
        let (y, h) = fit_axis_exec(self.pos.y, self.size.h, size.h);
        Self { pos: Pos { x, y }, size: Size { w, h } }
    }
}

/// A fitted rectangle lies within the size it was fitted to.
pub proof fn lemma_fit_axis_within(p: int, len: int, limit: int)
    requires
        0 <= len,
        0 <= limit,
    ensures
        0 <= fit_axis(p, len, limit).0,
        0 <= fit_axis(p, len, limit).1,
        fit_axis(p, len, limit).0 + fit_axis(p, len, limit).1 <= limit,
{
}

/// Fitting a rectangle that already fits changes nothing.
pub proof fn lemma_fit_axis_idempotent(p: int, len: int, limit: int)
    requires
        0 <= len,
        0 <= limit,
    ensures
        fit_axis(fit_axis(p, len, limit).0, fit_axis(p, len, limit).1, limit) == fit_axis(
            p,
            len,
            limit,
        ),
{
}

/// A fitted rectangle lies within the size it was fitted to, and fitting it again
/// changes nothing.
pub proof fn lemma_fitted_within(r: Rect, size: Size)
    ensures
        0 <= fit_axis(r.pos.x as int, r.size.w as int, size.w as int).0,
        fit_axis(r.pos.x as int, r.size.w as int, size.w as int).0 + fit_axis(
            r.pos.x as int,
            r.size.w as int,
            size.w as int,
        ).1 <= size.w,
        0 <= fit_axis(r.pos.y as int, r.size.h as int, size.h as int).0,
        fit_axis(r.pos.y as int, r.size.h as int, size.h as int).0 + fit_axis(
            r.pos.y as int,
            r.size.h as int,
            size.h as int,
        ).1 <= size.h,
{
    lemma_fit_axis_within(r.pos.x as int, r.size.w as int, size.w as int);
    lemma_fit_axis_within(r.pos.y as int, r.size.h as int, size.h as int);
}

/// The rectangle `fitted` returns, as a specification.
pub open spec fn spec_fitted(r: Rect, size: Size) -> Rect {
    Rect {
        pos: Pos {
            x: fit_axis(r.pos.x as int, r.size.w as int, size.w as int).0 as i32,
            y: fit_axis(r.pos.y as int, r.size.h as int, size.h as int).0 as i32,
        },
        size: Size {
            w: fit_axis(r.pos.x as int, r.size.w as int, size.w as int).1 as u32,
            h: fit_axis(r.pos.y as int, r.size.h as int, size.h as int).1 as u32,
        },
    }
}

/// `fitted` returns `spec_fitted`, and fitting a fitted rectangle to the same
/// size changes nothing.
pub proof fn lemma_fitted_idempotent(r: Rect, size: Size)
    requires
        fits_i32(r, size),
    ensures
        fits_i32(spec_fitted(r, size), size),
        spec_fitted(spec_fitted(r, size), size) == spec_fitted(r, size),
{
    lemma_fit_axis_within(r.pos.x as int, r.size.w as int, size.w as int);
    lemma_fit_axis_within(r.pos.y as int, r.size.h as int, size.h as int);
    lemma_fit_axis_idempotent(r.pos.x as int, r.size.w as int, size.w as int);
    lemma_fit_axis_idempotent(r.pos.y as int, r.size.h as int, size.h as int);
}

/// One axis of a view origin kept on the chart: a negative origin becomes zero;
/// an origin whose view would run past the chart's end is moved back so that the
/// view ends with the chart.
pub open spec fn clamp_axis(p: int, view: int, chart: int) -> int {
    if p < 0 {
        0
    } else if p + view > chart {
        chart - view
    } else {
        p
    }
}

fn clamp_axis_exec(p: i32, view: u32, chart: u32) -> (r: i32)
    requires
        view <= i32::MAX,
        chart <= i32::MAX,
        p + view <= i32::MAX,
    ensures
        r == clamp_axis(p as int, view as int, chart as int),
{
    if p < 0 {
        0
    } else if p + view as i32 > chart as i32 {
        chart as i32 - view as i32
    } else {
        p
    }
}

/// The origin of a view of `view` size over a chart of `chart` size (both at the
/// current zoom), kept on the chart on each axis.
pub fn correct_origin(origin: Pos, chart: Size, view: Size) -> (r: Pos)
    requires
        chart.w <= i32::MAX,
        chart.h <= i32::MAX,
        view.w <= i32::MAX,
        view.h <= i32::MAX,
        origin.x + view.w <= i32::MAX,
        origin.y + view.h <= i32::MAX,
    ensures
        r.x == clamp_axis(origin.x as int, view.w as int, chart.w as int),
        r.y == clamp_axis(origin.y as int, view.h as int, chart.h as int),
{
    Pos { x: clamp_axis_exec(origin.x, view.w, chart.w), y: clamp_axis_exec(origin.y, view.h, chart.h) }
}

/// A view no larger than the chart ends up wholly on the chart, and correcting a
/// corrected origin changes nothing.
pub proof fn lemma_clamp_axis_on_chart(p: int, view: int, chart: int)
    requires
        0 <= view <= chart,
    ensures
        0 <= clamp_axis(p, view, chart),
        clamp_axis(p, view, chart) + view <= chart,
        clamp_axis(clamp_axis(p, view, chart), view, chart) == clamp_axis(p, view, chart),
{
}

/// The rectangle's center can be computed without overflow.
pub open spec fn center_fits(r: Rect) -> bool {
    &&& r.size.w <= i32::MAX
    &&& r.size.h <= i32::MAX
    &&& i32::MIN <= r.pos.x + r.size.w <= i32::MAX
    &&& i32::MIN <= r.pos.y + r.size.h <= i32::MAX
}

/// The view origin after the chart widget went from `prev` to `cur`: when the
/// widget's left edge stayed, the chart is kept centred (the origin moves by the
/// difference of the two centers); when it moved (the side panel was toggled), the
/// origin follows the edge.
pub open spec fn spec_resized_origin(origin: Pos, prev: Rect, cur: Rect) -> (int, int) {
    if cur.pos.x == prev.pos.x {
        (
            origin.x + half_toward_zero(prev.pos.x + prev.size.w) - half_toward_zero(
                cur.pos.x + cur.size.w,
            ),
            origin.y + half_toward_zero(prev.pos.y + prev.size.h) - half_toward_zero(
                cur.pos.y + cur.size.h,
            ),
        )
    } else {
        (origin.x + (cur.pos.x - prev.pos.x), origin.y as int)
    }
}

/// The view origin after the chart widget went from `prev` to `cur`, as
/// `spec_resized_origin` says; every step must stay in range.
pub fn resized_origin(origin: Pos, prev: Rect, cur: Rect) -> (r: Pos)
    requires
        center_fits(prev),
        center_fits(cur),
        cur.pos.x == prev.pos.x ==> {
            &&& i32::MIN <= origin.x + half_toward_zero(prev.pos.x + prev.size.w) <= i32::MAX
            &&& i32::MIN <= origin.y + half_toward_zero(prev.pos.y + prev.size.h) <= i32::MAX
            &&& i32::MIN <= spec_resized_origin(origin, prev, cur).0 <= i32::MAX
            &&& i32::MIN <= spec_resized_origin(origin, prev, cur).1 <= i32::MAX
        },
        cur.pos.x != prev.pos.x ==> {
            &&& i32::MIN <= cur.pos.x - prev.pos.x <= i32::MAX
            &&& i32::MIN <= spec_resized_origin(origin, prev, cur).0 <= i32::MAX
        },
    ensures
        r.x == spec_resized_origin(origin, prev, cur).0,
        r.y == spec_resized_origin(origin, prev, cur).1,
{
    if cur.pos.x == prev.pos.x {
        origin.add(prev.center()).sub(cur.center())
    } else {
        origin.add(Pos::new(cur.pos.x - prev.pos.x, 0))
    }
}

} // verus!
