//! Rectangles in raw buffer coordinates and their exact subtraction.

use vstd::prelude::*;

verus! {

/// Position of a pixel.
#[derive(Clone, Copy, Debug, PartialEq, Eq, Structural)]
pub struct Point {
    pub x: i32,
    pub y: i32,
}

/// Extent in pixels. Nonpositive extents describe nothing.
#[derive(Clone, Copy, Debug, PartialEq, Eq, Structural)]
pub struct Size {
    pub w: i32,
    pub h: i32,
}

/// Half-open rectangle: `loc` is inside, `loc + size` is not.
#[derive(Clone, Copy, Debug, PartialEq, Eq, Structural)]
pub struct Rectangle {
    pub loc: Point,
    pub size: Size,
}

impl Rectangle {
    /// First column right of the rectangle.
    pub open spec fn right(self) -> int {
        self.loc.x + self.size.w
    }

    /// First row below the rectangle.
    pub open spec fn bottom(self) -> int {
        self.loc.y + self.size.h
    }

    /// Whether the pixel `(x, y)` is inside.
    pub open spec fn covers(self, x: int, y: int) -> bool {
        self.loc.x <= x < self.right() && self.loc.y <= y < self.bottom()
    }

    /// Whether any pixel is inside.
    pub open spec fn nonempty(self) -> bool {
        self.size.w > 0 && self.size.h > 0
    }

    /// Nonempty, with edges that are coordinates themselves.
    pub open spec fn wf(self) -> bool {
        self.nonempty() && self.right() <= i32::MAX && self.bottom() <= i32::MAX
    }

    /// Nonempty and inside a buffer of the given size.
    pub open spec fn within(self, size: Size) -> bool {
        &&& self.nonempty()
        &&& 0 <= self.loc.x && self.right() <= size.w
        &&& 0 <= self.loc.y && self.bottom() <= size.h
    }

    /// Rectangle at `loc`.
    pub fn new(loc: Point, size: Size) -> (rect: Rectangle)
        ensures
            rect == (Rectangle { loc, size }),
    {
        Rectangle { loc, size }
    }

    /// Rectangle at the origin.
    pub fn from_size(size: Size) -> (rect: Rectangle)
        ensures
            rect == (Rectangle { loc: Point { x: 0, y: 0 }, size }),
    {
        Rectangle { loc: Point { x: 0, y: 0 }, size }
    }

    /// The pixels inside both rectangles, or `None` if there are none.
    pub fn intersection(self, other: Rectangle) -> (common: Option<Rectangle>)
        ensures
            common == intersect(self, other),
    {
        let x: i32 = if self.loc.x > other.loc.x { self.loc.x } else { other.loc.x };
        let y: i32 = if self.loc.y > other.loc.y { self.loc.y } else { other.loc.y };
        let right_a: i64 = self.loc.x as i64 + self.size.w as i64;
        let right_b: i64 = other.loc.x as i64 + other.size.w as i64;
        let bottom_a: i64 = self.loc.y as i64 + self.size.h as i64;
        let bottom_b: i64 = other.loc.y as i64 + other.size.h as i64;
        let right: i64 = if right_a < right_b { right_a } else { right_b };
        let bottom: i64 = if bottom_a < bottom_b { bottom_a } else { bottom_b };
        if x as i64 >= right || y as i64 >= bottom {
            return None;
        }
        Some(
            Rectangle {
                loc: Point { x, y },
                size: Size { w: (right - x as i64) as i32, h: (bottom - y as i64) as i32 },
            },
        )
    }

    /// Removes every pixel of `others` from `rects`. What is left of a rectangle is listed behind
    /// the untouched ones, as full-width bands above and below and the parts beside the removed
    /// area.
    pub fn subtract_rects_many_in_place(
        rects: Vec<Rectangle>,
        others: &Vec<Rectangle>,
    ) -> (rest: Vec<Rectangle>)
        requires
            forall|i: int| 0 <= i < rects@.len() ==> (#[trigger] rects@[i]).wf(),
        ensures
            rest@ == subtract_all(rects@, others@, others@.len() as int),
            forall|i: int| 0 <= i < rest@.len() ==> (#[trigger] rest@[i]).wf(),
    {
        let ghost start = rects@;
        let mut rest = rects;
        let mut i: usize = 0;
        while i < others.len()
            invariant
                i <= others@.len(),
                rest@ == subtract_all(start, others@, i as int),
                forall|j: int| 0 <= j < rest@.len() ==> (#[trigger] rest@[j]).wf(),
            decreases others@.len() - i,
        {
            rest = subtract_rect(&rest, others[i]);
            i += 1;
        }
        rest
    }
}

/// The pixels inside both `a` and `b`.
pub open spec fn intersect(a: Rectangle, b: Rectangle) -> Option<Rectangle> {
    let x = if a.loc.x > b.loc.x { a.loc.x } else { b.loc.x };
    let y = if a.loc.y > b.loc.y { a.loc.y } else { b.loc.y };
    let right = if a.right() < b.right() { a.right() } else { b.right() };
    let bottom = if a.bottom() < b.bottom() { a.bottom() } else { b.bottom() };
    if x < right && y < bottom {
        Some(
            Rectangle {
                loc: Point { x, y },
                size: Size { w: (right - x) as i32, h: (bottom - y) as i32 },
            },
        )
    } else {
        None
    }
}

/// Rectangle between two corners.
pub open spec fn spanning(left: int, top: int, right: int, bottom: int) -> Rectangle {
    Rectangle {
        loc: Point { x: left as i32, y: top as i32 },
        size: Size { w: (right - left) as i32, h: (bottom - top) as i32 },
    }
}

/// A list with `rect` alone, or nothing if it is empty.
pub open spec fn if_nonempty(rect: Rectangle) -> Seq<Rectangle> {
    if rect.nonempty() {
        seq![rect]
    } else {
        seq![]
    }
}

/// What is left of `item` without `hole`, a rectangle inside it: the band above, the parts left
/// and right, the band below.
pub open spec fn pieces(item: Rectangle, hole: Rectangle) -> Seq<Rectangle> {
    if_nonempty(spanning(item.loc.x as int, item.loc.y as int, item.right(), hole.loc.y as int))
        + if_nonempty(
        spanning(item.loc.x as int, hole.loc.y as int, hole.loc.x as int, hole.bottom()),
    ) + if_nonempty(spanning(hole.right(), hole.loc.y as int, item.right(), hole.bottom()))
        + if_nonempty(spanning(item.loc.x as int, hole.bottom(), item.right(), item.bottom()))
}

/// The first `n` rectangles that share no pixel with `other`.
pub open spec fn untouched(rects: Seq<Rectangle>, other: Rectangle, n: int) -> Seq<Rectangle>
    decreases n,
{
    if n <= 0 {
        seq![]
    } else if intersect(rects[n - 1], other) is None {
        untouched(rects, other, n - 1).push(rects[n - 1])
    } else {
        untouched(rects, other, n - 1)
    }
}

/// What is left, without `other`, of those among the first `n` rectangles that it touches.
pub open spec fn leftovers(rects: Seq<Rectangle>, other: Rectangle, n: int) -> Seq<Rectangle>
    decreases n,
{
    if n <= 0 {
        seq![]
    } else {
        match intersect(rects[n - 1], other) {
            Some(hole) => leftovers(rects, other, n - 1) + pieces(rects[n - 1], hole),
            None => leftovers(rects, other, n - 1),
        }
    }
}

/// `rects` without the pixels of `other`.
pub open spec fn subtract_one(rects: Seq<Rectangle>, other: Rectangle) -> Seq<Rectangle> {
    untouched(rects, other, rects.len() as int) + leftovers(rects, other, rects.len() as int)
}

/// `rects` without the pixels of the first `n` of `others`.
pub open spec fn subtract_all(rects: Seq<Rectangle>, others: Seq<Rectangle>, n: int) -> Seq<
    Rectangle,
>
    decreases n,
{
    if n <= 0 {
        rects
    } else {
        subtract_one(subtract_all(rects, others, n - 1), others[n - 1])
    }
}

fn push_nonempty(rects: &mut Vec<Rectangle>, rect: Rectangle)
    ensures
        final(rects)@ == old(rects)@ + if_nonempty(rect),
{
    if rect.size.w > 0 && rect.size.h > 0 {
        rects.push(rect);
    }
    assert(rects@ =~= old(rects)@ + if_nonempty(rect));
}

fn push_pieces(rects: &mut Vec<Rectangle>, item: Rectangle, hole: Rectangle)
    requires
        item.wf(),
        hole.nonempty(),
        item.loc.x <= hole.loc.x,
        item.loc.y <= hole.loc.y,
        hole.right() <= item.right(),
        hole.bottom() <= item.bottom(),
    ensures
        final(rects)@ == old(rects)@ + pieces(item, hole),
{
    let right: i32 = hole.loc.x + hole.size.w;
    let bottom: i32 = hole.loc.y + hole.size.h;
    let ghost start = rects@;
    push_nonempty(
        rects,
        Rectangle {
            loc: item.loc,
            size: Size { w: item.size.w, h: hole.loc.y - item.loc.y },
        },
    );
    push_nonempty(
        rects,
        Rectangle {
            loc: Point { x: item.loc.x, y: hole.loc.y },
            size: Size { w: hole.loc.x - item.loc.x, h: hole.size.h },
        },
    );
    push_nonempty(
        rects,
        Rectangle {
            loc: Point { x: right, y: hole.loc.y },
            size: Size { w: item.loc.x + item.size.w - right, h: hole.size.h },
        },
    );
    push_nonempty(
        rects,
        Rectangle {
            loc: Point { x: item.loc.x, y: bottom },
            size: Size { w: item.size.w, h: item.loc.y + item.size.h - bottom },
        },
    );
    assert(rects@ =~= start + pieces(item, hole));
}

fn subtract_rect(rects: &Vec<Rectangle>, other: Rectangle) -> (rest: Vec<Rectangle>)
    requires
        forall|i: int| 0 <= i < rects@.len() ==> (#[trigger] rects@[i]).wf(),
    ensures
        rest@ == subtract_one(rects@, other),
        forall|i: int| 0 <= i < rest@.len() ==> (#[trigger] rest@[i]).wf(),
{
    let mut kept: Vec<Rectangle> = Vec::new();
    let mut split: Vec<Rectangle> = Vec::new();
    let mut i: usize = 0;
    while i < rects.len()
        invariant
            i <= rects@.len(),
            forall|j: int| 0 <= j < rects@.len() ==> (#[trigger] rects@[j]).wf(),
            kept@ == untouched(rects@, other, i as int),
            split@ == leftovers(rects@, other, i as int),
            forall|j: int| 0 <= j < kept@.len() ==> (#[trigger] kept@[j]).wf(),
            forall|j: int| 0 <= j < split@.len() ==> (#[trigger] split@[j]).wf(),
        decreases rects@.len() - i,
    {
        let item: Rectangle = rects[i];
        match item.intersection(other) {
            Some(hole) => {
                push_pieces(&mut split, item, hole);
            },
            None => {
                kept.push(item);
            },
        }
        i += 1;
    }
    kept.append(&mut split);
    kept
}

/// An intersection has exactly the pixels that are inside both rectangles, and is there exactly if
/// they share one.
pub proof fn intersections_are_the_common_pixels(a: Rectangle, b: Rectangle, x: int, y: int)
    ensures
        intersect(a, b) is None ==> !(a.covers(x, y) && b.covers(x, y)),
        a.nonempty() && b.nonempty() ==> (intersect(a, b) matches Some(common) ==> {
            &&& common.size.w > 0 && common.size.h > 0
            &&& common.covers(x, y) <==> a.covers(x, y) && b.covers(x, y)
        }),
{
}

/// A pixel is inside a rectangle exactly if it is at or behind its first column and row and before
/// its end; a rectangle is inside a buffer exactly if it has a pixel and all its pixels are in the
/// buffer.
pub proof fn rectangles_are_half_open(rect: Rectangle, size: Size, x: int, y: int)
    ensures
        rect.covers(x, y) <==> 0 <= x - rect.loc.x < rect.size.w && 0 <= y - rect.loc.y
            < rect.size.h,
        rect.nonempty() <==> rect.covers(rect.loc.x as int, rect.loc.y as int),
        rect.within(size) ==> (rect.covers(x, y) ==> 0 <= x < size.w && 0 <= y < size.h),
        rect.nonempty() && !rect.within(size) ==> {
            let last_x = rect.loc.x + rect.size.w - 1;
            let last_y = rect.loc.y + rect.size.h - 1;
            &&& rect.covers(last_x, last_y)
            &&& rect.loc.x < 0 || rect.loc.y < 0 || last_x >= size.w || last_y >= size.h
        },
        rect.within(size) ==> rect.nonempty(),
{
}

/// A hole strictly inside a rectangle leaves four parts: the full-width band above it, the parts
/// left and right of it, and the full-width band below it, in that order.
pub proof fn holes_leave_bands(item: Rectangle, hole: Rectangle)
    requires
        item.wf(),
        hole.wf(),
        item.loc.x < hole.loc.x,
        item.loc.y < hole.loc.y,
        hole.right() < item.right(),
        hole.bottom() < item.bottom(),
    ensures
        ({
            let parts = pieces(item, hole);
            &&& parts.len() == 4
            &&& parts[0].loc == item.loc
            &&& parts[0].size.w == item.size.w
            &&& parts[0].size.h == hole.loc.y - item.loc.y
            &&& parts[1].loc.x == item.loc.x
            &&& parts[1].loc.y == hole.loc.y
            &&& parts[1].size.w == hole.loc.x - item.loc.x
            &&& parts[1].size.h == hole.size.h
            &&& parts[2].loc.x == hole.loc.x + hole.size.w
            &&& parts[2].loc.y == hole.loc.y
            &&& parts[2].size.w == item.loc.x + item.size.w - hole.loc.x - hole.size.w
            &&& parts[2].size.h == hole.size.h
            &&& parts[3].loc.x == item.loc.x
            &&& parts[3].loc.y == hole.loc.y + hole.size.h
            &&& parts[3].size.w == item.size.w
            &&& parts[3].size.h == item.loc.y + item.size.h - hole.loc.y - hole.size.h
        }),
{
}

/// Removing a rectangle lists what it does not touch first, as it is, and then what is left of the
/// others, in their order.
pub proof fn leftovers_come_last(a: Rectangle, b: Rectangle, other: Rectangle)
    ensures
        subtract_one(seq![], other).len() == 0,
        ({
            let rest = subtract_one(seq![a, b], other);
            match (intersect(a, other), intersect(b, other)) {
                (None, None) => rest == seq![a, b],
                (Some(hole), None) => rest == seq![b] + pieces(a, hole),
                (None, Some(hole)) => rest == seq![a] + pieces(b, hole),
                (Some(first), Some(second)) => rest == pieces(a, first) + pieces(b, second),
            }
        }),
{
    reveal_with_fuel(untouched, 3);
    reveal_with_fuel(leftovers, 3);
    let rest = subtract_one(seq![a, b], other);
    match (intersect(a, other), intersect(b, other)) {
        (None, None) => {
            assert(rest =~= seq![a, b]);
        },
        (Some(hole), None) => {
            assert(rest =~= seq![b] + pieces(a, hole));
        },
        (None, Some(hole)) => {
            assert(rest =~= seq![a] + pieces(b, hole));
        },
        (Some(first), Some(second)) => {
            assert(rest =~= pieces(a, first) + pieces(b, second));
        },
    }
}

} // verus!
