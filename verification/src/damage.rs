//! Damage of a direct write, as an exact, clipped, disjoint union.

use crate::geometry::{
    if_nonempty, intersect, leftovers, pieces, spanning, subtract_all, subtract_one, untouched,
    Point, Rectangle, Size,
};
use vstd::prelude::*;

verus! {

/// Number of rectangles that cover the pixel `(x, y)`.
pub open spec fn hits(rects: Seq<Rectangle>, x: int, y: int) -> nat
    decreases rects.len(),
{
    if rects.len() == 0 {
        0
    } else {
        hits(rects.drop_last(), x, y) + if rects.last().covers(x, y) { 1nat } else { 0 }
    }
}

/// Whether one of the rectangles covers the pixel `(x, y)`.
pub open spec fn damaged(damage: Seq<Rectangle>, x: int, y: int) -> bool {
    exists|i: int| 0 <= i < damage.len() && (#[trigger] damage[i]).covers(x, y)
}

/// Whether the pixel `(x, y)` exists in a buffer of the given size.
pub open spec fn in_bounds(size: Size, x: int, y: int) -> bool {
    0 <= x < size.w && 0 <= y < size.h
}

/// The part of `rect` inside a buffer of the given size.
pub open spec fn clip(rect: Rectangle, size: Size) -> Option<Rectangle> {
    if rect.nonempty() && size.w > 0 && size.h > 0 {
        intersect(rect, Rectangle { loc: Point { x: 0, y: 0 }, size })
    } else {
        None
    }
}

/// Regions of the first `n` damage rectangles: each one clipped, without what came before it.
pub open spec fn damage_regions(damage: Seq<Rectangle>, size: Size, n: int) -> Seq<Rectangle>
    decreases n,
{
    if n <= 0 {
        seq![]
    } else {
        let earlier = damage_regions(damage, size, n - 1);
        match clip(damage[n - 1], size) {
            Some(clipped) => earlier + subtract_all(seq![clipped], earlier, earlier.len() as int),
            None => earlier,
        }
    }
}

/// A direct write must not enlarge damage: the shared staging allocation is valid only
/// inside these regions. Make an exact, clipped, disjoint union instead of the CPU path's
/// bounding-box merges/full-frame shortcut. Disjoint regions also avoid overlapping writes.
pub fn direct_damage(damage: &Vec<Rectangle>, size: Size) -> (regions: Vec<Rectangle>)
    ensures
        regions@ == damage_regions(damage@, size, damage@.len() as int),
        forall|x: int, y: int|
            #[trigger] hits(regions@, x, y) == if in_bounds(size, x, y) && damaged(damage@, x, y) {
                1nat
            } else {
                0
            },
        forall|i: int| 0 <= i < regions@.len() ==> (#[trigger] regions@[i]).within(size),
{
    let mut regions: Vec<Rectangle> = Vec::new();
    let mut i: usize = 0;
    while i < damage.len()
        invariant
            i <= damage@.len(),
            regions@ == damage_regions(damage@, size, i as int),
            forall|j: int| 0 <= j < regions@.len() ==> (#[trigger] regions@[j]).within(size),
        decreases damage@.len() - i,
    {
        let rect: Rectangle = damage[i];
        if rect.size.w > 0 && rect.size.h > 0 && size.w > 0 && size.h > 0 {
            if let Some(clipped) = rect.intersection(Rectangle::from_size(size)) {
                let ghost earlier = regions@;
                let single: Vec<Rectangle> = vec![clipped];
                assert(single@ =~= seq![clipped]);
                let mut uncovered = Rectangle::subtract_rects_many_in_place(single, &regions);
                proof {
                    lemma_subtract_all_within(
                        seq![clipped],
                        earlier,
                        earlier.len() as int,
                        size,
                    );
                }
                regions.append(&mut uncovered);
            }
        }
        i += 1;
    }
    proof {
        assert forall|x: int, y: int|
            #[trigger] hits(regions@, x, y) == if in_bounds(size, x, y) && damaged(
                damage@,
                x,
                y,
            ) {
                1nat
            } else {
                0
            } by {
            direct_damage_is_exact(damage@, size, damage@.len() as int, x, y);
            assert(damage@.take(damage@.len() as int) =~= damage@);
        }
    }
    regions
}

proof fn lemma_hits_push(rects: Seq<Rectangle>, rect: Rectangle, x: int, y: int)
    ensures
        hits(rects.push(rect), x, y) == hits(rects, x, y) + (if rect.covers(x, y) {
            1nat
        } else {
            0
        }),
{
    assert(rects.push(rect).drop_last() =~= rects);
}

proof fn lemma_hits_add(a: Seq<Rectangle>, b: Seq<Rectangle>, x: int, y: int)
    ensures
        hits(a + b, x, y) == hits(a, x, y) + hits(b, x, y),
    decreases b.len(),
{
    if b.len() == 0 {
        assert(a + b =~= a);
    } else {
        lemma_hits_add(a, b.drop_last(), x, y);
        assert((a + b).drop_last() =~= a + b.drop_last());
    }
}

proof fn lemma_hits_if_nonempty(rect: Rectangle, x: int, y: int)
    ensures
        hits(if_nonempty(rect), x, y) == (if rect.covers(x, y) {
            1nat
        } else {
            0
        }),
{
    assert(if_nonempty(rect) =~= if rect.nonempty() {
        Seq::<Rectangle>::empty().push(rect)
    } else {
        Seq::<Rectangle>::empty()
    });
    lemma_hits_push(Seq::<Rectangle>::empty(), rect, x, y);
}

/// Cutting a hole out of a rectangle leaves every other pixel covered exactly once.
pub proof fn pieces_are_exact(item: Rectangle, other: Rectangle, x: int, y: int)
    requires
        item.wf(),
        intersect(item, other) is Some,
    ensures
        hits(pieces(item, intersect(item, other)->0), x, y) == (if item.covers(x, y)
            && !other.covers(x, y) {
            1nat
        } else {
            0
        }),
{
    let hole = intersect(item, other)->0;
    let top = spanning(item.loc.x as int, item.loc.y as int, item.right(), hole.loc.y as int);
    let left = spanning(item.loc.x as int, hole.loc.y as int, hole.loc.x as int, hole.bottom());
    let right = spanning(hole.right(), hole.loc.y as int, item.right(), hole.bottom());
    let bottom = spanning(item.loc.x as int, hole.bottom(), item.right(), item.bottom());
    lemma_hits_if_nonempty(top, x, y);
    lemma_hits_if_nonempty(left, x, y);
    lemma_hits_if_nonempty(right, x, y);
    lemma_hits_if_nonempty(bottom, x, y);
    lemma_hits_add(if_nonempty(top), if_nonempty(left), x, y);
    lemma_hits_add(if_nonempty(top) + if_nonempty(left), if_nonempty(right), x, y);
    lemma_hits_add(
        if_nonempty(top) + if_nonempty(left) + if_nonempty(right),
        if_nonempty(bottom),
        x,
        y,
    );
}

proof fn lemma_parts(rects: Seq<Rectangle>, other: Rectangle, n: int, x: int, y: int)
    requires
        0 <= n <= rects.len(),
        forall|i: int| 0 <= i < rects.len() ==> (#[trigger] rects[i]).wf(),
    ensures
        hits(untouched(rects, other, n), x, y) + hits(leftovers(rects, other, n), x, y) == (
        if other.covers(x, y) {
            0
        } else {
            hits(rects.take(n), x, y)
        }),
    decreases n,
{
    if n == 0 {
        assert(rects.take(0) =~= seq![]);
    } else {
        lemma_parts(rects, other, n - 1, x, y);
        let item = rects[n - 1];
        assert(rects.take(n) =~= rects.take(n - 1).push(item));
        lemma_hits_push(rects.take(n - 1), item, x, y);
        match intersect(item, other) {
            Some(hole) => {
                pieces_are_exact(item, other, x, y);
                lemma_hits_add(leftovers(rects, other, n - 1), pieces(item, hole), x, y);
            },
            None => {
                lemma_hits_push(untouched(rects, other, n - 1), item, x, y);
            },
        }
    }
}

/// Subtracting a rectangle removes its pixels and keeps every other pixel as often as before.
pub proof fn subtraction_is_exact(rects: Seq<Rectangle>, other: Rectangle, x: int, y: int)
    requires
        forall|i: int| 0 <= i < rects.len() ==> (#[trigger] rects[i]).wf(),
    ensures
        hits(subtract_one(rects, other), x, y) == (if other.covers(x, y) {
            0
        } else {
            hits(rects, x, y)
        }),
{
    let n = rects.len() as int;
    lemma_parts(rects, other, n, x, y);
    assert(rects.take(n) =~= rects);
    lemma_hits_add(untouched(rects, other, n), leftovers(rects, other, n), x, y);
}

proof fn lemma_parts_within(rects: Seq<Rectangle>, other: Rectangle, n: int, size: Size)
    requires
        0 <= n <= rects.len(),
        forall|i: int| 0 <= i < rects.len() ==> (#[trigger] rects[i]).within(size),
    ensures
        forall|i: int|
            0 <= i < untouched(rects, other, n).len() ==> (#[trigger] untouched(
                rects,
                other,
                n,
            )[i]).within(size),
        forall|i: int|
            0 <= i < leftovers(rects, other, n).len() ==> (#[trigger] leftovers(
                rects,
                other,
                n,
            )[i]).within(size),
    decreases n,
{
    if n > 0 {
        lemma_parts_within(rects, other, n - 1, size);
        let item = rects[n - 1];
        assert(item.within(size));
        let kept = untouched(rects, other, n - 1);
        let split = leftovers(rects, other, n - 1);
        assert forall|i: int| 0 <= i < untouched(rects, other, n).len() implies (
        #[trigger] untouched(rects, other, n)[i]).within(size) by {
            if i < kept.len() {
                assert(untouched(rects, other, n)[i] == kept[i]);
            }
        }
        assert forall|i: int| 0 <= i < leftovers(rects, other, n).len() implies (
        #[trigger] leftovers(rects, other, n)[i]).within(size) by {
            if i < split.len() {
                assert(leftovers(rects, other, n)[i] == split[i]);
            } else {
                let hole = intersect(item, other)->0;
                assert(leftovers(rects, other, n)[i] == pieces(item, hole)[i - split.len()]);
            }
        }
    }
}

proof fn lemma_subtract_all_within(
    rects: Seq<Rectangle>,
    others: Seq<Rectangle>,
    n: int,
    size: Size,
)
    requires
        forall|i: int| 0 <= i < rects.len() ==> (#[trigger] rects[i]).within(size),
    ensures
        forall|i: int|
            0 <= i < subtract_all(rects, others, n).len() ==> (#[trigger] subtract_all(
                rects,
                others,
                n,
            )[i]).within(size),
    decreases n,
{
    if n > 0 {
        lemma_subtract_all_within(rects, others, n - 1, size);
        let before = subtract_all(rects, others, n - 1);
        lemma_parts_within(before, others[n - 1], before.len() as int, size);
    }
}

proof fn lemma_no_hits(rects: Seq<Rectangle>, x: int, y: int)
    ensures
        hits(rects, x, y) == 0 <==> !damaged(rects, x, y),
    decreases rects.len(),
{
    if rects.len() > 0 {
        let rest = rects.drop_last();
        lemma_no_hits(rest, x, y);
        if damaged(rest, x, y) {
            let i = choose|i: int| 0 <= i < rest.len() && (#[trigger] rest[i]).covers(x, y);
            assert(rects[i].covers(x, y));
        }
        if rects.last().covers(x, y) {
            assert(rects[rects.len() - 1].covers(x, y));
        }
        if damaged(rects, x, y) && !rects.last().covers(x, y) {
            let i = choose|i: int| 0 <= i < rects.len() && (#[trigger] rects[i]).covers(x, y);
            assert(rest[i].covers(x, y));
        }
    }
}

proof fn lemma_subtract_all_exact(
    rects: Seq<Rectangle>,
    others: Seq<Rectangle>,
    n: int,
    size: Size,
    x: int,
    y: int,
)
    requires
        0 <= n <= others.len(),
        forall|i: int| 0 <= i < rects.len() ==> (#[trigger] rects[i]).within(size),
    ensures
        hits(subtract_all(rects, others, n), x, y) == (if damaged(others.take(n), x, y) {
            0
        } else {
            hits(rects, x, y)
        }),
    decreases n,
{
    if n > 0 {
        lemma_subtract_all_exact(rects, others, n - 1, size, x, y);
        lemma_subtract_all_within(rects, others, n - 1, size);
        let before = subtract_all(rects, others, n - 1);
        subtraction_is_exact(before, others[n - 1], x, y);
        let shorter = others.take(n - 1);
        let longer = others.take(n);
        if damaged(shorter, x, y) {
            let i = choose|i: int| 0 <= i < shorter.len() && (#[trigger] shorter[i]).covers(x, y);
            assert(longer[i].covers(x, y));
        }
        if others[n - 1].covers(x, y) {
            assert(longer[n - 1].covers(x, y));
        }
        if damaged(longer, x, y) && !others[n - 1].covers(x, y) {
            let i = choose|i: int| 0 <= i < longer.len() && (#[trigger] longer[i]).covers(x, y);
            assert(shorter[i].covers(x, y));
        }
    } else {
        assert(others.take(0) =~= seq![]);
    }
}

/// Direct damage is exact: a pixel is written once if it is inside the buffer and damaged, and not
/// at all otherwise. Every region is nonempty and inside the buffer.
pub proof fn direct_damage_is_exact(
    damage: Seq<Rectangle>,
    size: Size,
    n: int,
    x: int,
    y: int,
)
    requires
        0 <= n <= damage.len(),
    ensures
        hits(damage_regions(damage, size, n), x, y) == (if in_bounds(size, x, y) && damaged(
            damage.take(n),
            x,
            y,
        ) {
            1nat
        } else {
            0
        }),
        forall|i: int|
            0 <= i < damage_regions(damage, size, n).len() ==> (#[trigger] damage_regions(
                damage,
                size,
                n,
            )[i]).within(size),
    decreases n,
{
    if n > 0 {
        direct_damage_is_exact(damage, size, n - 1, x, y);
        let earlier = damage_regions(damage, size, n - 1);
        let rect = damage[n - 1];
        let shorter = damage.take(n - 1);
        let longer = damage.take(n);
        if damaged(shorter, x, y) {
            let i = choose|i: int| 0 <= i < shorter.len() && (#[trigger] shorter[i]).covers(x, y);
            assert(longer[i].covers(x, y));
        }
        if rect.covers(x, y) {
            assert(longer[n - 1].covers(x, y));
        }
        if damaged(longer, x, y) && !rect.covers(x, y) {
            let i = choose|i: int| 0 <= i < longer.len() && (#[trigger] longer[i]).covers(x, y);
            assert(shorter[i].covers(x, y));
        }
        if let Some(clipped) = clip(rect, size) {
            let single = seq![clipped];
            lemma_hits_push(Seq::<Rectangle>::empty(), clipped, x, y);
            assert(single =~= Seq::<Rectangle>::empty().push(clipped));
            lemma_subtract_all_exact(single, earlier, earlier.len() as int, size, x, y);
            lemma_subtract_all_within(single, earlier, earlier.len() as int, size);
            assert(earlier.take(earlier.len() as int) =~= earlier);
            lemma_no_hits(earlier, x, y);
            lemma_hits_add(
                earlier,
                subtract_all(single, earlier, earlier.len() as int),
                x,
                y,
            );
        }
    }
}

proof fn lemma_two_hits(rects: Seq<Rectangle>, i: int, j: int, x: int, y: int)
    requires
        0 <= i < j < rects.len(),
        rects[i].covers(x, y),
        rects[j].covers(x, y),
    ensures
        hits(rects, x, y) >= 2,
    decreases rects.len(),
{
    let rest = rects.drop_last();
    if j == rects.len() - 1 {
        lemma_no_hits(rest, x, y);
        assert(rest[i].covers(x, y));
    } else {
        lemma_two_hits(rest, i, j, x, y);
    }
}

/// Regions of direct damage never overlap.
pub proof fn direct_damage_is_disjoint(
    damage: Seq<Rectangle>,
    size: Size,
    i: int,
    j: int,
    x: int,
    y: int,
)
    requires
        0 <= i < j < damage_regions(damage, size, damage.len() as int).len(),
    ensures
        ({
            let regions = damage_regions(damage, size, damage.len() as int);
            !(regions[i].covers(x, y) && regions[j].covers(x, y))
        }),
{
    let regions = damage_regions(damage, size, damage.len() as int);
    direct_damage_is_exact(damage, size, damage.len() as int, x, y);
    if regions[i].covers(x, y) && regions[j].covers(x, y) {
        lemma_two_hits(regions, i, j, x, y);
    }
}

proof fn lemma_disjoint_is_kept(rect: Rectangle, others: Seq<Rectangle>, n: int)
    requires
        0 <= n <= others.len(),
        forall|i: int| 0 <= i < n ==> intersect(rect, #[trigger] others[i]) is None,
    ensures
        subtract_all(seq![rect], others, n) == seq![rect],
    decreases n,
{
    if n > 0 {
        lemma_disjoint_is_kept(rect, others, n - 1);
        let other = others[n - 1];
        let single = seq![rect];
        assert(intersect(rect, other) is None);
        reveal_with_fuel(untouched, 2);
        reveal_with_fuel(leftovers, 2);
        assert(subtract_one(single, other) =~= single);
    }
}

/// Tidy damage is copied as it is: rectangles inside the target that share no pixel are neither
/// split, merged nor reordered.
pub proof fn tidy_damage_is_kept(damage: Seq<Rectangle>, size: Size, n: int)
    requires
        0 <= n <= damage.len(),
        forall|i: int| 0 <= i < damage.len() ==> (#[trigger] damage[i]).within(size),
        forall|i: int, j: int|
            0 <= i < damage.len() && 0 <= j < damage.len() && i != j ==> intersect(
                #[trigger] damage[i],
                #[trigger] damage[j],
            ) is None,
    ensures
        damage_regions(damage, size, n) == damage.take(n),
    decreases n,
{
    if n > 0 {
        tidy_damage_is_kept(damage, size, n - 1);
        let rect = damage[n - 1];
        let earlier = damage.take(n - 1);
        assert(rect.within(size));
        assert(clip(rect, size) == Some(rect));
        assert forall|i: int| 0 <= i < n - 1 implies intersect(rect, #[trigger] earlier[i]) is None by {
            assert(earlier[i] == damage[i]);
        }
        lemma_disjoint_is_kept(rect, earlier, n - 1);
        assert(earlier + seq![rect] =~= damage.take(n));
    } else {
        assert(damage.take(0) =~= seq![]);
    }
}

} // verus!
