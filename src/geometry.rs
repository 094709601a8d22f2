use vstd::prelude::*;

verus! {

/// Every coordinate of the plane lies within `-FIELD_LIMIT ..= FIELD_LIMIT`
/// (micro-pixels), which leaves room to widen any point by a trail's
/// thickness without leaving `i64`.
pub const FIELD_LIMIT: i64 = 1_000_000_000_000_000_000;

/// The largest half-thickness a trail may be drawn with.
pub const MAX_HALF_THICKNESS: i64 = 1_000_000_000_000_000_000;

pub open spec fn in_field(v: int) -> bool {
    -FIELD_LIMIT <= v <= FIELD_LIMIT
}

/// A rectangle given by two opposite corners.
#[derive(Clone, Copy, Debug, PartialEq, Eq, Structural)]
pub struct Rect {
    pub x0: i64,
    pub y0: i64,
    pub x1: i64,
    pub y1: i64,
}

/// The mathematical value of a `Rect`.
pub struct Corners {
    pub x0: int,
    pub y0: int,
    pub x1: int,
    pub y1: int,
}

impl View for Rect {
    type V = Corners;

    open spec fn view(&self) -> Corners {
        Corners { x0: self.x0 as int, y0: self.y0 as int, x1: self.x1 as int, y1: self.y1 as int }
    }
}

/// The outward shift of the first corner along one axis: positive when
/// `a <= b`, negative otherwise, so that the widened pair still encloses the
/// segment between `a` and `b`.
pub open spec fn shift(a: int, b: int, half: int) -> int {
    if a > b {
        -half
    } else {
        half
    }
}

/// The rectangle that widens the segment from `(ax, ay)` to `(bx, by)` by
/// `half` on each side: the first corner moves outward by `half` on both
/// axes, away from the second one, and the second one away from the first.
pub open spec fn widened(ax: int, ay: int, bx: int, by: int, half: int) -> Corners {
    Corners {
        x0: ax - shift(ax, bx, half),
        y0: ay - shift(ay, by, half),
        x1: bx + shift(ax, bx, half),
        y1: by + shift(ay, by, half),
    }
}

/// The rectangle of one trail segment, from `corner1` to `corner2`,
/// widened by `half` on every side.
pub fn get_rect(corner1: (i64, i64), corner2: (i64, i64), half: i64) -> (r: Rect)
    requires
        in_field(corner1.0 as int),
        in_field(corner1.1 as int),
        in_field(corner2.0 as int),
        in_field(corner2.1 as int),
        0 <= half <= MAX_HALF_THICKNESS,
    ensures
        r@ == widened(corner1.0 as int, corner1.1 as int, corner2.0 as int, corner2.1 as int, half as int),
{
    let sx: i64 = if corner1.0 > corner2.0 {
        -half
    } else {
        half
    };
    let sy: i64 = if corner1.1 > corner2.1 {
        -half
    } else {
        half
    };
    Rect { x0: corner1.0 - sx, y0: corner1.1 - sy, x1: corner2.0 + sx, y1: corner2.1 + sy }
}

/// The trail that leads back from a cursor at `(x, y)`, travelling
/// horizontally or not, through the bend values `bends`, taken from the last
/// one back to the first.
///
/// A bend value is the coordinate at which the path turned on the axis of
/// travel just before the turn: behind a horizontal cursor the previous
/// corner is `(p, y)`, behind a vertical one `(x, p)`, and the segment
/// before that runs along the other axis.
pub open spec fn trail_from(x: int, y: int, horizontal: bool, bends: Seq<int>, half: int) -> Seq<Corners>
    decreases bends.len(),
{
    if bends.len() == 0 {
        seq![]
    } else {
        let p = bends.last();
        let (nx, ny) = if horizontal {
            (p, y)
        } else {
            (x, p)
        };
        seq![widened(x, y, nx, ny, half)] + trail_from(nx, ny, !horizontal, bends.drop_last(), half)
    }
}

/// The views of a sequence of rectangles.
pub open spec fn views(rects: Seq<Rect>) -> Seq<Corners> {
    rects.map_values(|r: Rect| r@)
}

/// The trail holds one rectangle per bend.
pub proof fn lemma_trail_len(x: int, y: int, horizontal: bool, bends: Seq<int>, half: int)
    ensures
        trail_from(x, y, horizontal, bends, half).len() == bends.len(),
    decreases bends.len(),
{
    if bends.len() > 0 {
        let p = bends.last();
        let (nx, ny) = if horizontal {
            (p, y)
        } else {
            (x, p)
        };
        lemma_trail_len(nx, ny, !horizontal, bends.drop_last(), half);
    }
}

/// Builds the trail behind a cursor at `(x, y)`, most recent segment first:
/// one rectangle per bend, each widened by `half`.
pub fn build_trail(x: i64, y: i64, horizontal: bool, bends: &Vec<i64>, half: i64) -> (r: Vec<Rect>)
    requires
        in_field(x as int),
        in_field(y as int),
        forall|i: int| 0 <= i < bends@.len() ==> in_field(#[trigger] bends@[i] as int),
        0 <= half <= MAX_HALF_THICKNESS,
    ensures
        views(r@) == trail_from(x as int, y as int, horizontal, bends@.map_values(|b: i64| b as int), half as int),
        r@.len() == bends@.len(),
{
    let ghost all = bends@.map_values(|b: i64| b as int);
    let mut out: Vec<Rect> = Vec::new();
    let mut cx: i64 = x;
    let mut cy: i64 = y;
    let mut h: bool = horizontal;
    let mut i: usize = bends.len();
    proof {
        assert(all.subrange(0, i as int) =~= all);
    }
    while i > 0
        invariant
            i <= bends@.len(),
            all == bends@.map_values(|b: i64| b as int),
            in_field(cx as int),
            in_field(cy as int),
            forall|k: int| 0 <= k < bends@.len() ==> in_field(#[trigger] bends@[k] as int),
            0 <= half <= MAX_HALF_THICKNESS,
            out@.len() + i == bends@.len(),
            views(out@) + trail_from(cx as int, cy as int, h, all.subrange(0, i as int), half as int)
                == trail_from(x as int, y as int, horizontal, all, half as int),
        decreases i,
    {
        let p = bends[i - 1];
        let (nx, ny) = if h {
            (p, cy)
        } else {
            (cx, p)
        };
        let rect = get_rect((cx, cy), (nx, ny), half);
        proof {
            let pre = all.subrange(0, i as int);
            assert(pre.last() == p as int);
            assert(pre.drop_last() =~= all.subrange(0, i - 1));
            let tail = trail_from(nx as int, ny as int, !h, all.subrange(0, i - 1), half as int);
            assert(trail_from(cx as int, cy as int, h, pre, half as int) == seq![rect@] + tail);
            assert(views(out@.push(rect)) =~= views(out@).push(rect@));
            assert(views(out@) + (seq![rect@] + tail) =~= views(out@).push(rect@) + tail);
        }
        out.push(rect);
        cx = nx;
        cy = ny;
        h = !h;
        i = i - 1;
    }
    proof {
        assert(all.subrange(0, 0) =~= Seq::<int>::empty());
        assert(views(out@) =~= views(out@) + Seq::<Corners>::empty());
    }
    out
}

} // verus!
