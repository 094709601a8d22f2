use vstd::prelude::*;

use crate::direction::Direction;
use crate::geometry::{in_field, lemma_trail_len};
use crate::motion::{Motion, HALF_THICKNESS};

verus! {

/// A tick and a turn request keep every coordinate in the field.
pub proof fn lemma_steps_keep_wf(m: Motion, dt: nat, to: Direction)
    requires
        m.wf(),
    ensures
        m.advanced(dt).wf(),
        m.turned(to).wf(),
{
    let t = m.turned(to);
    if m.dir.is_perpendicular(to) {
        assert forall|i: int| 0 <= i < t.bends.len() implies in_field(#[trigger] t.bends[i]) by {
            if i < m.bends.len() {
                assert(t.bends[i] == m.bends[i]);
            }
        }
    }
}

/// A request that is not perpendicular to the current direction (the same
/// direction or its opposite) changes nothing, and repeating a request
/// changes nothing more.
pub proof fn lemma_parallel_turn_is_noop(m: Motion, to: Direction)
    ensures
        !m.dir.is_perpendicular(to) ==> m.turned(to) == m,
        m.turned(to).turned(to) == m.turned(to),
{
}

/// Over any series of turn requests the bend history is only appended to,
/// and it grows by exactly the number of requests that were perpendicular
/// to the direction of the moment.
pub proof fn lemma_bends_grow_only_on_turns(m: Motion, requests: Seq<Direction>)
    ensures
        m.turned_all(requests).dir == m.dir.after(requests),
        m.turned_all(requests).bends.len() == m.bends.len() + m.dir.turns_taken(requests),
        m.turned_all(requests).bends.subrange(0, m.bends.len() as int) == m.bends,
    decreases requests.len(),
{
    if requests.len() > 0 {
        let prev = requests.drop_last();
        lemma_bends_grow_only_on_turns(m, prev);
        let before = m.turned_all(prev);
        let after = before.turned(requests.last());
        if before.dir.is_perpendicular(requests.last()) {
            assert(after.bends.subrange(0, m.bends.len() as int)
                =~= before.bends.subrange(0, m.bends.len() as int));
        }
    } else {
        assert(m.bends.subrange(0, m.bends.len() as int) =~= m.bends);
    }
}

/// A perpendicular turn records the coordinate that stayed fixed on the way
/// to it: `y` after horizontal travel, `x` after vertical travel.
pub proof fn lemma_turn_records_frozen_coordinate(m: Motion, to: Direction)
    requires
        m.dir.is_perpendicular(to),
    ensures
        m.turned(to).dir == to,
        m.turned(to).bends.len() == m.bends.len() + 1,
        m.turned(to).bends.last() == if m.dir.is_horizontal() {
            m.y
        } else {
            m.x
        },
        m.turned(to).x == m.x,
        m.turned(to).y == m.y,
{
}

/// Over any series of ticks in a well-formed state, the position moves only
/// along the axis of the current direction, never backwards; the other
/// coordinate, the direction and the bends stay as they were.
pub proof fn lemma_ticks_move_along_one_axis(m: Motion, ticks: Seq<nat>)
    requires
        m.wf(),
    ensures
        m.advanced_all(ticks).wf(),
        m.advanced_all(ticks).dir == m.dir,
        m.advanced_all(ticks).bends == m.bends,
        m.dir == Direction::Right ==> m.advanced_all(ticks).x >= m.x && m.advanced_all(ticks).y == m.y,
        m.dir == Direction::Left ==> m.advanced_all(ticks).x <= m.x && m.advanced_all(ticks).y == m.y,
        m.dir == Direction::Down ==> m.advanced_all(ticks).y >= m.y && m.advanced_all(ticks).x == m.x,
        m.dir == Direction::Up ==> m.advanced_all(ticks).y <= m.y && m.advanced_all(ticks).x == m.x,
    decreases ticks.len(),
{
    if ticks.len() > 0 {
        let prev = ticks.drop_last();
        lemma_ticks_move_along_one_axis(m, prev);
        let before = m.advanced_all(prev);
        lemma_steps_keep_wf(before, ticks.last(), m.dir);
    }
}

/// The trail of any state holds exactly one rectangle per recorded bend.
pub proof fn lemma_trail_len_is_bend_count(m: Motion)
    ensures
        m.trail().len() == m.bends.len(),
{
    lemma_trail_len(m.x, m.y, m.dir.is_horizontal(), m.bends, HALF_THICKNESS as int);
}

} // verus!
