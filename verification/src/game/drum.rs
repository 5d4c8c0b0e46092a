//! The drum: six positions on a ring, turned one step at a time.

use vstd::prelude::*;

verus! {

/// The lowest position of the drum.
pub const FROM: u32 = 1;

/// The top of the drum. Positions are drawn below it; a turn from the
/// position just below it lands on it.
pub const TO: u32 = 6;

/// The positions a fresh game draws from: `FROM` up to, but not including, `TO`.
pub open spec fn drawn(position: int) -> bool {
    FROM <= position < TO
}

/// The positions the drum can ever show: `FROM` up to and including `TO`.
pub open spec fn on_ring(position: int) -> bool {
    FROM <= position <= TO
}

/// The position after one turn: one more, modulo `TO`, where a remainder of
/// zero stands for `TO` itself, so that no turn ever shows zero.
pub open spec fn next_position(position: int) -> int {
    let turned = (position + 1) % (TO as int);
    if turned == 0 {
        TO as int
    } else {
        turned
    }
}

/// The position after `turns` turns.
pub open spec fn position_after(position: int, turns: nat) -> int
    decreases turns,
{
    if turns == 0 {
        position
    } else {
        next_position(position_after(position, (turns - 1) as nat))
    }
}

/// Turns the drum by one position.
pub fn advance(position: u32) -> (next: u32)
    ensures
        next == next_position(position as int),
        FROM <= next <= TO,
{
    let wide: u64 = position as u64 + 1;
    let turned: u32 = (wide % (TO as u64)) as u32;
    if turned == 0 {
        TO
    } else {
        turned
    }
}

/// Turns the drum in place by one position.
pub fn rotate_drum(pos: &mut u32)
    ensures
        *final(pos) == next_position(*old(pos) as int),
        FROM <= *final(pos) <= TO,
{
    *pos = advance(*pos);
}

/// A turn never leaves the ring.
pub proof fn lemma_turn_stays_on_ring(position: int)
    requires
        on_ring(position),
    ensures
        on_ring(next_position(position)),
{
}

/// From every position below the last one that can be drawn, a turn moves one
/// up and stays among the positions that can be drawn.
pub proof fn lemma_turn_below_top(position: int)
    requires
        FROM <= position < TO - 1,
    ensures
        next_position(position) == position + 1,
        drawn(next_position(position)),
{
}

/// On the ring a turn moves one up, and from the top back to the bottom.
pub proof fn lemma_turn_on_ring(position: int)
    requires
        on_ring(position),
    ensures
        next_position(position) == if position == TO {
            FROM as int
        } else {
            position + 1
        },
{
}

/// Where the drum stands after any number of turns from a position of the
/// ring: that many places further round the six.
pub proof fn lemma_turns_count_round_the_ring(position: int, turns: nat)
    requires
        on_ring(position),
    ensures
        position_after(position, turns) == (position - 1 + turns) % (TO as int) + 1,
    decreases turns,
{
    if turns > 0 {
        lemma_turns_count_round_the_ring(position, (turns - 1) as nat);
    }
}

/// Six turns from any position of the ring bring the drum back to it.
pub proof fn lemma_six_turns_return(position: int)
    requires
        on_ring(position),
    ensures
        position_after(position, 6) == position,
{
    reveal_with_fuel(position_after, 7);
}

/// Any number of turns keeps the drum on the ring.
pub proof fn lemma_turns_stay_on_ring(position: int, turns: nat)
    requires
        on_ring(position),
    ensures
        on_ring(position_after(position, turns)),
    decreases turns,
{
    if turns > 0 {
        lemma_turns_stay_on_ring(position, (turns - 1) as nat);
    }
}

} // verus!
