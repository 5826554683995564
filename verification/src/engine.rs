//! The pickup / holding / delivery engine, as mathematics: what one
//! frame's proximity resolution does to the ground letters, the holding
//! order, and the score.

use vstd::prelude::*;

use crate::entities::can_pick;
use crate::entities::in_delivery_range;
use crate::entities::letter_wf;
use crate::entities::House;
use crate::entities::Letter;
use crate::geom::Pos;
use crate::EMBARGO_MS;
use crate::MAX_HOLDING;

verus! {

/// The letter as it lands after a forced drop: same number, relocated to
/// the player's position, embargoed until 2 seconds past `now_ms`.
pub open spec fn evicted(l: Letter, player: Pos, now_ms: u64) -> Letter {
    Letter { number: l.number, pos: player, release_ms: (now_ms + EMBARGO_MS) as u64 }
}

/// One frame's pickup resolution.  The engine takes the ground letters
/// from the back; each one in pickup range and past its embargo moves to
/// the front of the holding order, and if that exceeds the capacity, the
/// item at the back of the holding order (the oldest held) is evicted
/// onto the ground where the player stands.  Returns the ground letters
/// left (in the order the engine leaves them), the new holding order
/// (front first), whether any letter was picked up, and whether any was
/// evicted.
pub open spec fn pickup_result(
    ground: Seq<Letter>,
    holding: Seq<Letter>,
    player: Pos,
    now_ms: u64,
    w: int,
) -> (Seq<Letter>, Seq<Letter>, bool, bool)
    decreases ground.len(),
{
    if ground.len() == 0 {
        (Seq::empty(), holding, false, false)
    } else {
        let l = ground.last();
        let rest = ground.drop_last();
        if can_pick(l, player, now_ms, w) {
            let grown = seq![l] + holding;
            if grown.len() > MAX_HOLDING {
                let fell = evicted(grown.last(), player, now_ms);
                let (g2, h2, _p2, _d2) = pickup_result(
                    rest,
                    grown.drop_last(),
                    player,
                    now_ms,
                    w,
                );
                (seq![fell] + g2, h2, true, true)
            } else {
                let (g2, h2, _p2, d2) = pickup_result(rest, grown, player, now_ms, w);
                (g2, h2, true, d2)
            }
        } else {
            let (g2, h2, p2, d2) = pickup_result(rest, holding, player, now_ms, w);
            (seq![l] + g2, h2, p2, d2)
        }
    }
}

/// The holding order never exceeds its capacity of 4: whatever pickups
/// one frame resolves, a holding order within capacity stays within it.
pub proof fn lemma_pickup_holding_bounded(
    ground: Seq<Letter>,
    holding: Seq<Letter>,
    player: Pos,
    now_ms: u64,
    w: int,
)
    requires
        holding.len() <= MAX_HOLDING,
    ensures
        pickup_result(ground, holding, player, now_ms, w).1.len() <= MAX_HOLDING,
    decreases ground.len(),
{
    if ground.len() > 0 {
        let l = ground.last();
        let rest = ground.drop_last();
        if can_pick(l, player, now_ms, w) {
            let grown = seq![l] + holding;
            if grown.len() > MAX_HOLDING {
                lemma_pickup_holding_bounded(rest, grown.drop_last(), player, now_ms, w);
            } else {
                lemma_pickup_holding_bounded(rest, grown, player, now_ms, w);
            }
        } else {
            lemma_pickup_holding_bounded(rest, holding, player, now_ms, w);
        }
    }
}

/// Inserting a letter into a full holding order evicts exactly the item
/// at the back — the oldest held — never an arbitrary or front item: the
/// newcomer lands at the front, the first three held letters survive, and
/// the evicted letter returns to the ground at the player's position with
/// its release timestamp set to `now + 2` seconds.
pub proof fn lemma_overflow_evicts_oldest(
    l: Letter,
    holding: Seq<Letter>,
    player: Pos,
    now_ms: u64,
    w: int,
)
    requires
        holding.len() == MAX_HOLDING,
        can_pick(l, player, now_ms, w),
        now_ms + EMBARGO_MS <= u64::MAX,
    ensures
        pickup_result(seq![l], holding, player, now_ms, w).0 == seq![
            evicted(holding.last(), player, now_ms),
        ],
        pickup_result(seq![l], holding, player, now_ms, w).1 == seq![l] + holding.drop_last(),
        pickup_result(seq![l], holding, player, now_ms, w).2,
        pickup_result(seq![l], holding, player, now_ms, w).3,
        evicted(holding.last(), player, now_ms).release_ms == now_ms + EMBARGO_MS,
        evicted(holding.last(), player, now_ms).pos == player,
{
    let g = seq![l];
    assert(g.last() == l);
    let rest = g.drop_last();
    assert(rest.len() == 0);
    let grown = seq![l] + holding;
    assert(grown.len() == 5);
    let kept = grown.drop_last();
    assert(pickup_result(rest, kept, player, now_ms, w) == (
        Seq::<Letter>::empty(),
        kept,
        false,
        false,
    ));
    let fell = evicted(grown.last(), player, now_ms);
    assert(grown.last() == holding.last());
    assert(kept =~= seq![l] + holding.drop_last());
    assert(pickup_result(g, holding, player, now_ms, w).0 =~= seq![fell]);
    assert(pickup_result(g, holding, player, now_ms, w).1 == kept);
}

/// Letters the simulation can hold soundly: valid numbers and positions,
/// and no release timestamp further out than the embargo span past `now`.
pub open spec fn all_sound(s: Seq<Letter>, now_ms: u64) -> bool {
    forall|i: int|
        0 <= i < s.len() ==> letter_wf(#[trigger] s[i]) && s[i].release_ms <= now_ms + EMBARGO_MS
}

/// Every letter a pickup resolution leaves on the ground or in hand is
/// sound if every letter it started from was: numbers and positions stay
/// valid, and no release timestamp exceeds the embargo span past `now`.
pub proof fn lemma_pickup_wf(
    ground: Seq<Letter>,
    holding: Seq<Letter>,
    player: Pos,
    now_ms: u64,
    w: int,
)
    requires
        all_sound(ground, now_ms),
        all_sound(holding, now_ms),
        0 <= player.x <= crate::LEVEL_WIDTH_MILLI,
        0 <= player.y <= crate::LEVEL_HEIGHT_MILLI,
        now_ms + EMBARGO_MS <= u64::MAX,
    ensures
        all_sound(pickup_result(ground, holding, player, now_ms, w).0, now_ms),
        all_sound(pickup_result(ground, holding, player, now_ms, w).1, now_ms),
    decreases ground.len(),
{
    if ground.len() > 0 {
        let l = ground.last();
        let rest = ground.drop_last();
        assert(letter_wf(l) && l.release_ms <= now_ms + EMBARGO_MS) by {
            assert(l == ground[ground.len() - 1]);
        }
        assert(all_sound(rest, now_ms)) by {
            assert(forall|i: int| 0 <= i < rest.len() ==> #[trigger] rest[i] == ground[i]);
        }
        if can_pick(l, player, now_ms, w) {
            let grown = seq![l] + holding;
            assert(all_sound(grown, now_ms)) by {
                assert forall|i: int|
                    0 <= i < grown.len() implies letter_wf(#[trigger] grown[i])
                    && grown[i].release_ms <= now_ms + EMBARGO_MS by {
                    if i == 0 {
                        assert(grown[0] == l);
                    } else {
                        assert(grown[i] == holding[i - 1]);
                    }
                }
            }
            if grown.len() > MAX_HOLDING {
                let kept = grown.drop_last();
                assert(all_sound(kept, now_ms)) by {
                    assert(forall|i: int| 0 <= i < kept.len() ==> #[trigger] kept[i] == grown[i]);
                }
                lemma_pickup_wf(rest, kept, player, now_ms, w);
                let fell = evicted(grown.last(), player, now_ms);
                assert(letter_wf(fell)) by {
                    assert(grown.last() == grown[grown.len() - 1]);
                }
                let g2 = pickup_result(rest, kept, player, now_ms, w).0;
                let out = pickup_result(ground, holding, player, now_ms, w).0;
                assert(out == seq![fell] + g2);
                assert forall|i: int|
                    0 <= i < out.len() implies letter_wf(#[trigger] out[i]) && out[i].release_ms
                    <= now_ms + EMBARGO_MS by {
                    if i == 0 {
                        assert(out[0] == fell);
                    } else {
                        assert(out[i] == g2[i - 1]);
                    }
                }
            } else {
                lemma_pickup_wf(rest, grown, player, now_ms, w);
                let g2 = pickup_result(rest, grown, player, now_ms, w).0;
                let h2 = pickup_result(rest, grown, player, now_ms, w).1;
                assert(pickup_result(ground, holding, player, now_ms, w).0 == g2);
                assert(pickup_result(ground, holding, player, now_ms, w).1 == h2);
            }
        } else {
            lemma_pickup_wf(rest, holding, player, now_ms, w);
            let g2 = pickup_result(rest, holding, player, now_ms, w).0;
            let out = pickup_result(ground, holding, player, now_ms, w).0;
            assert(out == seq![l] + g2);
            assert forall|i: int|
                0 <= i < out.len() implies letter_wf(#[trigger] out[i]) && out[i].release_ms
                <= now_ms + EMBARGO_MS by {
                if i == 0 {
                    assert(out[0] == l);
                } else {
                    assert(out[i] == g2[i - 1]);
                }
            }
        }
    }
}

/// How many letters a house numbered `n` receives: the length of the
/// maximal prefix of the holding order whose numbers all equal `n`.
pub open spec fn matching_prefix(holding: Seq<Letter>, n: u32) -> int
    decreases holding.len(),
{
    if holding.len() > 0 && holding[0].number == n {
        1 + matching_prefix(holding.skip(1), n)
    } else {
        0
    }
}

/// The matching prefix is exactly the run of `n`-numbered letters at the
/// front: every letter before it matches, and the letter that stops it —
/// if any — does not.  A matched letter buried behind a mismatch is not
/// delivered.
pub proof fn lemma_matching_prefix(holding: Seq<Letter>, n: u32)
    ensures
        0 <= matching_prefix(holding, n) <= holding.len(),
        forall|i: int| 0 <= i < matching_prefix(holding, n) ==> (#[trigger] holding[i]).number
            == n,
        matching_prefix(holding, n) < holding.len() ==> holding[matching_prefix(
            holding,
            n,
        )].number != n,
    decreases holding.len(),
{
    if holding.len() > 0 && holding[0].number == n {
        lemma_matching_prefix(holding.skip(1), n);
        assert forall|i: int| 0 <= i < matching_prefix(holding, n) implies (
        #[trigger] holding[i]).number == n by {
            if i > 0 {
                assert(holding.skip(1)[i - 1] == holding[i]);
            }
        }
        if matching_prefix(holding, n) < holding.len() {
            assert(holding.skip(1)[matching_prefix(holding, n) - 1] == holding[matching_prefix(
                holding,
                n,
            )]);
        }
    }
}

/// One frame's delivery resolution: the houses are visited in order, and
/// each house in delivery range pops the matching prefix of the holding
/// order, one point per letter.  Returns the holding order left and the
/// number of letters delivered.
pub open spec fn deliver_result(
    holding: Seq<Letter>,
    houses: Seq<House>,
    player: Pos,
    w: int,
) -> (Seq<Letter>, int)
    decreases houses.len(),
{
    if houses.len() == 0 {
        (holding, 0)
    } else {
        let h = houses[0];
        let step = if in_delivery_range(h, player, w) {
            matching_prefix(holding, h.number)
        } else {
            0
        };
        let (rem, c) = deliver_result(holding.skip(step), houses.skip(1), player, w);
        (rem, step + c)
    }
}

/// Delivery only ever pops from the front: what is left held is exactly
/// the holding order with its first `delivered` letters removed, so the
/// score moves by exactly one per popped letter — never more, never
/// skipping.
pub proof fn lemma_deliver_pops_front(
    holding: Seq<Letter>,
    houses: Seq<House>,
    player: Pos,
    w: int,
)
    ensures
        0 <= deliver_result(holding, houses, player, w).1 <= holding.len(),
        deliver_result(holding, houses, player, w).0 =~= holding.skip(
            deliver_result(holding, houses, player, w).1,
        ),
        deliver_result(holding, houses, player, w).0.len() == holding.len() - deliver_result(
            holding,
            houses,
            player,
            w,
        ).1,
    decreases houses.len(),
{
    if houses.len() > 0 {
        let h = houses[0];
        let step = if in_delivery_range(h, player, w) {
            matching_prefix(holding, h.number)
        } else {
            0
        };
        lemma_matching_prefix(holding, h.number);
        lemma_deliver_pops_front(holding.skip(step), houses.skip(1), player, w);
        let c = deliver_result(holding.skip(step), houses.skip(1), player, w).1;
        assert(holding.skip(step).skip(c) =~= holding.skip(step + c));
    }
}

} // verus!

