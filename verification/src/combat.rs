use vstd::prelude::*;

use crate::enemy::{spec_record_defeat, EnemySpawner};
use crate::game_state::GameScore;

verus! {

/// The enemy that a bullet hits: the first, in the order given, of those
/// within its reach; `None` when it reaches none.
pub fn first_enemy_hit(in_reach: &Vec<bool>) -> (hit: Option<usize>)
    ensures
        match hit {
            Some(i) => i < in_reach@.len() && in_reach@[i as int] && forall|j: int|
                0 <= j < i ==> !in_reach@[j],
            None => forall|j: int| 0 <= j < in_reach@.len() ==> !in_reach@[j],
        },
{
    let mut i: usize = 0;
    while i < in_reach.len()
        invariant
            i <= in_reach@.len(),
            forall|j: int| 0 <= j < i ==> !in_reach@[j],
        decreases in_reach@.len() - i,
    {
        if in_reach[i] {
            return Some(i);
        }
        i = i + 1;
    }
    None
}

/// The bookkeeping of a defeated enemy: one more point, a new best score
/// once it is beaten, and one enemy fewer alive in the wave, which makes room
/// for further spawns. Returns whether the best score was beaten, in which
/// case it is to be saved.
pub fn record_enemy_defeat(score: &mut GameScore, spawner: &mut EnemySpawner) -> (save_best: bool)
    requires
        old(score).current < u32::MAX,
    ensures
        final(score).current == old(score).current + 1,
        save_best == (old(score).current + 1 > old(score).high_score),
        final(score).high_score == (if save_best {
            final(score).current
        } else {
            old(score).high_score
        }),
        *final(spawner) == spec_record_defeat(*old(spawner)),
        old(spawner).count > 0 ==> final(spawner).count == old(spawner).count - 1,
        old(spawner).count == 0 ==> final(spawner).count == 0,
{
    let save_best = score.record_kill();
    spawner.record_defeat();
    save_best
}

} // verus!
