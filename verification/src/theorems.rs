//! What holds of every frame, whatever the world and the inputs.

use vstd::prelude::*;
use crate::entity::{Bullet, Player, BULLET_LIFETIME, TIME_TO_RELOAD};
use crate::input::BoxInput;
use crate::world::{drifted, firing, outlived, WorldView};

verus! {

/// A player that may fire: its reload timer has run out.
pub open spec fn ready() -> spec_fn(Player) -> bool {
    |p: Player| p.reload_time == 0
}

/// A bullet that will still be there after the coming frame.
pub open spec fn lasting() -> spec_fn(Bullet) -> bool {
    |b: Bullet| b.lifetime.val > 1
}

/// Reload gating, for one player. While the reload timer is above zero the
/// player fires nothing, whatever the fire buttons say, and the timer runs
/// down by one.
pub proof fn reload_gates_fire(p: Player, input: BoxInput)
    requires
        p.reload_time > 0,
    ensures
        !p.fires(input),
        p.after(input).reload_time == p.reload_time - 1,
{
}

/// A shot sets the reload timer, so that the same player cannot fire in the
/// following frame either.
pub proof fn a_shot_starts_the_reload(p: Player, input: BoxInput)
    requires
        p.fires(input),
    ensures
        p.after(input).reload_time == TIME_TO_RELOAD - 1,
        p.after(input).reload_time > 0,
{
}

/// Every bullet in `shots` is fresh: it has its whole life before it.
proof fn lemma_shots_are_fresh(players: Seq<Player>, inputs: Seq<BoxInput>)
    ensures
        players.filter_map(firing(inputs)).len() <= players.len(),
        forall|k: int|
            0 <= k < players.filter_map(firing(inputs)).len() ==> (#[trigger] players.filter_map(
                firing(inputs),
            )[k]).lifetime.val == BULLET_LIFETIME,
    decreases players.len(),
{
    if players.len() > 0 {
        lemma_shots_are_fresh(players.drop_last(), inputs);
    }
}

/// The players that are not ready add nothing to the shots of a frame.
proof fn lemma_shots_of_the_ready(players: Seq<Player>, inputs: Seq<BoxInput>)
    ensures
        players.filter_map(firing(inputs)) == players.filter(ready()).filter_map(firing(inputs)),
    decreases players.len(),
{
    reveal(Seq::filter);
    if players.len() > 0 {
        let rest = players.drop_last();
        let last = players.last();
        lemma_shots_of_the_ready(rest, inputs);
        if ready()(last) {
            assert(rest.filter(ready()).push(last).drop_last() == rest.filter(ready()));
        }
    }
}

/// Reload gating, for the world. The bullets fired in a frame are those
/// that the ready players fire: leaving out every player whose reload timer
/// is above zero changes nothing. No player fires more than one bullet.
pub proof fn only_ready_players_fire(w: WorldView, inputs: Seq<BoxInput>)
    ensures
        w.shots(inputs) == (WorldView { players: w.players.filter(ready()), ..w }).shots(inputs),
        w.shots(inputs).len() <= w.players.len(),
{
    lemma_shots_of_the_ready(w.players, inputs);
    lemma_shots_are_fresh(w.players, inputs);
}

/// Ageing keeps the bullets that had more than one frame left, and no others.
proof fn lemma_outlived(bullets: Seq<Bullet>)
    ensures
        outlived(bullets) == bullets.filter(lasting()).map_values(|b: Bullet| b.aged()),
    decreases bullets.len(),
{
    reveal(Seq::filter);
    if bullets.len() > 0 {
        let aged = |b: Bullet| b.aged();
        let rest = bullets.drop_last();
        lemma_outlived(rest);
        assert(bullets.map_values(aged).drop_last() == rest.map_values(aged));
    }
}

/// Lifetime boundary. A bullet whose time runs out in a frame is removed in
/// that same frame: of the bullets in flight exactly those stay that had
/// more than one frame left, one frame older and in their old order.
pub proof fn spent_bullets_leave_at_once(bullets: Seq<Bullet>)
    ensures
        outlived(bullets) == bullets.filter(lasting()).map_values(|b: Bullet| b.aged()),
        forall|k: int| 0 <= k < outlived(bullets).len() ==> (#[trigger] outlived(bullets)[k]).alive(),
{
    lemma_outlived(bullets);
    assert forall|k: int| 0 <= k < outlived(bullets).len() implies (#[trigger] outlived(
        bullets,
    )[k]).alive() by {
        bullets.lemma_filter_pred(lasting(), k);
    }
}

/// After a frame no bullet in the world is out of time, whatever the world
/// was before: the spent ones are gone, the new ones are fresh.
pub proof fn no_spent_bullet_survives_a_frame(w: WorldView, inputs: Seq<BoxInput>)
    ensures
        forall|k: int|
            0 <= k < w.step(inputs).bullets.len() ==> (#[trigger] w.step(inputs).bullets[k]).alive(),
{
    spent_bullets_leave_at_once(drifted(w.bullets));
    lemma_shots_are_fresh(w.players, inputs);
}

} // verus!
