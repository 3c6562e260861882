//! Runs of many frames, and why a replay ends where the first run ended.

use vstd::prelude::*;
use crate::input::BoxInput;
use crate::snapshot::digest;
use crate::world::{World, WorldView};

verus! {

/// The world after the frames `frames`, played first to last.
pub open spec fn run(w: WorldView, frames: Seq<Seq<BoxInput>>) -> WorldView
    decreases frames.len(),
{
    if frames.len() == 0 {
        w
    } else {
        run(w, frames.drop_last()).step(frames.last())
    }
}

/// The inputs of a list of frames, as mathematics.
pub open spec fn frames_of(frames: Seq<Vec<BoxInput>>) -> Seq<Seq<BoxInput>> {
    frames.map_values(|f: Vec<BoxInput>| f@)
}

/// Whether two worlds hold the same players, as far as handles go.
pub open spec fn same_handles(a: WorldView, b: WorldView) -> bool {
    &&& a.players.len() == b.players.len()
    &&& forall|i: int| 0 <= i < a.players.len() ==> a.players[i].handle == b.players[i].handle
}

/// A run neither adds nor removes a player, and changes no handle.
pub proof fn run_keeps_handles(w: WorldView, frames: Seq<Seq<BoxInput>>)
    ensures
        same_handles(w, run(w, frames)),
    decreases frames.len(),
{
    if frames.len() > 0 {
        run_keeps_handles(w, frames.drop_last());
    }
}

/// Playing `first` and then `rest` is playing the two in one go.
pub proof fn run_in_two_parts(w: WorldView, first: Seq<Seq<BoxInput>>, rest: Seq<Seq<BoxInput>>)
    ensures
        run(run(w, first), rest) == run(w, first + rest),
    decreases rest.len(),
{
    if rest.len() > 0 {
        run_in_two_parts(w, first, rest.drop_last());
        assert((first + rest).drop_last() == first + rest.drop_last());
    }
}

/// Determinism. The step draws on nothing but the world and the inputs:
/// two runs from the same world with the same inputs end in the same world,
/// entity for entity and field for field, and so in the same digest.
pub proof fn replay_is_deterministic(
    a: WorldView,
    b: WorldView,
    first: Seq<Seq<BoxInput>>,
    second: Seq<Seq<BoxInput>>,
)
    requires
        a == b,
        first == second,
    ensures
        run(a, first) == run(b, second),
        digest(run(a, first)) == digest(run(b, second)),
{
}

/// Rollback equivalence. Let a world be played with the inputs `predicted`,
/// some of them guessed, and let the guesses be right for the first `g`
/// frames. Going back to the world as it stood before frame `g` and playing
/// the rest of `actual` from there ends in the world that a straight run
/// with `actual` would have reached.
pub proof fn rollback_equivalence(
    w: WorldView,
    predicted: Seq<Seq<BoxInput>>,
    actual: Seq<Seq<BoxInput>>,
    g: int,
)
    requires
        0 <= g <= actual.len(),
        g <= predicted.len(),
        predicted.take(g) == actual.take(g),
    ensures
        run(run(w, predicted.take(g)), actual.skip(g)) == run(w, actual),
{
    run_in_two_parts(w, actual.take(g), actual.skip(g));
    assert(actual.take(g) + actual.skip(g) == actual);
}

impl World {
    /// Plays the frames `frames`, first to last.
    pub fn run(&mut self, frames: &Vec<Vec<BoxInput>>)
        requires
            forall|k: int| 0 <= k < frames@.len() ==> old(self)@.covered_by(#[trigger] frames@[k]@),
        ensures
            final(self)@ == run(old(self)@, frames_of(frames@)),
    {
        let ghost all = frames_of(frames@);
        let mut k: usize = 0;
        while k < frames.len()
            invariant
                k <= frames.len(),
                all == frames_of(frames@),
                forall|j: int|
                    0 <= j < frames@.len() ==> old(self)@.covered_by(#[trigger] frames@[j]@),
                self@ == run(old(self)@, all.take(k as int)),
            decreases frames.len() - k,
        {
            proof {
                run_keeps_handles(old(self)@, all.take(k as int));
                assert(all.take(k + 1).drop_last() == all.take(k as int));
            }
            self.step(&frames[k]);
            k = k + 1;
        }
        proof {
            assert(all.take(frames.len() as int) == all);
        }
    }
}

} // verus!
