//! What holds of every timeline: the prediction window bounds its lead, and
//! a rewind followed by a replay with the right inputs mends every wrong guess.

use vstd::prelude::*;
use crate::input::BoxInput;
use crate::replay::{rollback_equivalence, run, run_in_two_parts};
use crate::timeline::TimelineView;

verus! {

impl TimelineView {
    /// The timeline after each frame of `frames`, in turn, has been saved and
    /// then simulated.
    pub open spec fn played(self, frames: Seq<Seq<BoxInput>>) -> TimelineView
        decreases frames.len(),
    {
        if frames.len() == 0 {
            self
        } else {
            self.played(frames.drop_last()).saved().advanced(frames.last())
        }
    }
}

/// Two frames less than a ring apart have different places in it.
proof fn lemma_places_differ(a: nat, b: nat, capacity: nat)
    requires
        capacity > 0,
        a < b < a + capacity,
    ensures
        a % capacity != b % capacity,
{
    vstd::arithmetic::div_mod::lemma_fundamental_div_mod(a as int, capacity as int);
    vstd::arithmetic::div_mod::lemma_fundamental_div_mod(b as int, capacity as int);
    if a % capacity == b % capacity {
        let qa = a as int / capacity as int;
        let qb = b as int / capacity as int;
        assert(b - a == capacity * (qb - qa)) by (nonlinear_arith)
            requires
                a == capacity * qa + a % capacity,
                b == capacity * qb + b % capacity,
                a % capacity == b % capacity,
        ;
        assert(false) by (nonlinear_arith)
            requires
                b - a == capacity * (qb - qa),
                0 < b - a < capacity,
        ;
    }
}

/// Prediction window bound. A well-formed timeline is at most `window`
/// frames ahead of the confirmed ones. Saving, rewinding and confirming keep
/// it so; simulating a frame keeps it so exactly when the timeline is not
/// stalled, which is when `advance` simulates.
pub proof fn the_window_bounds_the_lead(
    t: TimelineView,
    inputs: Seq<BoxInput>,
    frame: nat,
    frames: nat,
)
    requires
        t.wf(),
    ensures
        t.frame <= t.confirmed + t.window,
        t.saved().wf(),
        t.confirmed_through(frames).wf(),
        t.retains(frame) ==> t.loaded(frame).wf() && t.loaded(frame).frame <= t.frame,
        t.advanced(inputs).wf() <==> !t.stalled(),
{
}

/// Confirmations only ever advance. Two of them count as the larger one,
/// in whichever order they come, and one that is not beyond what is
/// confirmed already changes nothing.
pub proof fn confirmations_only_advance(t: TimelineView, first: nat, second: nat)
    requires
        t.wf(),
    ensures
        t.confirmed_through(first).confirmed_through(second) == t.confirmed_through(
            if first >= second {
                first
            } else {
                second
            },
        ),
        first <= t.confirmed ==> t.confirmed_through(first) == t,
        t.confirmed_through(first).confirmed >= t.confirmed,
{
}

/// What a played timeline holds: the world of a straight run, and a snapshot
/// of every frame that a ring of `window + 1` slots can still hold.
proof fn lemma_played(t: TimelineView, frames: Seq<Seq<BoxInput>>)
    requires
        t.wf(),
        t.frame + frames.len() <= t.confirmed + t.window,
    ensures
        t.played(frames).wf(),
        t.played(frames).frame == t.frame + frames.len(),
        t.played(frames).confirmed == t.confirmed,
        t.played(frames).window == t.window,
        t.played(frames).world == run(t.world, frames),
        forall|k: int|
            0 <= k < frames.len() && frames.len() - k <= t.window + 1 ==> {
                &&& #[trigger] t.played(frames).retains((t.frame + k) as nat)
                &&& t.played(frames).snapshot((t.frame + k) as nat) == run(t.world, frames.take(k))
            },
    decreases frames.len(),
{
    if frames.len() > 0 {
        let before = t.played(frames.drop_last());
        let after = t.played(frames);
        lemma_played(t, frames.drop_last());
        let capacity = t.capacity();
        let newest = (before.frame % capacity) as int;
        assert(0 <= newest < capacity) by (nonlinear_arith)
            requires
                capacity > 0,
                newest == before.frame % capacity,
        ;
        assert forall|k: int| 0 <= k < frames.len() && frames.len() - k <= t.window + 1 implies {
            &&& #[trigger] after.retains((t.frame + k) as nat)
            &&& after.snapshot((t.frame + k) as nat) == run(t.world, frames.take(k))
        } by {
            if k < frames.len() - 1 {
                lemma_places_differ((t.frame + k) as nat, before.frame, capacity);
                assert(before.retains((t.frame + k) as nat));
                assert(frames.drop_last().take(k) == frames.take(k));
            }
        }
    }
}

/// Rollback equivalence, on the timeline. Let a well-formed timeline play
/// the frames `predicted`, saving before each, where frame `g` of them is
/// the first that rests on a wrong guess and the prediction window admits
/// them all. Then the snapshot of that frame is still retained; and
/// rewinding to it and playing the rest of `actual` leaves the timeline at
/// the same frame, well-formed, with the world that a straight run with
/// `actual` from the start would have reached. The snapshots of the frames
/// played again are those of the straight run too.
pub proof fn rewind_and_replay(
    t: TimelineView,
    predicted: Seq<Seq<BoxInput>>,
    actual: Seq<Seq<BoxInput>>,
    g: int,
)
    requires
        t.wf(),
        predicted.len() == actual.len(),
        0 <= g < actual.len(),
        predicted.take(g) == actual.take(g),
        t.confirmed <= t.frame + g,
        t.frame + actual.len() <= t.confirmed + t.window,
    ensures
        t.played(predicted).retains((t.frame + g) as nat),
        t.played(predicted).loaded((t.frame + g) as nat).played(actual.skip(g)).wf(),
        t.played(predicted).loaded((t.frame + g) as nat).played(actual.skip(g)).frame == t.frame
            + actual.len(),
        t.played(predicted).loaded((t.frame + g) as nat).played(actual.skip(g)).world == run(
            t.world,
            actual,
        ),
        t.played(actual).world == run(t.world, actual),
        forall|k: int|
            g <= k < actual.len() ==> {
                &&& #[trigger] t.played(predicted).loaded((t.frame + g) as nat).played(
                    actual.skip(g),
                ).retains((t.frame + k) as nat)
                &&& t.played(predicted).loaded((t.frame + g) as nat).played(
                    actual.skip(g),
                ).snapshot((t.frame + k) as nat) == run(t.world, actual.take(k))
            },
{
    let target = (t.frame + g) as nat;
    lemma_played(t, predicted);
    lemma_played(t, actual);
    let guessed = t.played(predicted);
    the_window_bounds_the_lead(guessed, Seq::empty(), target, 0);
    let rewound = guessed.loaded(target);
    assert(rewound.world == run(t.world, actual.take(g)));
    lemma_played(rewound, actual.skip(g));
    rollback_equivalence(t.world, predicted, actual, g);
    let mended = rewound.played(actual.skip(g));
    assert forall|k: int| g <= k < actual.len() implies {
        &&& #[trigger] mended.retains((t.frame + k) as nat)
        &&& mended.snapshot((t.frame + k) as nat) == run(t.world, actual.take(k))
    } by {
        assert(mended.retains((rewound.frame + (k - g)) as nat));
        run_in_two_parts(t.world, actual.take(g), actual.skip(g).take(k - g));
        assert(actual.take(g) + actual.skip(g).take(k - g) == actual.take(k));
    }
}

} // verus!
