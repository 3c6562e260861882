//! The rollback timeline: the world, the frame it stands at, and a ring of
//! snapshots to rewind to when a predicted input turns out wrong.

use vstd::prelude::*;
use crate::input::BoxInput;
use crate::snapshot::digest;
use crate::world::{newcomer, setup, World, WorldView};
use crate::entity::Bullet;

verus! {

/// How the session came by the input of one player for one frame.
#[derive(Clone, Copy, Debug, PartialEq, Eq, Structural)]
pub enum InputStatus {
    /// The input was received from its player.
    Confirmed,
    /// The input repeats the last one that was received.
    Predicted,
    /// The player has left; the input is empty.
    Disconnected,
}

/// The input of one player for one frame, and how the session came by it.
#[derive(Clone, Copy, Debug, PartialEq, Eq, Structural)]
pub struct PlayerInput {
    pub input: BoxInput,
    pub status: InputStatus,
}

/// What a simulated frame rests on.
#[derive(Clone, Copy, Debug, PartialEq, Eq, Structural)]
pub enum FrameStatus {
    /// At least one input was predicted: the frame may be played again.
    Speculative,
    /// No input was predicted.
    Confirmed,
}

/// Why a frame was not simulated.
#[derive(Clone, Copy, Debug, PartialEq, Eq, Structural)]
pub enum TickError {
    /// The prediction window is used up: confirmations must catch up first.
    StallCondition,
    /// A player's handle has no input in the frame's inputs.
    MissingInput,
}

/// The frame asked for is not among the retained snapshots.
#[derive(Clone, Copy, Debug, PartialEq, Eq, Structural)]
pub struct Forgotten {
    pub frame: u64,
}

/// A retained snapshot: the world as it stood before `frame` was simulated.
struct Slot {
    frame: u64,
    world: World,
}

/// The world together with what is needed to rewind it.
pub struct Timeline {
    world: World,
    frame: u64,
    confirmed: u64,
    window: u16,
    slots: Vec<Option<Slot>>,
}

/// A retained snapshot, as mathematics.
pub struct Saved {
    pub frame: nat,
    pub world: WorldView,
}

/// The mathematical content of a `Timeline`.
pub struct TimelineView {
    /// The world before frame `frame` is simulated.
    pub world: WorldView,
    /// The number of frames simulated, which is the number of the next frame.
    pub frame: nat,
    /// The number of leading frames for which every player's input is confirmed.
    pub confirmed: nat,
    /// How many frames the simulation may run ahead of the confirmed ones.
    pub window: nat,
    /// The ring of snapshots; frame `f` has its place at `f % (window + 1)`.
    pub slots: Seq<Option<Saved>>,
}

/// The inputs of a frame without their status.
pub open spec fn bare(inputs: Seq<PlayerInput>) -> Seq<BoxInput> {
    inputs.map_values(|i: PlayerInput| i.input)
}

/// The status of a frame simulated with these inputs.
pub open spec fn status_of(inputs: Seq<PlayerInput>) -> FrameStatus {
    if exists|i: int| 0 <= i < inputs.len() && (#[trigger] inputs[i]).status == InputStatus::Predicted {
        FrameStatus::Speculative
    } else {
        FrameStatus::Confirmed
    }
}

/// A slot after a rewind to `frame`: snapshots of later frames are void.
pub open spec fn until(frame: nat) -> spec_fn(Option<Saved>) -> Option<Saved> {
    |slot: Option<Saved>|
        match slot {
            Some(s) => if s.frame > frame {
                None
            } else {
                slot
            },
            None => None,
        }
}

impl TimelineView {
    /// The number of slots in the ring.
    pub open spec fn capacity(self) -> nat {
        self.window + 1
    }

    /// The highest count of confirmed frames that a timeline keeps: beyond
    /// it the frame counter would leave the `u64` range.
    pub open spec fn horizon(self) -> nat {
        (u64::MAX - self.window) as nat
    }

    /// What every timeline satisfies: the ring has `window + 1` slots, each
    /// snapshot sits at its frame's place and is of a frame not after the
    /// present one, and the simulation is at most `window` frames ahead of
    /// the confirmed ones, which end at the horizon.
    pub open spec fn wf(self) -> bool {
        &&& self.window <= u16::MAX
        &&& self.slots.len() == self.capacity()
        &&& forall|i: int|
            0 <= i < self.slots.len() ==> ((#[trigger] self.slots[i]) matches Some(s) ==> s.frame
                % self.capacity() == i && s.frame <= self.frame)
        &&& self.frame <= self.confirmed + self.window
        &&& self.confirmed <= self.horizon()
    }

    /// The timeline of a session of `pnum` players as it begins.
    pub open spec fn start(pnum: nat, window: nat) -> TimelineView {
        TimelineView {
            world: WorldView {
                players: Seq::new(pnum, |i: int| newcomer(i)),
                bullets: Seq::<Bullet>::empty(),
            },
            frame: 0,
            confirmed: 0,
            window,
            slots: Seq::new(window + 1, |i: int| None::<Saved>),
        }
    }

    /// Whether the snapshot of `frame` is retained.
    pub open spec fn retains(self, frame: nat) -> bool {
        self.slots[(frame % self.capacity()) as int] matches Some(s) && s.frame == frame
    }

    /// The retained snapshot of `frame`.
    pub open spec fn snapshot(self, frame: nat) -> WorldView {
        self.slots[(frame % self.capacity()) as int].unwrap().world
    }

    /// Whether the prediction window is used up.
    pub open spec fn stalled(self) -> bool {
        self.frame >= self.confirmed + self.window
    }

    /// The timeline after the present world is saved: the snapshot takes its
    /// frame's place in the ring, whatever was there.
    pub open spec fn saved(self) -> TimelineView {
        TimelineView {
            slots: self.slots.update(
                (self.frame % self.capacity()) as int,
                Some(Saved { frame: self.frame, world: self.world }),
            ),
            ..self
        }
    }

    /// The timeline after a rewind to the retained `frame`: the world is the
    /// snapshot, the snapshots of later frames are void.
    pub open spec fn loaded(self, frame: nat) -> TimelineView {
        TimelineView {
            world: self.snapshot(frame),
            frame,
            slots: self.slots.map_values(until(frame)),
            ..self
        }
    }

    /// The timeline after one more frame is simulated.
    pub open spec fn advanced(self, inputs: Seq<BoxInput>) -> TimelineView {
        TimelineView { world: self.world.step(inputs), frame: self.frame + 1, ..self }
    }

    /// The timeline after it is told that the first `frames` frames have all
    /// their inputs confirmed. What was confirmed stays confirmed, and no
    /// count goes beyond the horizon.
    pub open spec fn confirmed_through(self, frames: nat) -> TimelineView {
        TimelineView {
            confirmed: if frames <= self.confirmed {
                self.confirmed
            } else if frames <= self.horizon() {
                frames
            } else {
                self.horizon()
            },
            ..self
        }
    }
}

/// What a slot holds, as mathematics.
spec fn slot_view(slot: Option<Slot>) -> Option<Saved> {
    match slot {
        Some(s) => Some(Saved { frame: s.frame as nat, world: s.world@ }),
        None => None,
    }
}

impl View for Timeline {
    type V = TimelineView;

    closed spec fn view(&self) -> TimelineView {
        TimelineView {
            world: self.world@,
            frame: self.frame as nat,
            confirmed: self.confirmed as nat,
            window: self.window as nat,
            slots: self.slots@.map_values(|s: Option<Slot>| slot_view(s)),
        }
    }
}

/// Takes the status off each input of a frame.
fn strip(inputs: &Vec<PlayerInput>) -> (out: Vec<BoxInput>)
    ensures
        out@ == bare(inputs@),
{
    let mut out: Vec<BoxInput> = Vec::new();
    let mut i: usize = 0;
    while i < inputs.len()
        invariant
            i <= inputs.len(),
            out@ == bare(inputs@.take(i as int)),
        decreases inputs.len() - i,
    {
        out.push(inputs[i].input);
        i = i + 1;
    }
    out
}

/// Tells what a frame simulated with these inputs rests on: it is
/// speculative as soon as one input is predicted.
pub fn frame_status(inputs: &Vec<PlayerInput>) -> (status: FrameStatus)
    ensures
        status == status_of(inputs@),
{
    let mut i: usize = 0;
    while i < inputs.len()
        invariant
            i <= inputs.len(),
            forall|j: int| 0 <= j < i ==> (#[trigger] inputs@[j]).status != InputStatus::Predicted,
        decreases inputs.len() - i,
    {
        if inputs[i].status == InputStatus::Predicted {
            return FrameStatus::Speculative;
        }
        i = i + 1;
    }
    FrameStatus::Confirmed
}

impl Timeline {
    /// The timeline of a session of `pnum` players as it begins, with a
    /// prediction window of `window` frames.
    pub fn new(pnum: usize, window: u16) -> (timeline: Timeline)
        ensures
            timeline@ == TimelineView::start(pnum as nat, window as nat),
            timeline@.wf(),
    {
        let mut slots: Vec<Option<Slot>> = Vec::new();
        let capacity: usize = window as usize + 1;
        let mut i: usize = 0;
        while i < capacity
            invariant
                i <= capacity,
                slots@.len() == i,
                forall|j: int| 0 <= j < i ==> (#[trigger] slots@[j]) is None,
            decreases capacity - i,
        {
            slots.push(None);
            i = i + 1;
        }
        let timeline = Timeline { world: setup(pnum), frame: 0, confirmed: 0, window, slots };
        assert(timeline@.slots == Seq::new((window + 1) as nat, |i: int| None::<Saved>));
        timeline
    }

    /// The world as it stands.
    pub fn world(&self) -> (world: &World)
        ensures
            world@ == self@.world,
    {
        &self.world
    }

    /// The number of frames simulated: the number of the next frame.
    pub fn frame(&self) -> (frame: u64)
        ensures
            frame == self@.frame,
    {
        self.frame
    }

    /// The number of leading frames for which every input is confirmed.
    pub fn confirmed(&self) -> (confirmed: u64)
        ensures
            confirmed == self@.confirmed,
    {
        self.confirmed
    }

    /// The prediction window.
    pub fn window(&self) -> (window: u16)
        ensures
            window == self@.window,
    {
        self.window
    }

    /// Whether the prediction window is used up, so that the next frame
    /// cannot be simulated before more inputs are confirmed.
    pub fn stalled(&self) -> (stalled: bool)
        ensures
            stalled == self@.stalled(),
    {
        self.confirmed <= self.frame && self.frame - self.confirmed >= self.window as u64
    }

    /// Records that the first `frames` frames have all their inputs
    /// confirmed. A count below the present one changes nothing; one beyond
    /// the horizon counts as the horizon.
    pub fn confirm(&mut self, frames: u64)
        requires
            old(self)@.wf(),
        ensures
            final(self)@ == old(self)@.confirmed_through(frames as nat),
            final(self)@.wf(),
    {
        let horizon: u64 = u64::MAX - self.window as u64;
        if frames > self.confirmed {
            self.confirmed = if frames <= horizon {
                frames
            } else {
                horizon
            };
        }
    }

    /// Saves the present world as the snapshot of the present frame and
    /// returns its digest.
    pub fn save(&mut self) -> (sum: u64)
        requires
            old(self)@.wf(),
        ensures
            final(self)@ == old(self)@.saved(),
            final(self)@.wf(),
            sum == digest(old(self)@.world),
    {
        let capacity: u64 = self.window as u64 + 1;
        let place: usize = (self.frame % capacity) as usize;
        let slot = Slot { frame: self.frame, world: self.world.snapshot() };
        let ghost before = self.slots@;
        self.slots.set(place, Some(slot));
        proof {
            assert(self.slots@.map_values(|s: Option<Slot>| slot_view(s)) == before.map_values(
                |s: Option<Slot>| slot_view(s),
            ).update(place as int, slot_view(Some(slot))));
        }
        self.world.checksum()
    }

    /// Rewinds to `frame`: the world becomes the snapshot that was saved
    /// before that frame was simulated, and the snapshots of later frames
    /// are void. Fails, and changes nothing, where that snapshot is not
    /// retained.
    pub fn load(&mut self, frame: u64) -> (result: Result<(), Forgotten>)
        requires
            old(self)@.wf(),
        ensures
            final(self)@.wf(),
            match result {
                Ok(()) => old(self)@.retains(frame as nat) && final(self)@ == old(self)@.loaded(
                    frame as nat,
                ),
                Err(e) => !old(self)@.retains(frame as nat) && e.frame == frame && final(self)@
                    == old(self)@,
            },
    {
        let capacity: u64 = self.window as u64 + 1;
        let place: usize = (frame % capacity) as usize;
        let copy: Option<World> = match &self.slots[place] {
            Some(slot) => if slot.frame == frame {
                Some(slot.world.snapshot())
            } else {
                None
            },
            None => None,
        };
        match copy {
            None => Err(Forgotten { frame }),
            Some(world) => {
                let ghost before = self.slots@.map_values(|s: Option<Slot>| slot_view(s));
                let n = self.slots.len();
                let mut i: usize = 0;
                while i < n
                    invariant
                        i <= n,
                        n == before.len(),
                        self.slots@.len() == n,
                        self.world == old(self).world,
                        self.frame == old(self).frame,
                        self.confirmed == old(self).confirmed,
                        self.window == old(self).window,
                        forall|j: int|
                            0 <= j < i ==> slot_view(#[trigger] self.slots@[j]) == until(
                                frame as nat,
                            )(before[j]),
                        forall|j: int| i <= j < n ==> slot_view(#[trigger] self.slots@[j]) == before[j],
                    decreases n - i,
                {
                    let later = match &self.slots[i] {
                        Some(slot) => slot.frame > frame,
                        None => false,
                    };
                    if later {
                        self.slots.set(i, None);
                    }
                    i = i + 1;
                }
                self.world = world;
                self.frame = frame;
                proof {
                    assert(self@.slots == before.map_values(until(frame as nat)));
                }
                Ok(())
            },
        }
    }

    /// Simulates the next frame with `inputs`, one for each player, and tells
    /// what the frame rests on. Fails, and changes nothing, where the
    /// prediction window is used up, else where a player has no input.
    pub fn advance(&mut self, inputs: &Vec<PlayerInput>) -> (result: Result<FrameStatus, TickError>)
        requires
            old(self)@.wf(),
        ensures
            final(self)@.wf(),
            match result {
                Ok(status) => {
                    &&& !old(self)@.stalled()
                    &&& old(self)@.world.covered_by(bare(inputs@))
                    &&& final(self)@ == old(self)@.advanced(bare(inputs@))
                    &&& status == status_of(inputs@)
                },
                Err(TickError::StallCondition) => {
                    &&& old(self)@.stalled()
                    &&& final(self)@ == old(self)@
                },
                Err(TickError::MissingInput) => {
                    &&& !old(self)@.stalled()
                    &&& !old(self)@.world.covered_by(bare(inputs@))
                    &&& final(self)@ == old(self)@
                },
            },
    {
        if self.stalled() {
            return Err(TickError::StallCondition);
        }
        let bare_inputs = strip(inputs);
        if !self.world.covered_by(&bare_inputs) {
            return Err(TickError::MissingInput);
        }
        let status = frame_status(inputs);
        self.world.step(&bare_inputs);
        self.frame = self.frame + 1;
        Ok(status)
    }
}

} // verus!
