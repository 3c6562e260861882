//! The entity set and the step that carries it from one frame to the next.

use vstd::prelude::*;
use crate::entity::{Bullet, Player};
use crate::input::BoxInput;
use crate::space::{clamp, Point};

verus! {

/// The distance between two neighbouring players at the start: 75 pixels.
pub const PLAYER_SPACING: i64 = 4_500_000_000;

/// The last player whose starting place lies within the `i64` range.
const LAST_SPACED: usize = 2_049_638_230;

/// All entities of the simulation. Both lists keep the order of creation.
#[derive(Debug)]
pub struct World {
    pub players: Vec<Player>,
    pub bullets: Vec<Bullet>,
}

/// The mathematical content of a `World`.
pub struct WorldView {
    pub players: Seq<Player>,
    pub bullets: Seq<Bullet>,
}

impl View for World {
    type V = WorldView;

    open spec fn view(&self) -> WorldView {
        WorldView { players: self.players@, bullets: self.bullets@ }
    }
}

/// Player `i` as the session begins: in a row along the x axis, ready to fire.
pub open spec fn newcomer(i: int) -> Player {
    Player {
        handle: i as usize,
        reload_time: 0,
        position: Point { x: clamp(i * PLAYER_SPACING) as i64, y: 0 },
    }
}

/// What a player fires in a frame with these inputs, if anything.
pub open spec fn firing(inputs: Seq<BoxInput>) -> spec_fn(Player) -> Option<Bullet> {
    |p: Player|
        if p.fires(inputs[p.handle as int]) {
            Some(p.shot(inputs[p.handle as int]))
        } else {
            None
        }
}

/// What a frame with these inputs makes of a player.
pub open spec fn steering_by(inputs: Seq<BoxInput>) -> spec_fn(Player) -> Player {
    |p: Player| p.after(inputs[p.handle as int])
}

/// The bullets one frame further along.
pub open spec fn drifted(bullets: Seq<Bullet>) -> Seq<Bullet> {
    bullets.map_values(|b: Bullet| b.drifted())
}

/// The bullets one frame older, without those whose time has run out. The
/// ones that stay keep their order.
pub open spec fn outlived(bullets: Seq<Bullet>) -> Seq<Bullet> {
    bullets.map_values(|b: Bullet| b.aged()).filter(|b: Bullet| b.alive())
}

impl WorldView {
    /// Whether `inputs` holds an input for every player.
    pub open spec fn covered_by(self, inputs: Seq<BoxInput>) -> bool {
        forall|i: int|
            0 <= i < self.players.len() ==> (#[trigger] self.players[i]).handle < inputs.len()
    }

    /// The players after a frame with these inputs.
    pub open spec fn players_after(self, inputs: Seq<BoxInput>) -> Seq<Player> {
        self.players.map_values(steering_by(inputs))
    }

    /// The bullets fired in a frame with these inputs, in the order of the players.
    pub open spec fn shots(self, inputs: Seq<BoxInput>) -> Seq<Bullet> {
        self.players.filter_map(firing(inputs))
    }

    /// The world one frame later. Players move, fire and reload; the bullets
    /// that were in flight move and age, and those whose time has run out are
    /// gone; the bullets fired in this frame join behind the others, untouched
    /// until the next frame.
    pub open spec fn step(self, inputs: Seq<BoxInput>) -> WorldView {
        WorldView {
            players: self.players_after(inputs),
            bullets: outlived(drifted(self.bullets)) + self.shots(inputs),
        }
    }
}

/// Where player `i` starts along the x axis.
fn starting_x(i: usize) -> (x: i64)
    ensures
        x == clamp(i * PLAYER_SPACING),
{
    if i <= LAST_SPACED {
        (i as i64) * PLAYER_SPACING
    } else {
        i64::MAX
    }
}

/// The world as a session of `pnum` players begins: the players in a row, no
/// bullet in flight.
pub fn setup(pnum: usize) -> (world: World)
    ensures
        world@.players == Seq::new(pnum as nat, |i: int| newcomer(i)),
        world@.bullets == Seq::<Bullet>::empty(),
{
    let mut players: Vec<Player> = Vec::new();
    let mut i: usize = 0;
    while i < pnum
        invariant
            i <= pnum,
            players@ == Seq::new(i as nat, |j: int| newcomer(j)),
        decreases pnum - i,
    {
        players.push(
            Player { handle: i, reload_time: 0, position: Point { x: starting_x(i), y: 0 } },
        );
        i = i + 1;
    }
    World { players, bullets: Vec::new() }
}

impl World {
    /// Whether `inputs` holds an input for every player.
    pub fn covered_by(&self, inputs: &Vec<BoxInput>) -> (covered: bool)
        ensures
            covered == self@.covered_by(inputs@),
    {
        let mut i: usize = 0;
        while i < self.players.len()
            invariant
                i <= self.players.len(),
                forall|j: int| 0 <= j < i ==> (#[trigger] self@.players[j]).handle < inputs@.len(),
            decreases self.players.len() - i,
        {
            if self.players[i].handle >= inputs.len() {
                assert(!(self@.players[i as int].handle < inputs@.len()));
                return false;
            }
            i = i + 1;
        }
        true
    }

    /// Moves every player, lets it fire and reload. The bullets fired are
    /// handed out in the order of the players; they are not yet in the world.
    pub fn move_players(&mut self, inputs: &Vec<BoxInput>) -> (spawned: Vec<Bullet>)
        requires
            old(self)@.covered_by(inputs@),
        ensures
            final(self)@.players == old(self)@.players_after(inputs@),
            final(self)@.bullets == old(self)@.bullets,
            spawned@ == old(self)@.shots(inputs@),
    {
        let ghost before = self.players@;
        let mut spawned: Vec<Bullet> = Vec::new();
        let n = self.players.len();
        let mut i: usize = 0;
        assert forall|j: int| 0 <= j < n implies (#[trigger] before[j]).handle < inputs@.len() by {
            assert(old(self)@.players[j].handle < inputs@.len());
        }
        while i < n
            invariant
                i <= n,
                n == before.len(),
                self.players@.len() == n,
                self.bullets@ == old(self).bullets@,
                forall|j: int| 0 <= j < n ==> (#[trigger] before[j]).handle < inputs@.len(),
                forall|j: int|
                    0 <= j < i ==> #[trigger] self.players@[j] == steering_by(inputs@)(before[j]),
                forall|j: int| i <= j < n ==> #[trigger] self.players@[j] == before[j],
                spawned@ == before.take(i as int).filter_map(firing(inputs@)),
            decreases n - i,
        {
            let mut player = self.players[i];
            let input = inputs[player.handle];
            let fired = player.advance(input);
            self.players.set(i, player);
            proof {
                before.lemma_filter_map_take_succ(firing(inputs@), i as int);
            }
            match fired {
                Some(bullet) => {
                    spawned.push(bullet);
                },
                None => {},
            }
            i = i + 1;
        }
        proof {
            assert(before.take(n as int) == before);
        }
        spawned
    }

    /// Moves every bullet along its heading.
    pub fn move_objects(&mut self)
        ensures
            final(self)@.players == old(self)@.players,
            final(self)@.bullets == drifted(old(self)@.bullets),
    {
        let ghost before = self.bullets@;
        let n = self.bullets.len();
        let mut i: usize = 0;
        while i < n
            invariant
                i <= n,
                n == before.len(),
                self.bullets@.len() == n,
                self.players@ == old(self).players@,
                forall|j: int| 0 <= j < i ==> #[trigger] self.bullets@[j] == before[j].drifted(),
                forall|j: int| i <= j < n ==> #[trigger] self.bullets@[j] == before[j],
            decreases n - i,
        {
            let mut bullet = self.bullets[i];
            bullet.drift();
            self.bullets.set(i, bullet);
            i = i + 1;
        }
    }

    /// Ages every bullet and removes, in this same frame, each one whose
    /// time has run out. The others keep their order.
    pub fn age_mortals(&mut self)
        ensures
            final(self)@.players == old(self)@.players,
            final(self)@.bullets == outlived(old(self)@.bullets),
    {
        let ghost before = self.bullets@;
        let ghost aged = before.map_values(|b: Bullet| b.aged());
        let ghost alive = |b: Bullet| b.alive();
        let mut kept: Vec<Bullet> = Vec::new();
        let n = self.bullets.len();
        let mut i: usize = 0;
        proof {
            reveal(Seq::filter);
        }
        while i < n
            invariant
                i <= n,
                n == before.len(),
                self.bullets@ == before,
                self.players@ == old(self).players@,
                aged == before.map_values(|b: Bullet| b.aged()),
                alive == |b: Bullet| b.alive(),
                kept@ == aged.take(i as int).filter(alive),
            decreases n - i,
        {
            let mut bullet = self.bullets[i];
            let lives = bullet.age();
            proof {
                assert(aged.take(i + 1) == aged.take(i as int).push(aged[i as int]));
                aged.take(i as int).lemma_filter_push(aged[i as int], alive);
            }
            if lives {
                kept.push(bullet);
            }
            i = i + 1;
        }
        proof {
            assert(aged.take(n as int) == aged);
        }
        self.bullets = kept;
    }

    /// Plays one frame: players first, then the bullets in flight, then their
    /// ageing; the bullets fired in this frame enter the world last.
    pub fn step(&mut self, inputs: &Vec<BoxInput>)
        requires
            old(self)@.covered_by(inputs@),
        ensures
            final(self)@ == old(self)@.step(inputs@),
    {
        let mut spawned = self.move_players(inputs);
        self.move_objects();
        self.age_mortals();
        self.bullets.append(&mut spawned);
    }
}

} // verus!
