//! Copies of the world, and the digest by which peers compare them.

use vstd::prelude::*;
use crate::entity::{Bullet, Player};
use crate::world::{World, WorldView};

verus! {

/// Where every digest starts.
pub const DIGEST_SEED: u64 = 0xcbf2_9ce4_8422_2325;

/// The multiplier of one mixing step.
pub const DIGEST_PRIME: u64 = 0x0000_0100_0000_01b3;

/// One mixing step: the word is folded into the digest so far.
pub open spec fn mix(acc: u64, word: u64) -> u64 {
    vstd::wrapping::u64_specs::wrapping_mul(acc ^ word, DIGEST_PRIME)
}

/// The digest after a player: handle, reload timer, x, y, in this order.
pub open spec fn mix_player(acc: u64, p: Player) -> u64 {
    mix(mix(mix(mix(acc, p.handle as u64), p.reload_time as u64), p.position.x as u64), p.position.y as u64)
}

/// The digest after a bullet: x, y, the two components of its heading, and
/// the frames it has left, in this order.
pub open spec fn mix_bullet(acc: u64, b: Bullet) -> u64 {
    mix(
        mix(
            mix(mix(mix(acc, b.position.x as u64), b.position.y as u64), b.velocity.val.x as u64),
            b.velocity.val.y as u64,
        ),
        b.lifetime.val as u64,
    )
}

/// The digest after all of `players`, first to last.
pub open spec fn mix_players(acc: u64, players: Seq<Player>) -> u64
    decreases players.len(),
{
    if players.len() == 0 {
        acc
    } else {
        mix_player(mix_players(acc, players.drop_last()), players.last())
    }
}

/// The digest after all of `bullets`, first to last.
pub open spec fn mix_bullets(acc: u64, bullets: Seq<Bullet>) -> u64
    decreases bullets.len(),
{
    if bullets.len() == 0 {
        acc
    } else {
        mix_bullet(mix_bullets(acc, bullets.drop_last()), bullets.last())
    }
}

/// The digest of a world: the number of players, the players, the number of
/// bullets, the bullets. It covers every field of every entity and nothing
/// else, so two worlds with the same content have the same digest on every machine.
pub open spec fn digest(w: WorldView) -> u64 {
    mix_bullets(
        mix(mix_players(mix(DIGEST_SEED, w.players.len() as u64), w.players), w.bullets.len() as u64),
        w.bullets,
    )
}

/// Folds one word into a digest.
fn fold(acc: u64, word: u64) -> (out: u64)
    ensures
        out == mix(acc, word),
{
    (acc ^ word).wrapping_mul(DIGEST_PRIME)
}

impl World {
    /// A copy of the world as it stands.
    pub fn snapshot(&self) -> (copy: World)
        ensures
            copy@ == self@,
    {
        World { players: self.players.clone(), bullets: self.bullets.clone() }
    }

    /// Puts the world back to what `snapshot` holds.
    pub fn restore(&mut self, snapshot: &World)
        ensures
            final(self)@ == snapshot@,
    {
        self.players = snapshot.players.clone();
        self.bullets = snapshot.bullets.clone();
    }

    /// Whether two worlds have the same content.
    pub fn same_as(&self, other: &World) -> (same: bool)
        ensures
            same == (self@ == other@),
    {
        if self.players.len() != other.players.len() || self.bullets.len() != other.bullets.len() {
            return false;
        }
        let mut i: usize = 0;
        while i < self.players.len()
            invariant
                i <= self.players.len(),
                self.players.len() == other.players.len(),
                self.players@.take(i as int) == other.players@.take(i as int),
            decreases self.players.len() - i,
        {
            if self.players[i] != other.players[i] {
                return false;
            }
            i = i + 1;
        }
        let mut j: usize = 0;
        while j < self.bullets.len()
            invariant
                j <= self.bullets.len(),
                self.bullets.len() == other.bullets.len(),
                self.bullets@.take(j as int) == other.bullets@.take(j as int),
            decreases self.bullets.len() - j,
        {
            if self.bullets[j] != other.bullets[j] {
                return false;
            }
            j = j + 1;
        }
        proof {
            assert(self.players@.take(self.players.len() as int) == self.players@);
            assert(other.players@.take(other.players.len() as int) == other.players@);
            assert(self.bullets@.take(self.bullets.len() as int) == self.bullets@);
            assert(other.bullets@.take(other.bullets.len() as int) == other.bullets@);
        }
        true
    }

    /// The digest that peers exchange to find out whether their worlds differ.
    pub fn checksum(&self) -> (sum: u64)
        ensures
            sum == digest(self@),
    {
        let mut sum = fold(DIGEST_SEED, self.players.len() as u64);
        let mut i: usize = 0;
        while i < self.players.len()
            invariant
                i <= self.players.len(),
                sum == mix_players(
                    mix(DIGEST_SEED, self.players.len() as u64),
                    self.players@.take(i as int),
                ),
            decreases self.players.len() - i,
        {
            let p = self.players[i];
            proof {
                assert(self.players@.take(i + 1).drop_last() == self.players@.take(i as int));
            }
            sum = fold(sum, p.handle as u64);
            sum = fold(sum, p.reload_time as u64);
            sum = fold(sum, p.position.x as u64);
            sum = fold(sum, p.position.y as u64);
            i = i + 1;
        }
        proof {
            assert(self.players@.take(self.players.len() as int) == self.players@);
        }
        sum = fold(sum, self.bullets.len() as u64);
        let ghost start = sum;
        let mut j: usize = 0;
        while j < self.bullets.len()
            invariant
                j <= self.bullets.len(),
                sum == mix_bullets(start, self.bullets@.take(j as int)),
            decreases self.bullets.len() - j,
        {
            let b = self.bullets[j];
            proof {
                assert(self.bullets@.take(j + 1).drop_last() == self.bullets@.take(j as int));
            }
            sum = fold(sum, b.position.x as u64);
            sum = fold(sum, b.position.y as u64);
            sum = fold(sum, b.velocity.val.x as u64);
            sum = fold(sum, b.velocity.val.y as u64);
            sum = fold(sum, b.lifetime.val as u64);
            j = j + 1;
        }
        proof {
            assert(self.bullets@.take(self.bullets.len() as int) == self.bullets@);
        }
        sum
    }
}

} // verus!
