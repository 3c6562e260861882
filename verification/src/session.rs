//! Who takes part in a session: the peer list and the settings that stay
//! fixed once the session has started.

use vstd::prelude::*;

verus! {

/// Frames by which a local input is delayed, so that it can reach the peers
/// before its frame is due.
pub const INPUT_DELAY: usize = 2;

/// How many frames the simulation may run ahead of the confirmed ones.
pub const PREDICTION_WINDOW: u16 = 12;

/// Frames between two exchanges of digests.
pub const CHECKSUM_INTERVAL: u32 = 10;

/// What one entry of the peer list turned out to be.
#[derive(Clone, Copy, Debug, PartialEq, Eq, Structural)]
pub enum Peer {
    /// The player at this machine.
    Local,
    /// A player at another machine, given by a socket address.
    Remote,
    /// Neither: the text is not a socket address.
    Unparseable,
}

/// Why a session cannot be created.
#[derive(Clone, Copy, Debug, PartialEq, Eq, Structural)]
pub enum ConfigurationError {
    /// The entry at `index` of the peer list is not a socket address.
    BadAddress { index: usize },
    /// The peer list names `locals` local players, and not exactly one.
    PlayerCountMismatch { locals: usize },
}

/// What a valid peer list settles.
#[derive(Clone, Copy, Debug, PartialEq, Eq, Structural)]
pub struct Roster {
    /// The number of players; their handles are the indices of the peer list.
    pub num_players: usize,
    /// The handle of the local player.
    pub local_handle: usize,
}

/// The entries that stand for the local player.
pub open spec fn local() -> spec_fn(Peer) -> bool {
    |p: Peer| p is Local
}

/// How many entries of the peer list stand for the local player.
pub open spec fn locals(peers: Seq<Peer>) -> nat {
    peers.filter(local()).len()
}

/// Whether every entry of the peer list could be read.
pub open spec fn all_parse(peers: Seq<Peer>) -> bool {
    forall|i: int| 0 <= i < peers.len() ==> !((#[trigger] peers[i]) is Unparseable)
}

/// What one argument of the peer list stands for: `localhost` is the local
/// player, anything else must be the socket address of a remote one.
/// `is_address` tells whether the argument can be read as a socket address.
pub fn peer_of(arg: &String, is_address: bool) -> (peer: Peer)
    ensures
        peer == (if arg@ == "localhost"@ {
            Peer::Local
        } else if is_address {
            Peer::Remote
        } else {
            Peer::Unparseable
        }),
{
    let local = "localhost".to_owned();
    if *arg == local {
        Peer::Local
    } else if is_address {
        Peer::Remote
    } else {
        Peer::Unparseable
    }
}

/// Checks a peer list. It is valid if every entry could be read and exactly
/// one entry is local. The first entry that could not be read is reported
/// before a wrong number of local players.
pub fn enroll(peers: &Vec<Peer>) -> (result: Result<Roster, ConfigurationError>)
    ensures
        match result {
            Ok(roster) => {
                &&& all_parse(peers@)
                &&& locals(peers@) == 1
                &&& roster.num_players == peers@.len()
                &&& roster.local_handle < peers@.len()
                &&& peers@[roster.local_handle as int] is Local
            },
            Err(ConfigurationError::BadAddress { index }) => {
                &&& index < peers@.len()
                &&& peers@[index as int] is Unparseable
                &&& all_parse(peers@.take(index as int))
            },
            Err(ConfigurationError::PlayerCountMismatch { locals: found }) => {
                &&& all_parse(peers@)
                &&& found == locals(peers@)
                &&& found != 1
            },
        },
{
    let mut found: usize = 0;
    let mut local_handle: usize = 0;
    let mut i: usize = 0;
    proof {
        reveal(Seq::filter);
    }
    while i < peers.len()
        invariant
            i <= peers.len(),
            all_parse(peers@.take(i as int)),
            found == locals(peers@.take(i as int)),
            found <= i,
            found > 0 ==> local_handle < i && peers@[local_handle as int] is Local,
        decreases peers.len() - i,
    {
        proof {
            assert(peers@.take(i + 1) == peers@.take(i as int).push(peers@[i as int]));
            peers@.take(i as int).lemma_filter_push(peers@[i as int], local());
        }
        match peers[i] {
            Peer::Unparseable => {
                return Err(ConfigurationError::BadAddress { index: i });
            },
            Peer::Local => {
                found = found + 1;
                local_handle = i;
            },
            Peer::Remote => {},
        }
        i = i + 1;
    }
    proof {
        assert(peers@.take(peers.len() as int) == peers@);
    }
    if found == 1 {
        Ok(Roster { num_players: peers.len(), local_handle })
    } else {
        Err(ConfigurationError::PlayerCountMismatch { locals: found })
    }
}

} // verus!
