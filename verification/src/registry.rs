//! Server-side bookkeeping of connected clients: the player spawned for each
//! client link, and the set of client ids in use.

use crate::decimal::{decimal_digits, with_decimal_suffix};
use std::collections::HashMap;
use std::collections::HashSet;
use vstd::prelude::*;

verus! {

broadcast use vstd::std_specs::hash::group_hash_axioms;

/// What the server remembers of a connected client: its peer id and the
/// entity of the player spawned for it, both by their numeric ids.
#[derive(Clone, Copy, Debug, PartialEq, Eq, Structural)]
pub struct PlayerRecord {
    pub peer: u64,
    pub player: u64,
}

/// Maps each client link to the player spawned for it, and counts the
/// players spawned so far (which numbers their names).
pub struct PlayerRegistry {
    next_id: u64,
    client_to_player: HashMap<u64, PlayerRecord>,
}

impl PlayerRegistry {
    /// The player recorded for each client link.
    pub closed spec fn players(&self) -> Map<u64, PlayerRecord> {
        self.client_to_player@
    }

    /// How many players have been registered with a number so far.
    pub closed spec fn next_id(&self) -> u64 {
        self.next_id
    }

    /// An empty registry.
    pub fn new() -> (r: PlayerRegistry)
        ensures
            r.players() == Map::<u64, PlayerRecord>::empty(),
            r.next_id() == 0,
    {
        PlayerRegistry { next_id: 0, client_to_player: HashMap::new() }
    }

    /// The number the next registered player gets.
    pub fn next_number(&self) -> (n: u64)
        ensures
            n == self.next_id(),
    {
        self.next_id
    }

    /// Records the player spawned for a newly connected client link and
    /// gives the player its number, which is then used up.
    pub fn register(&mut self, link: u64, record: PlayerRecord) -> (id: u64)
        requires
            old(self).next_id() < u64::MAX,
        ensures
            id == old(self).next_id(),
            final(self).next_id() == old(self).next_id() + 1,
            final(self).players() == old(self).players().insert(link, record),
    {
        let id = self.next_id;
        self.next_id = self.next_id + 1;
        self.client_to_player.insert(link, record);
        id
    }

    /// Records the player spawned for a client link without numbering it.
    pub fn track(&mut self, link: u64, record: PlayerRecord)
        ensures
            final(self).next_id() == old(self).next_id(),
            final(self).players() == old(self).players().insert(link, record),
    {
        self.client_to_player.insert(link, record);
    }

    /// Forgets a disconnected client link and hands back the player that was
    /// recorded for it, if any, so that it can be despawned.
    pub fn unregister(&mut self, link: u64) -> (r: Option<PlayerRecord>)
        ensures
            r == (if old(self).players().contains_key(link) {
                Some(old(self).players()[link])
            } else {
                None
            }),
            final(self).players() == old(self).players().remove(link),
            final(self).next_id() == old(self).next_id(),
    {
        self.client_to_player.remove(&link)
    }

    /// The player recorded for a client link, if any.
    pub fn player_of(&self, link: u64) -> (r: Option<PlayerRecord>)
        ensures
            r == (if self.players().contains_key(link) {
                Some(self.players()[link])
            } else {
                None
            }),
    {
        match self.client_to_player.get(&link) {
            Some(rec) => Some(*rec),
            None => None,
        }
    }

    /// Number of client links with a player.
    pub fn len(&self) -> (n: usize)
        ensures
            n == self.players().len(),
    {
        self.client_to_player.len()
    }
}

/// The name of the player numbered `id`: `Player_` followed by the number.
pub open spec fn spec_player_name(id: u64) -> Seq<char> {
    "Player_"@ + decimal_digits(id as nat)
}

pub fn player_name(id: u64) -> (s: String)
    ensures
        s@ == spec_player_name(id),
{
    with_decimal_suffix("Player_", id)
}

/// A client that disconnects right after connecting leaves the table of
/// players as it was before, and the player handed back is the one that was
/// recorded.
pub proof fn law_unregister_undoes_register(
    players: Map<u64, PlayerRecord>,
    link: u64,
    record: PlayerRecord,
)
    requires
        !players.contains_key(link),
    ensures
        players.insert(link, record).remove(link) == players,
        players.insert(link, record).contains_key(link),
        players.insert(link, record)[link] == record,
{
    assert(players.insert(link, record).remove(link) =~= players);
}

/// Players numbered at different times get different names.
pub proof fn law_player_names_distinct(a: u64, b: u64)
    requires
        a != b,
    ensures
        spec_player_name(a) != spec_player_name(b),
{
    crate::decimal::law_decimal_roundtrip(a);
    crate::decimal::law_decimal_roundtrip(b);
    let p = "Player_"@;
    let sa = p + decimal_digits(a as nat);
    let sb = p + decimal_digits(b as nat);
    if sa == sb {
        assert(sa.subrange(p.len() as int, sa.len() as int) =~= decimal_digits(a as nat));
        assert(sb.subrange(p.len() as int, sb.len() as int) =~= decimal_digits(b as nat));
    }
}

/// The ids of the clients currently connected to a server.
pub struct ClientIdSet {
    ids: HashSet<u64>,
}

impl ClientIdSet {
    /// The ids in use.
    pub closed spec fn ids(&self) -> Set<u64> {
        self.ids@
    }

    pub fn new() -> (r: ClientIdSet)
        ensures
            r.ids() == Set::<u64>::empty(),
    {
        ClientIdSet { ids: HashSet::new() }
    }

    /// Marks `id` as in use (a client with that id connected).
    pub fn connect(&mut self, id: u64)
        ensures
            final(self).ids() == old(self).ids().insert(id),
    {
        self.ids.insert(id);
    }

    /// Marks `id` as free (the client with that id disconnected).
    pub fn disconnect(&mut self, id: u64)
        ensures
            final(self).ids() == old(self).ids().remove(id),
    {
        self.ids.remove(&id);
    }

    /// Whether `id` is in use.
    pub fn contains(&self, id: u64) -> (r: bool)
        ensures
            r == self.ids().contains(id),
    {
        self.ids.contains(&id)
    }

    /// Decides on a randomly drawn candidate for a new client's id: it is
    /// issued when no connected client holds it, otherwise another must be
    /// drawn.
    pub fn accept_candidate(&self, candidate: u64) -> (r: Option<u64>)
        ensures
            r == (if self.ids().contains(candidate) {
                None
            } else {
                Some(candidate)
            }),
    {
        if self.ids.contains(&candidate) {
            None
        } else {
            Some(candidate)
        }
    }
}

/// An id that is issued is held by no connected client, and once that
/// client connects it is held until it disconnects.
pub proof fn law_issued_ids_unique(ids: Set<u64>, candidate: u64)
    requires
        !ids.contains(candidate),
    ensures
        ids.insert(candidate).contains(candidate),
        ids.insert(candidate).remove(candidate) == ids,
{
    assert(ids.insert(candidate).remove(candidate) =~= ids);
}

} // verus!
