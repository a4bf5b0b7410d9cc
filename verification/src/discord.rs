use crate::error::GameError;
use crate::mode::Backend;
use std::collections::HashMap;
use vstd::prelude::*;

verus! {

broadcast use vstd::std_specs::hash::group_hash_axioms;

/// A channel that keeps its messages in a queue of its own: what is sent
/// goes to the end of the queue, and what is received is taken from the
/// end. It also keeps, in both directions, which of its names belongs to
/// which player.
#[derive(Debug, Clone)]
pub struct Discord {
    pub queue: Vec<String>,
    pub player_discord: HashMap<i32, i32>,
    pub discord_player: HashMap<i32, i32>,
}

impl Discord {
    /// The texts of the queue, oldest first.
    pub open spec fn texts(&self) -> Seq<Seq<char>> {
        Seq::new(self.queue@.len(), |i: int| self.queue@[i]@)
    }

    /// Makes `discord_id` the channel's name for the player `shess_id`,
    /// and `shess_id` the player behind `discord_id`. An earlier entry for
    /// either is replaced.
    pub fn set_player(&mut self, shess_id: i32, discord_id: i32)
        ensures
            final(self).discord_player@ == old(self).discord_player@.insert(discord_id, shess_id),
            final(self).player_discord@ == old(self).player_discord@.insert(shess_id, discord_id),
            final(self).queue == old(self).queue,
    {
        self.discord_player.insert(discord_id, shess_id);
        self.player_discord.insert(shess_id, discord_id);
    }
}

impl Backend for Discord {
    type Id = i32;

    open spec fn outbox(&self) -> Seq<Seq<char>> {
        self.texts()
    }

    open spec fn backend_id(&self, player: i32) -> Option<i32> {
        if self.player_discord@.contains_key(player) {
            Some(self.player_discord@[player])
        } else {
            None
        }
    }

    open spec fn player_id(&self, id: i32) -> Option<i32> {
        if self.discord_player@.contains_key(id) {
            Some(self.discord_player@[id])
        } else {
            None
        }
    }

    /// A channel with an empty queue that knows no player.
    fn new() -> (backend: Self)
        ensures
            backend.queue@.len() == 0,
            backend.player_discord@ == Map::<i32, i32>::empty(),
            backend.discord_player@ == Map::<i32, i32>::empty(),
    {
        let backend = Self {
            queue: Vec::new(),
            player_discord: HashMap::new(),
            discord_player: HashMap::new(),
        };
        proof {
            assert(backend.texts() =~= Seq::<Seq<char>>::empty());
        }
        backend
    }

    /// Takes the newest text from the queue. Where the queue is empty
    /// this fails with `BackendEmpty` and changes nothing.
    fn receive(&mut self) -> (input: Result<Option<String>, GameError>)
        ensures
            old(self).queue@.len() == 0 ==> input == Err::<Option<String>, GameError>(
                GameError::BackendEmpty,
            ) && final(self).queue@ == old(self).queue@,
            old(self).queue@.len() > 0 ==> input == Ok::<Option<String>, GameError>(
                Some(old(self).queue@.last()),
            ) && final(self).queue@ == old(self).queue@.drop_last(),
            final(self).player_discord == old(self).player_discord,
            final(self).discord_player == old(self).discord_player,
    {
        match self.queue.pop() {
            None => Err(GameError::BackendEmpty),
            Some(input) => Ok(Some(input)),
        }
    }

    /// Puts a message at the end of the queue. This never fails, and the
    /// acknowledgement is empty.
    fn send(&mut self, msg: String) -> (answer: Result<Option<String>, GameError>)
        ensures
            answer == Ok::<Option<String>, GameError>(None),
            final(self).queue@ == old(self).queue@.push(msg),
            final(self).player_discord == old(self).player_discord,
            final(self).discord_player == old(self).discord_player,
    {
        self.queue.push(msg);
        proof {
            assert(self.texts() =~= old(self).texts().push(msg@));
        }
        Ok(None)
    }

    fn player_to_backend(&self, id: i32) -> (name: Result<i32, GameError>) {
        match self.player_discord.get(&id) {
            Some(name) => Ok(*name),
            None => Err(GameError::UnknownPlayerId),
        }
    }

    fn backend_to_player(&self, id: i32) -> (player: Result<i32, GameError>) {
        match self.discord_player.get(&id) {
            Some(player) => Ok(*player),
            None => Err(GameError::UnknownPlayerId),
        }
    }
}

} // verus!
