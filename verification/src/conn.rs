//! A single logical store handle and the domain operations.
//!
//! The connection owns the table contents and is the only component that
//! touches them. It enforces the schema's constraints itself — uniqueness is
//! decided at insertion, never by a separate look-then-write round trip of
//! the caller — and reports violations as distinguishable error kinds for
//! the caller to branch on. A connection is exclusive to its holder: every
//! operation goes through `&self` or `&mut self`.

use vstd::prelude::*;

use crate::ids::{InternalPlayerId, PlayerId, Username};
use crate::model::{
    empty_store, found_player, has_name, has_player, lemma_wf_new_player,
    lemma_wf_upserted_name, name_index, names_for, new_player_row, player_index, store_wf,
    upserted_name, valid_player_ref, with_new_player, with_tables, StoreView,
};
use crate::rows::{
    MatchPlayerRow, MatchRow, NameRow, NameRowV, NewNameRow, NewPlayerRow, PlayerRow, Timestamp,
};
use crate::telemetry::Player;

verus! {

/// Surrogate keys are 32-bit: a table can hold at most this many rows.
pub const MAX_TABLE_ROWS: usize = 0x7fff_ffff;

/// An expected, ordinary failure of a domain operation: a uniqueness
/// constraint rejected an insert, or a point lookup found nothing. Callers
/// branch on these; they are never swallowed or retried here.
#[derive(Debug, Clone, Copy, PartialEq, Eq, Structural, Hash)]
pub enum DbError {
    /// A uniqueness constraint was violated on insert.
    Duplicate,
    /// A point lookup for an identifier that does not exist, or a reference
    /// to a player row that does not exist.
    NotFound,
}

/// A handle on the store: the four tables and whether the schema has been
/// materialized.
pub struct Connection {
    tables_created: bool,
    players: Vec<PlayerRow>,
    names: Vec<NameRow>,
    matches: Vec<MatchRow>,
    match_players: Vec<MatchPlayerRow>,
}

impl View for Connection {
    type V = StoreView;

    closed spec fn view(&self) -> StoreView {
        StoreView {
            created: self.tables_created,
            players: self.players@.map_values(|r: PlayerRow| r@),
            names: self.names@.map_values(|r: NameRow| r@),
            matches: self.matches@.map_values(|r: MatchRow| r@),
            match_players: self.match_players@.map_values(|r: MatchPlayerRow| r@),
        }
    }
}

impl Connection {
    /// The store invariant, as seen through the view.
    pub open spec fn wf(&self) -> bool {
        store_wf(self@)
    }

    /// Opens a handle on a fresh, empty in-memory store: no schema, no rows.
    pub fn open_in_memory() -> (result: Connection)
        ensures
            result.wf(),
            result@ == empty_store(),
    {
        let conn = Connection {
            tables_created: false,
            players: Vec::new(),
            names: Vec::new(),
            matches: Vec::new(),
            match_players: Vec::new(),
        };
        proof {
            assert(conn@ =~= empty_store());
        }
        conn
    }

    /// Materializes the schema. Idempotent and safe to invoke on every
    /// process start: rows already present are untouched.
    pub fn create_tables(&mut self)
        requires
            old(self).wf(),
        ensures
            final(self).wf(),
            final(self)@ == with_tables(old(self)@),
    {
        self.tables_created = true;
        proof {
            assert(self@ =~= with_tables(old(self)@));
        }
    }

    /// Inserts a new player row for a platform identifier.
    ///
    /// Succeeds if and only if no row carries `player_id` yet; the store
    /// assigns the next surrogate key. On a duplicate the store is left
    /// unchanged and the constraint violation is surfaced, never hidden.
    pub fn add_player_id(&mut self, player_id: &PlayerId) -> (result: Result<PlayerRow, DbError>)
        requires
            old(self).wf(),
            old(self)@.created,
            old(self)@.players.len() < MAX_TABLE_ROWS,
        ensures
            final(self).wf(),
            match result {
                Ok(row) => {
                    &&& !has_player(old(self)@, player_id@)
                    &&& row@ == new_player_row(old(self)@, player_id@)
                    &&& final(self)@ == with_new_player(old(self)@, player_id@)
                },
                Err(e) => {
                    &&& e == DbError::Duplicate
                    &&& has_player(old(self)@, player_id@)
                    &&& final(self)@ == old(self)@
                },
            },
    {
        let new_player = NewPlayerRow { slap_id: player_id.clone() };
        let n = self.players.len();
        let mut i: usize = 0;
        while i < n
            invariant
                self.wf(),
                self@ == old(self)@,
                n == self.players.len(),
                i <= n,
                forall|k: int| 0 <= k < i ==> self@.players[k].slap_id != player_id@,
            decreases n - i,
        {
            if self.players[i].slap_id == *player_id {
                proof {
                    assert(self@.players[i as int].slap_id == player_id@);
                    assert(has_player(self@, player_id@));
                }
                return Err(DbError::Duplicate);
            }
            i += 1;
        }
        proof {
            assert(!has_player(self@, player_id@));
            lemma_wf_new_player(self@, player_id@);
        }
        let internal_id = InternalPlayerId::new((n as i32) + 1);
        let row = PlayerRow { internal_id, slap_id: new_player.slap_id };
        let returned = row.clone();
        self.players.push(row);
        proof {
            assert(self@.players =~= old(self)@.players.push(
                new_player_row(old(self)@, player_id@),
            ));
            assert(self@ =~= with_new_player(old(self)@, player_id@));
        }
        Ok(returned)
    }

    /// Point lookup of a player by platform identifier.
    ///
    /// Succeeds if and only if the player has been added; otherwise it fails
    /// with the not-found kind.
    pub fn get_player(&self, id: &PlayerId) -> (result: Result<PlayerRow, DbError>)
        requires
            self.wf(),
            self@.created,
        ensures
            match result {
                Ok(row) => {
                    &&& has_player(self@, id@)
                    &&& row@ == found_player(self@, id@)
                },
                Err(e) => {
                    &&& e == DbError::NotFound
                    &&& !has_player(self@, id@)
                },
            },
    {
        let n = self.players.len();
        let mut i: usize = 0;
        while i < n
            invariant
                n == self.players.len(),
                i <= n,
                self.wf(),
                forall|k: int| 0 <= k < i ==> self@.players[k].slap_id != id@,
            decreases n - i,
        {
            if self.players[i].slap_id == *id {
                let row = self.players[i].clone();
                proof {
                    assert(self@.players[i as int].slap_id == id@);
                    assert(has_player(self@, id@));
                    let j = player_index(self@, id@);
                    assert(0 <= j < self@.players.len() && self@.players[j].slap_id == id@);
                    assert(j == i as int);
                }
                return Ok(row);
            }
            i += 1;
        }
        Err(DbError::NotFound)
    }

    /// Insert-or-touch of one alias at an explicit time.
    ///
    /// Attempts to insert the pair (player, alias text); on a uniqueness
    /// conflict on that exact pair the row is not duplicated — its
    /// `last_used` is advanced to `now` instead. The decision and the write
    /// are one operation on the store, never a separate read-then-write of
    /// the caller. Fails with the not-found kind if and only if the row
    /// references no existing player.
    pub fn add_or_update_player_name_at(
        &mut self,
        player_row: &PlayerRow,
        username: &Username,
        now: Timestamp,
    ) -> (result: Result<NameRow, DbError>)
        requires
            old(self).wf(),
            old(self)@.created,
        ensures
            final(self).wf(),
            match result {
                Ok(row) => {
                    &&& valid_player_ref(old(self)@, player_row@.internal_id)
                    &&& row@ == (NameRowV {
                        player_id: player_row@.internal_id,
                        name: username@,
                        last_used: now@,
                    })
                    &&& final(self)@ == upserted_name(
                        old(self)@,
                        player_row@.internal_id,
                        username@,
                        now@,
                    )
                },
                Err(e) => {
                    &&& e == DbError::NotFound
                    &&& !valid_player_ref(old(self)@, player_row@.internal_id)
                    &&& final(self)@ == old(self)@
                },
            },
    {
        let pid = player_row.internal_id;
        let pid_val = pid.value();
        if pid_val < 1 || pid_val as usize > self.players.len() {
            return Err(DbError::NotFound);
        }
        let ghost pid_v = player_row@.internal_id;
        let n = self.names.len();
        let mut i: usize = 0;
        while i < n
            invariant
                self.wf(),
                self@ == old(self)@,
                n == self.names.len(),
                i <= n,
                pid_val as int == pid_v,
                pid_v == player_row@.internal_id,
                valid_player_ref(old(self)@, pid_v),
                forall|k: int|
                    0 <= k < i ==> !((#[trigger] self@.names[k]).player_id == pid_v
                        && self@.names[k].name == username@),
            decreases n - i,
        {
            if self.names[i].player_id.value() == pid_val && self.names[i].name == *username {
                let mut row = self.names[i].clone();
                row.last_used = now;
                let returned = row.clone();
                proof {
                    assert(self@.names[i as int].player_id == pid_v);
                    assert(self@.names[i as int].name == username@);
                    assert(has_name(self@, pid_v, username@));
                    let j = name_index(self@, pid_v, username@);
                    assert(0 <= j < self@.names.len() && self@.names[j].player_id == pid_v
                        && self@.names[j].name == username@);
                    assert(j == i as int);
                    lemma_wf_upserted_name(self@, pid_v, username@, now@);
                }
                self.names.set(i, row);
                proof {
                    assert(self@.names =~= old(self)@.names.update(
                        i as int,
                        NameRowV { player_id: pid_v, name: username@, last_used: now@ },
                    ));
                    assert(self@ =~= upserted_name(old(self)@, pid_v, username@, now@));
                }
                return Ok(returned);
            }
            i += 1;
        }
        proof {
            assert(!has_name(self@, pid_v, username@));
            lemma_wf_upserted_name(self@, pid_v, username@, now@);
        }
        let new_name = NewNameRow { player_id: pid, name: username.clone() };
        let row = NameRow { player_id: new_name.player_id, name: new_name.name, last_used: now };
        let returned = row.clone();
        self.names.push(row);
        proof {
            assert(self@.names =~= old(self)@.names.push(
                NameRowV { player_id: pid_v, name: username@, last_used: now@ },
            ));
            assert(self@ =~= upserted_name(old(self)@, pid_v, username@, now@));
        }
        Ok(returned)
    }

    /// Insert-or-touch of one alias at the current wall-clock time.
    ///
    /// As `add_or_update_player_name_at`, with `now` read from the machine's
    /// clock; the returned row carries the time that was written.
    pub fn add_or_update_player_name(
        &mut self,
        player_row: &PlayerRow,
        username: &Username,
    ) -> (result: Result<NameRow, DbError>)
        requires
            old(self).wf(),
            old(self)@.created,
        ensures
            final(self).wf(),
            match result {
                Ok(row) => {
                    &&& valid_player_ref(old(self)@, player_row@.internal_id)
                    &&& row@.player_id == player_row@.internal_id
                    &&& row@.name == username@
                    &&& final(self)@ == upserted_name(
                        old(self)@,
                        player_row@.internal_id,
                        username@,
                        row@.last_used,
                    )
                },
                Err(e) => {
                    &&& e == DbError::NotFound
                    &&& !valid_player_ref(old(self)@, player_row@.internal_id)
                    &&& final(self)@ == old(self)@
                },
            },
    {
        let now = Timestamp::now();
        self.add_or_update_player_name_at(player_row, username, now)
    }

    /// Creates the player row for a platform player and records their
    /// current display name as the first alias, as one transaction.
    ///
    /// Both writes commit or neither does: on a duplicate platform
    /// identifier the store is exactly as before, never left with an
    /// orphaned player row. The alias write cannot fail here, because it
    /// references the player row created in the same transaction.
    pub fn add_player(&mut self, player: &Player) -> (result: Result<NameRow, DbError>)
        requires
            old(self).wf(),
            old(self)@.created,
            old(self)@.players.len() < MAX_TABLE_ROWS,
        ensures
            final(self).wf(),
            match result {
                Ok(row) => {
                    &&& !has_player(old(self)@, player.game_user_id@)
                    &&& row@.player_id == old(self)@.players.len() + 1
                    &&& row@.name == player.username@
                    &&& final(self)@ == upserted_name(
                        with_new_player(old(self)@, player.game_user_id@),
                        (old(self)@.players.len() + 1) as int,
                        player.username@,
                        row@.last_used,
                    )
                },
                Err(e) => {
                    &&& e == DbError::Duplicate
                    &&& has_player(old(self)@, player.game_user_id@)
                    &&& final(self)@ == old(self)@
                },
            },
    {
        let player_row = match self.add_player_id(&player.game_user_id) {
            Ok(row) => row,
            Err(e) => {
                return Err(e);
            },
        };
        match self.add_or_update_player_name(&player_row, &player.username) {
            Ok(row) => Ok(row),
            Err(e) => {
                proof {
                    assert(valid_player_ref(
                        with_new_player(old(self)@, player.game_user_id@),
                        player_row@.internal_id,
                    ));
                    assert(false);
                }
                Err(e)
            },
        }
    }

    /// All aliases ever used by a player, in the order they were first
    /// recorded.
    pub fn get_player_names(&self, player_row: &PlayerRow) -> (result: Vec<NameRow>)
        requires
            self.wf(),
            self@.created,
        ensures
            result@.map_values(|r: NameRow| r@) == names_for(
                self@.names,
                player_row@.internal_id,
            ),
    {
        names_of_player(&self.names, &player_row.internal_id)
    }

    /// Every player paired with all of their aliases: one entry per player
    /// row, in surrogate-key order, and a player with no recorded aliases
    /// appears with an empty list, not as a missing entry. The two tables
    /// are read whole and joined in memory by surrogate key.
    pub fn get_all_player_names(&self) -> (result: Vec<(PlayerRow, Vec<NameRow>)>)
        requires
            self.wf(),
            self@.created,
        ensures
            result@.len() == self@.players.len(),
            forall|i: int|
                0 <= i < result@.len() ==> {
                    &&& (#[trigger] result@[i]).0@ == self@.players[i]
                    &&& result@[i].1@.map_values(|r: NameRow| r@) == names_for(
                        self@.names,
                        self@.players[i].internal_id,
                    )
                },
    {
        group_player_names(&self.players, &self.names)
    }
}

/// All rows of a loaded names table that belong to one player, in their
/// loaded order.
pub fn names_of_player(names: &Vec<NameRow>, player_id: &InternalPlayerId) -> (result: Vec<
    NameRow,
>)
    ensures
        result@.map_values(|r: NameRow| r@) == names_for(
            names@.map_values(|r: NameRow| r@),
            player_id@,
        ),
{
    let ghost table = names@.map_values(|r: NameRow| r@);
    let ghost pid_v = player_id@;
    let pid_val = player_id.value();
    let n = names.len();
    let mut out: Vec<NameRow> = Vec::new();
    let mut i: usize = 0;
    proof {
        assert(table.subrange(0, 0) =~= Seq::<NameRowV>::empty());
        reveal(Seq::filter);
        assert(out@.map_values(|r: NameRow| r@) =~= names_for(table.subrange(0, 0), pid_v));
    }
    while i < n
        invariant
            n == names.len(),
            i <= n,
            table == names@.map_values(|r: NameRow| r@),
            pid_val as int == pid_v,
            out@.map_values(|r: NameRow| r@) == names_for(table.subrange(0, i as int), pid_v),
        decreases n - i,
    {
        let ghost prefix = table.subrange(0, i as int);
        let ghost prefix1 = table.subrange(0, i as int + 1);
        proof {
            assert(prefix1.drop_last() =~= prefix);
            assert(prefix1.last() == table[i as int]);
        }
        if names[i].player_id.value() == pid_val {
            out.push(names[i].clone());
            proof {
                reveal(Seq::filter);
                assert(names_for(prefix1, pid_v) =~= names_for(prefix, pid_v).push(
                    table[i as int],
                ));
                assert(out@.map_values(|r: NameRow| r@) =~= names_for(prefix1, pid_v));
            }
        } else {
            proof {
                reveal(Seq::filter);
                assert(table[i as int].player_id != pid_v);
                assert(names_for(prefix1, pid_v) =~= names_for(prefix, pid_v));
            }
        }
        i += 1;
    }
    proof {
        assert(table.subrange(0, n as int) =~= table);
    }
    out
}

/// Joins a loaded players table with a loaded names table in memory by
/// surrogate key: one entry per player row, in their loaded order, each
/// with exactly that player's name rows; a player without name rows gets
/// the empty list.
pub fn group_player_names(players: &Vec<PlayerRow>, names: &Vec<NameRow>) -> (result: Vec<
    (PlayerRow, Vec<NameRow>),
>)
    ensures
        result@.len() == players@.len(),
        forall|i: int|
            0 <= i < result@.len() ==> {
                &&& (#[trigger] result@[i]).0 == players@[i]
                &&& result@[i].1@.map_values(|r: NameRow| r@) == names_for(
                    names@.map_values(|r: NameRow| r@),
                    players@[i]@.internal_id,
                )
            },
{
    let ghost table = names@.map_values(|r: NameRow| r@);
    let n = players.len();
    let mut out: Vec<(PlayerRow, Vec<NameRow>)> = Vec::new();
    let mut i: usize = 0;
    while i < n
        invariant
            n == players.len(),
            i <= n,
            table == names@.map_values(|r: NameRow| r@),
            out@.len() == i,
            forall|k: int|
                0 <= k < i ==> {
                    &&& (#[trigger] out@[k]).0 == players@[k]
                    &&& out@[k].1@.map_values(|r: NameRow| r@) == names_for(
                        table,
                        players@[k]@.internal_id,
                    )
                },
        decreases n - i,
    {
        let player = players[i].clone();
        let player_names = names_of_player(names, &player.internal_id);
        out.push((player, player_names));
        i += 1;
    }
    out
}

} // verus!
