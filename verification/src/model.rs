//! Spec-level model of the relational store.
//!
//! The store is four tables with primary keys, uniqueness constraints and
//! foreign keys, as seen through the row views. `store_wf` is the standing
//! well-formedness invariant; the transition functions below say exactly how
//! each domain operation changes the tables.

use vstd::prelude::*;

use crate::rows::{MatchPlayerRowV, MatchRowV, NameRowV, PlayerRowV};

verus! {

/// The whole store: whether the schema has been materialized, and the
/// contents of the four tables in insertion order.
#[verifier::ext_equal]
pub ghost struct StoreView {
    pub created: bool,
    pub players: Seq<PlayerRowV>,
    pub names: Seq<NameRowV>,
    pub matches: Seq<MatchRowV>,
    pub match_players: Seq<MatchPlayerRowV>,
}

/// A store with no schema and no rows: what opening a fresh in-memory
/// location yields.
pub open spec fn empty_store() -> StoreView {
    StoreView {
        created: false,
        players: Seq::empty(),
        names: Seq::empty(),
        matches: Seq::empty(),
        match_players: Seq::empty(),
    }
}

/// Players table invariant: surrogate keys are assigned by the store in
/// insertion order starting at 1 (rows are never deleted), and the platform
/// identifier is unique across rows.
pub open spec fn players_wf(players: Seq<PlayerRowV>) -> bool {
    &&& forall|i: int|
        0 <= i < players.len() ==> (#[trigger] players[i]).internal_id == i + 1
    &&& forall|i: int, j: int|
        0 <= i < players.len() && 0 <= j < players.len() && i != j
            ==> (#[trigger] players[i]).slap_id != (#[trigger] players[j]).slap_id
}

/// Names table invariant: every row references an existing player (the
/// foreign key), and the pair (player, alias text) is unique (the composite
/// primary key).
pub open spec fn names_wf(names: Seq<NameRowV>, player_count: int) -> bool {
    &&& forall|i: int|
        0 <= i < names.len() ==> 1 <= (#[trigger] names[i]).player_id <= player_count
    &&& forall|i: int, j: int|
        0 <= i < names.len() && 0 <= j < names.len() && i != j
            ==> !((#[trigger] names[i]).player_id == (#[trigger] names[j]).player_id
                && names[i].name == names[j].name)
}

/// Matches table invariant: surrogate keys in insertion order, unique
/// platform match identifier.
pub open spec fn matches_wf(matches: Seq<MatchRowV>) -> bool {
    &&& forall|i: int|
        0 <= i < matches.len() ==> (#[trigger] matches[i]).internal_id == i + 1
    &&& forall|i: int, j: int|
        0 <= i < matches.len() && 0 <= j < matches.len() && i != j
            ==> (#[trigger] matches[i]).match_id != (#[trigger] matches[j]).match_id
}

/// Match-participation invariant: both foreign keys reference existing rows
/// and the pair is unique (a player appears at most once per match).
pub open spec fn match_players_wf(
    match_players: Seq<MatchPlayerRowV>,
    match_count: int,
    player_count: int,
) -> bool {
    &&& forall|i: int|
        0 <= i < match_players.len() ==> {
            &&& 1 <= (#[trigger] match_players[i]).match_id <= match_count
            &&& 1 <= match_players[i].player_id <= player_count
        }
    &&& forall|i: int, j: int|
        0 <= i < match_players.len() && 0 <= j < match_players.len() && i != j
            ==> !((#[trigger] match_players[i]).match_id
                == (#[trigger] match_players[j]).match_id
                && match_players[i].player_id == match_players[j].player_id)
}

/// The standing invariant of the whole store.
pub open spec fn store_wf(s: StoreView) -> bool {
    &&& players_wf(s.players)
    &&& names_wf(s.names, s.players.len() as int)
    &&& matches_wf(s.matches)
    &&& match_players_wf(s.match_players, s.matches.len() as int, s.players.len() as int)
}

/// Whether some player row carries the given platform identifier.
pub open spec fn has_player(s: StoreView, slap_id: Seq<char>) -> bool {
    exists|i: int| 0 <= i < s.players.len() && (#[trigger] s.players[i]).slap_id == slap_id
}

/// Index of the player row carrying the given platform identifier (unique
/// under `store_wf`).
pub open spec fn player_index(s: StoreView, slap_id: Seq<char>) -> int {
    choose|i: int| 0 <= i < s.players.len() && (#[trigger] s.players[i]).slap_id == slap_id
}

/// The player row carrying the given platform identifier.
pub open spec fn found_player(s: StoreView, slap_id: Seq<char>) -> PlayerRowV {
    s.players[player_index(s, slap_id)]
}

/// The row a fresh insertion appends: the store assigns the next surrogate
/// key.
pub open spec fn new_player_row(s: StoreView, slap_id: Seq<char>) -> PlayerRowV {
    PlayerRowV { internal_id: s.players.len() + 1 as int, slap_id }
}

/// The store after inserting a player with a fresh platform identifier.
pub open spec fn with_new_player(s: StoreView, slap_id: Seq<char>) -> StoreView {
    StoreView { players: s.players.push(new_player_row(s, slap_id)), ..s }
}

/// Whether a surrogate key references an existing player row. Under
/// `players_wf`, the rows carry exactly the keys 1 through `players.len()`.
pub open spec fn valid_player_ref(s: StoreView, player_id: int) -> bool {
    1 <= player_id <= s.players.len()
}

/// Whether the given player already has a row for the given alias text.
pub open spec fn has_name(s: StoreView, player_id: int, name: Seq<char>) -> bool {
    exists|i: int|
        0 <= i < s.names.len() && (#[trigger] s.names[i]).player_id == player_id
            && s.names[i].name == name
}

/// Index of the name row for the given (player, alias) pair (unique under
/// `store_wf`).
pub open spec fn name_index(s: StoreView, player_id: int, name: Seq<char>) -> int {
    choose|i: int|
        0 <= i < s.names.len() && (#[trigger] s.names[i]).player_id == player_id
            && s.names[i].name == name
}

/// The store after the insert-or-touch of one alias: a fresh pair is
/// appended with `last_used` set to `now`; a conflicting pair is not
/// duplicated, its `last_used` is advanced to `now` instead.
pub open spec fn upserted_name(
    s: StoreView,
    player_id: int,
    name: Seq<char>,
    now: int,
) -> StoreView {
    let row = NameRowV { player_id, name, last_used: now };
    if has_name(s, player_id, name) {
        StoreView { names: s.names.update(name_index(s, player_id, name), row), ..s }
    } else {
        StoreView { names: s.names.push(row), ..s }
    }
}

/// All aliases of one player, in insertion order.
pub open spec fn names_for(names: Seq<NameRowV>, player_id: int) -> Seq<NameRowV> {
    names.filter(|r: NameRowV| r.player_id == player_id)
}

/// The store after the idempotent schema materialization.
pub open spec fn with_tables(s: StoreView) -> StoreView {
    StoreView { created: true, ..s }
}

/// Inserting a player with a fresh platform identifier preserves the store
/// invariant, and the new row is found under its identifier with the next
/// surrogate key.
pub proof fn lemma_wf_new_player(s: StoreView, slap_id: Seq<char>)
    requires
        store_wf(s),
        !has_player(s, slap_id),
    ensures
        store_wf(with_new_player(s, slap_id)),
        has_player(with_new_player(s, slap_id), slap_id),
        player_index(with_new_player(s, slap_id), slap_id) == s.players.len() as int,
        found_player(with_new_player(s, slap_id), slap_id) == new_player_row(s, slap_id),
{
    let t = with_new_player(s, slap_id);
    assert(t.players[s.players.len() as int].slap_id == slap_id);
    assert(has_player(t, slap_id));
    let i = player_index(t, slap_id);
    if i != s.players.len() as int {
        assert(s.players[i].slap_id == slap_id);
        assert(false);
    }
}

/// The insert-or-touch transition preserves the store invariant, and
/// afterwards the pair is present exactly once with `last_used` equal to the
/// supplied time.
pub proof fn lemma_wf_upserted_name(s: StoreView, player_id: int, name: Seq<char>, now: int)
    requires
        store_wf(s),
        valid_player_ref(s, player_id),
    ensures
        store_wf(upserted_name(s, player_id, name, now)),
        has_name(upserted_name(s, player_id, name, now), player_id, name),
        upserted_name(s, player_id, name, now).names[name_index(
            upserted_name(s, player_id, name, now),
            player_id,
            name,
        )] == (NameRowV { player_id, name, last_used: now }),
        has_name(s, player_id, name) ==> upserted_name(s, player_id, name, now).names.len()
            == s.names.len(),
        !has_name(s, player_id, name) ==> upserted_name(s, player_id, name, now).names.len()
            == s.names.len() + 1,
{
    let t = upserted_name(s, player_id, name, now);
    let row = NameRowV { player_id, name, last_used: now };
    if has_name(s, player_id, name) {
        let k = name_index(s, player_id, name);
        assert(0 <= k < s.names.len() && s.names[k].player_id == player_id
            && s.names[k].name == name);
        assert(t.names[k] == row);
        assert(has_name(t, player_id, name));
        let k2 = name_index(t, player_id, name);
        if k2 != k {
            assert(s.names[k2].player_id == player_id && s.names[k2].name == name);
            assert(false);
        }
    } else {
        let k = s.names.len() as int;
        assert(t.names[k] == row);
        assert(has_name(t, player_id, name));
        let k2 = name_index(t, player_id, name);
        if k2 != k {
            assert(s.names[k2].player_id == player_id && s.names[k2].name == name);
            assert(has_name(s, player_id, name));
            assert(false);
        }
    }
}

} // verus!
