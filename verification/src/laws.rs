//! Laws of the data-access layer, stated over the spec model and proved.
//!
//! Each law is phrased over the same spec functions that the executable
//! operations' contracts use, so together with those contracts it pins the
//! behavior of call sequences: add-once semantics of player identifiers,
//! the no-duplicate-row guarantee of the alias insert-or-touch, idempotent
//! schema creation, and the checkout bound of the pool.

use vstd::prelude::*;

use crate::model::{
    has_name, has_player, lemma_wf_new_player, lemma_wf_upserted_name, name_index, names_for,
    new_player_row, store_wf, upserted_name, valid_player_ref, with_new_player, with_tables,
    StoreView,
};
use crate::pool::{after_release, can_checkout, pool_wf, PoolView};
use crate::rows::{NameRowV, PlayerRowV};

verus! {

/// Law: a platform identifier is added exactly once.
///
/// Adding a fresh identifier yields a well-formed store in which the
/// identifier is present, carried by the row with the next surrogate key.
/// By the contract of `add_player_id`, the first insertion therefore
/// returns that row, and any second insertion of the same identifier finds
/// it present, reports the duplicate condition and leaves the store
/// unchanged.
pub proof fn lemma_add_player_id_exactly_once(s: StoreView, slap_id: Seq<char>)
    requires
        store_wf(s),
        !has_player(s, slap_id),
    ensures
        store_wf(with_new_player(s, slap_id)),
        has_player(with_new_player(s, slap_id), slap_id),
{
    lemma_wf_new_player(s, slap_id);
}

/// Law: the alias insert-or-touch never creates a second row for the same
/// pair, and the recorded time follows the later call.
///
/// The first insert-or-touch of a fresh pair appends exactly one row
/// carrying the first call's time; a second insert-or-touch of the same
/// pair leaves the row count unchanged and advances `last_used` to the
/// second call's time — which is at least the first one's whenever the
/// clock between the calls did not run backwards.
pub proof fn lemma_upsert_name_no_second_row(
    s: StoreView,
    player_id: int,
    name: Seq<char>,
    t0: int,
    t1: int,
)
    requires
        store_wf(s),
        valid_player_ref(s, player_id),
        !has_name(s, player_id, name),
    ensures
        store_wf(upserted_name(s, player_id, name, t0)),
        upserted_name(s, player_id, name, t0).names.len() == s.names.len() + 1,
        has_name(upserted_name(s, player_id, name, t0), player_id, name),
        upserted_name(s, player_id, name, t0).names[name_index(
            upserted_name(s, player_id, name, t0),
            player_id,
            name,
        )].last_used == t0,
        store_wf(upserted_name(upserted_name(s, player_id, name, t0), player_id, name, t1)),
        upserted_name(upserted_name(s, player_id, name, t0), player_id, name, t1).names.len()
            == upserted_name(s, player_id, name, t0).names.len(),
        upserted_name(upserted_name(s, player_id, name, t0), player_id, name, t1).names[
            name_index(
                upserted_name(upserted_name(s, player_id, name, t0), player_id, name, t1),
                player_id,
                name,
            )
        ].last_used == t1,
{
    lemma_wf_upserted_name(s, player_id, name, t0);
    lemma_wf_upserted_name(upserted_name(s, player_id, name, t0), player_id, name, t1);
}

/// Law: the composite player insert writes exactly one player row and one
/// name row, or nothing.
///
/// A freshly created player carries a surrogate key no name row can
/// reference yet, so the alias step of the transaction cannot meet a
/// conflict and appends exactly one row. Together with the contract of
/// `add_player` — whose failure case leaves the store exactly as it was —
/// this shows the transaction is atomic: both rows appear, or neither.
pub proof fn lemma_add_player_writes_both_rows(
    s: StoreView,
    slap_id: Seq<char>,
    name: Seq<char>,
    t: int,
)
    requires
        store_wf(s),
        !has_player(s, slap_id),
    ensures
        !has_name(with_new_player(s, slap_id), (s.players.len() + 1) as int, name),
        upserted_name(
            with_new_player(s, slap_id),
            (s.players.len() + 1) as int,
            name,
            t,
        ).players == with_new_player(s, slap_id).players,
        upserted_name(
            with_new_player(s, slap_id),
            (s.players.len() + 1) as int,
            name,
            t,
        ).names == s.names.push(
            NameRowV { player_id: (s.players.len() + 1) as int, name, last_used: t },
        ),
        store_wf(
            upserted_name(with_new_player(s, slap_id), (s.players.len() + 1) as int, name, t),
        ),
{
    lemma_wf_new_player(s, slap_id);
    let mid = with_new_player(s, slap_id);
    let pid = (s.players.len() + 1) as int;
    if has_name(mid, pid, name) {
        let i = choose|i: int|
            0 <= i < mid.names.len() && (#[trigger] mid.names[i]).player_id == pid
                && mid.names[i].name == name;
        assert(s.names[i].player_id <= s.players.len() as int);
        assert(false);
    }
    lemma_wf_upserted_name(mid, pid, name, t);
}

/// Law: schema creation is idempotent — materializing the schema twice is
/// the same store as materializing it once, and it never disturbs rows or
/// the store invariant.
pub proof fn lemma_create_tables_idempotent(s: StoreView)
    ensures
        with_tables(with_tables(s)) == with_tables(s),
        store_wf(s) ==> store_wf(with_tables(s)),
{
    assert(with_tables(with_tables(s)) =~= with_tables(s));
}

/// Law: a player with no recorded aliases has the empty alias list — the
/// grouped listing shows such a player with an empty entry, not a missing
/// one.
pub proof fn lemma_names_for_absent(names: Seq<NameRowV>, player_id: int)
    requires
        forall|i: int| 0 <= i < names.len() ==> (#[trigger] names[i]).player_id != player_id,
    ensures
        names_for(names, player_id) == Seq::<NameRowV>::empty(),
    decreases names.len(),
{
    reveal(Seq::filter);
    if names.len() == 0 {
        assert(names_for(names, player_id) =~= Seq::<NameRowV>::empty());
    } else {
        lemma_names_for_absent(names.drop_last(), player_id);
        assert(names[names.len() - 1].player_id != player_id);
        assert(names_for(names, player_id) =~= Seq::<NameRowV>::empty());
    }
}

/// Law: a fresh platform identifier is absent from the empty store, and
/// inserting it there yields the row with surrogate key 1.
pub proof fn lemma_first_player_gets_key_one(s: StoreView, slap_id: Seq<char>)
    requires
        s.players.len() == 0,
    ensures
        !has_player(s, slap_id),
        new_player_row(s, slap_id) == (PlayerRowV { internal_id: 1, slap_id }),
{
}

/// Law: with every handle checked out, a further checkout cannot be
/// granted — by the contract of `conn` it reports the timeout condition,
/// never a panic and never any other kind — and releasing any one handle
/// makes the next checkout grantable again.
pub proof fn lemma_exhausted_pool_blocks(p: PoolView)
    requires
        pool_wf(p),
        p.in_use == p.max_size,
    ensures
        !can_checkout(p),
        p.max_size >= 1 ==> can_checkout(after_release(p)),
{
}

} // verus!
