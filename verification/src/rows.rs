//! Row models: the typed projections of each table.
//!
//! One insertable shape and one queryable shape per table where they differ;
//! insertable rows omit surrogate keys and store-assigned timestamps. Rows
//! carry no behavior beyond field access: they are the wire format between
//! the connection and the store.

use vstd::prelude::*;

use crate::ids::{InternalMatchId, InternalPlayerId, MatchId, PlayerId, Username};

verus! {

/// A point in time, kept as whole seconds since the Unix epoch.
#[derive(Debug, Clone, Copy, PartialEq, Eq, Structural, Hash)]
pub struct Timestamp {
    secs: i64,
}

impl View for Timestamp {
    type V = int;

    closed spec fn view(&self) -> int {
        self.secs as int
    }
}

impl Timestamp {
    /// Wraps a raw count of seconds since the Unix epoch.
    pub fn from_unix_seconds(secs: i64) -> (result: Self)
        ensures
            result@ == secs as int,
    {
        Timestamp { secs }
    }

    /// Read-only access to the wrapped count of seconds.
    pub fn unix_seconds(&self) -> (result: i64)
        ensures
            result as int == self@,
    {
        self.secs
    }

    /// The current wall-clock time. Nothing is promised of the value: the
    /// clock is the machine's and may move arbitrarily between calls.
    ///
    /// Relies on `time::OffsetDateTime::now_utc` and
    /// `time::OffsetDateTime::unix_timestamp` for the current time in whole
    /// seconds since the Unix epoch.
    #[verifier::external_body]
    pub fn now() -> Timestamp {
        Timestamp { secs: time::OffsetDateTime::now_utc().unix_timestamp() }
    }
}

/// Spec-level shape of a player row.
#[verifier::ext_equal]
pub ghost struct PlayerRowV {
    pub internal_id: int,
    pub slap_id: Seq<char>,
}

/// Spec-level shape of a name row.
#[verifier::ext_equal]
pub ghost struct NameRowV {
    pub player_id: int,
    pub name: Seq<char>,
    pub last_used: int,
}

/// Spec-level shape of a match row.
#[verifier::ext_equal]
pub ghost struct MatchRowV {
    pub internal_id: int,
    pub match_id: Seq<char>,
    pub created: int,
}

/// Spec-level shape of a match-participation row.
#[verifier::ext_equal]
pub ghost struct MatchPlayerRowV {
    pub player_id: int,
    pub match_id: int,
}

/// Insertable shape of the players table: the surrogate key is assigned by
/// the store.
pub struct NewPlayerRow {
    pub slap_id: PlayerId,
}

impl View for NewPlayerRow {
    type V = Seq<char>;

    open spec fn view(&self) -> Seq<char> {
        self.slap_id@
    }
}

/// Queryable shape of the players table.
#[derive(Debug)]
pub struct PlayerRow {
    pub internal_id: InternalPlayerId,
    pub slap_id: PlayerId,
}

impl View for PlayerRow {
    type V = PlayerRowV;

    open spec fn view(&self) -> PlayerRowV {
        PlayerRowV { internal_id: self.internal_id@, slap_id: self.slap_id@ }
    }
}

impl Clone for PlayerRow {
    fn clone(&self) -> (result: Self)
        ensures
            result == *self,
    {
        PlayerRow { internal_id: self.internal_id, slap_id: self.slap_id.clone() }
    }
}

impl PartialEq for PlayerRow {
    fn eq(&self, other: &Self) -> (result: bool) {
        self.internal_id.value() == other.internal_id.value()
            && self.slap_id == other.slap_id
    }
}

impl vstd::std_specs::cmp::PartialEqSpecImpl for PlayerRow {
    open spec fn obeys_eq_spec() -> bool {
        true
    }

    open spec fn eq_spec(&self, other: &Self) -> bool {
        self@ == other@
    }
}

impl Eq for PlayerRow {}

/// Insertable shape of the matches table.
pub struct NewMatchRow {
    pub match_id: MatchId,
    pub created: Timestamp,
}

impl View for NewMatchRow {
    type V = (Seq<char>, int);

    open spec fn view(&self) -> (Seq<char>, int) {
        (self.match_id@, self.created@)
    }
}

/// Queryable shape of the matches table.
#[derive(Debug)]
pub struct MatchRow {
    pub internal_id: InternalMatchId,
    pub match_id: MatchId,
    pub created: Timestamp,
}

impl View for MatchRow {
    type V = MatchRowV;

    open spec fn view(&self) -> MatchRowV {
        MatchRowV {
            internal_id: self.internal_id@,
            match_id: self.match_id@,
            created: self.created@,
        }
    }
}

impl Clone for MatchRow {
    fn clone(&self) -> (result: Self)
        ensures
            result == *self,
    {
        MatchRow {
            internal_id: self.internal_id,
            match_id: self.match_id.clone(),
            created: self.created,
        }
    }
}

impl PartialEq for MatchRow {
    fn eq(&self, other: &Self) -> (result: bool) {
        self.internal_id.value() == other.internal_id.value()
            && self.match_id == other.match_id
            && self.created.unix_seconds() == other.created.unix_seconds()
    }
}

impl vstd::std_specs::cmp::PartialEqSpecImpl for MatchRow {
    open spec fn obeys_eq_spec() -> bool {
        true
    }

    open spec fn eq_spec(&self, other: &Self) -> bool {
        self@ == other@
    }
}

impl Eq for MatchRow {}

/// Insertable shape of the names table: the timestamp of first use is
/// assigned by the store.
pub struct NewNameRow {
    pub player_id: InternalPlayerId,
    pub name: Username,
}

impl View for NewNameRow {
    type V = (int, Seq<char>);

    open spec fn view(&self) -> (int, Seq<char>) {
        (self.player_id@, self.name@)
    }
}

/// Queryable shape of the names table: one historical alias of one player,
/// with the time it was last observed.
#[derive(Debug)]
pub struct NameRow {
    pub player_id: InternalPlayerId,
    pub name: Username,
    pub last_used: Timestamp,
}

impl View for NameRow {
    type V = NameRowV;

    open spec fn view(&self) -> NameRowV {
        NameRowV { player_id: self.player_id@, name: self.name@, last_used: self.last_used@ }
    }
}

impl Clone for NameRow {
    fn clone(&self) -> (result: Self)
        ensures
            result == *self,
    {
        NameRow {
            player_id: self.player_id,
            name: self.name.clone(),
            last_used: self.last_used,
        }
    }
}

impl PartialEq for NameRow {
    fn eq(&self, other: &Self) -> (result: bool) {
        self.player_id.value() == other.player_id.value() && self.name == other.name
            && self.last_used.unix_seconds() == other.last_used.unix_seconds()
    }
}

impl vstd::std_specs::cmp::PartialEqSpecImpl for NameRow {
    open spec fn obeys_eq_spec() -> bool {
        true
    }

    open spec fn eq_spec(&self, other: &Self) -> bool {
        self@ == other@
    }
}

impl Eq for NameRow {}

/// Row of the match-participation table; the same shape serves insert and
/// query.
#[derive(Debug, Clone, Copy, PartialEq, Eq, Structural)]
pub struct MatchPlayerRow {
    pub player_id: InternalPlayerId,
    pub match_id: InternalMatchId,
}

impl View for MatchPlayerRow {
    type V = MatchPlayerRowV;

    open spec fn view(&self) -> MatchPlayerRowV {
        MatchPlayerRowV { player_id: self.player_id@, match_id: self.match_id@ }
    }
}

} // verus!
