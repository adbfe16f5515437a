//! Typed identifiers.
//!
//! Each identifier wraps a single primitive (a string or a 32-bit integer)
//! behind a distinct nominal type, so that a match key can never be passed
//! where a player key is expected even though both wrap the same primitive.
//! Construction from a primitive is explicit and total; there is no implicit
//! conversion between identifier domains.

use vstd::prelude::*;

verus! {

/// A display name a player has used. Not globally unique: two players may
/// share a display name.
#[derive(Debug, Hash)]
pub struct Username {
    text: String,
}

impl View for Username {
    type V = Seq<char>;

    closed spec fn view(&self) -> Seq<char> {
        self.text@
    }
}

impl Username {
    /// Wraps a raw display string. Total: any well-formed string is accepted.
    pub fn new(value: &str) -> (result: Self)
        ensures
            result@ == value@,
    {
        Username { text: value.to_owned() }
    }

    /// Read-only access to the wrapped string.
    pub fn as_str(&self) -> (result: &str)
        ensures
            result@ == self@,
    {
        self.text.as_str()
    }
}

impl Clone for Username {
    fn clone(&self) -> (result: Self)
        ensures
            result == *self,
    {
        Username { text: self.text.clone() }
    }
}

impl PartialEq for Username {
    fn eq(&self, other: &Self) -> (result: bool) {
        self.text == other.text
    }
}

impl vstd::std_specs::cmp::PartialEqSpecImpl for Username {
    open spec fn obeys_eq_spec() -> bool {
        true
    }

    open spec fn eq_spec(&self, other: &Self) -> bool {
        self@ == other@
    }
}

impl Eq for Username {}

/// The game platform's stable identifier for a player. Globally unique and
/// immutable once a player row is created.
#[derive(Debug, Hash)]
pub struct PlayerId {
    text: String,
}

impl View for PlayerId {
    type V = Seq<char>;

    closed spec fn view(&self) -> Seq<char> {
        self.text@
    }
}

impl PlayerId {
    /// Wraps a raw platform identifier. Total: any well-formed string is
    /// accepted.
    pub fn new(value: &str) -> (result: Self)
        ensures
            result@ == value@,
    {
        PlayerId { text: value.to_owned() }
    }

    /// Read-only access to the wrapped string.
    pub fn as_str(&self) -> (result: &str)
        ensures
            result@ == self@,
    {
        self.text.as_str()
    }
}

impl Clone for PlayerId {
    fn clone(&self) -> (result: Self)
        ensures
            result == *self,
    {
        PlayerId { text: self.text.clone() }
    }
}

impl PartialEq for PlayerId {
    fn eq(&self, other: &Self) -> (result: bool) {
        self.text == other.text
    }
}

impl vstd::std_specs::cmp::PartialEqSpecImpl for PlayerId {
    open spec fn obeys_eq_spec() -> bool {
        true
    }

    open spec fn eq_spec(&self, other: &Self) -> bool {
        self@ == other@
    }
}

impl Eq for PlayerId {}

/// The game platform's stable identifier for a match.
#[derive(Debug, Hash)]
pub struct MatchId {
    text: String,
}

impl View for MatchId {
    type V = Seq<char>;

    closed spec fn view(&self) -> Seq<char> {
        self.text@
    }
}

impl MatchId {
    /// Wraps a raw platform identifier. Total: any well-formed string is
    /// accepted.
    pub fn new(value: &str) -> (result: Self)
        ensures
            result@ == value@,
    {
        MatchId { text: value.to_owned() }
    }

    /// Read-only access to the wrapped string.
    pub fn as_str(&self) -> (result: &str)
        ensures
            result@ == self@,
    {
        self.text.as_str()
    }
}

impl Clone for MatchId {
    fn clone(&self) -> (result: Self)
        ensures
            result == *self,
    {
        MatchId { text: self.text.clone() }
    }
}

impl PartialEq for MatchId {
    fn eq(&self, other: &Self) -> (result: bool) {
        self.text == other.text
    }
}

impl vstd::std_specs::cmp::PartialEqSpecImpl for MatchId {
    open spec fn obeys_eq_spec() -> bool {
        true
    }

    open spec fn eq_spec(&self, other: &Self) -> bool {
        self@ == other@
    }
}

impl Eq for MatchId {}

/// Store-assigned surrogate key of a player row. Never meaningful outside
/// the store, and a distinct type from `InternalMatchId` even though both
/// wrap the same integer kind.
#[derive(Debug, Clone, Copy, PartialEq, Eq, Structural, Hash)]
pub struct InternalPlayerId {
    raw: i32,
}

impl View for InternalPlayerId {
    type V = int;

    closed spec fn view(&self) -> int {
        self.raw as int
    }
}

impl InternalPlayerId {
    /// Wraps a raw surrogate key. Total for any in-range integer.
    pub fn new(raw: i32) -> (result: Self)
        ensures
            result@ == raw as int,
    {
        InternalPlayerId { raw }
    }

    /// Read-only access to the wrapped integer.
    pub fn value(&self) -> (result: i32)
        ensures
            result as int == self@,
    {
        self.raw
    }
}

/// Store-assigned surrogate key of a match row.
#[derive(Debug, Clone, Copy, PartialEq, Eq, Structural, Hash)]
pub struct InternalMatchId {
    raw: i32,
}

impl View for InternalMatchId {
    type V = int;

    closed spec fn view(&self) -> int {
        self.raw as int
    }
}

impl InternalMatchId {
    /// Wraps a raw surrogate key. Total for any in-range integer.
    pub fn new(raw: i32) -> (result: Self)
        ensures
            result@ == raw as int,
    {
        InternalMatchId { raw }
    }

    /// Read-only access to the wrapped integer.
    pub fn value(&self) -> (result: i32)
        ensures
            result as int == self@,
    {
        self.raw
    }
}

} // verus!
