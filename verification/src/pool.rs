//! A bounded pool of store handles.
//!
//! The pool bounds how many handles are out at once and hands them to
//! callers with checkout accounting; a handle is exclusive to its holder
//! until released. Failures are classified up front: a location that names
//! no database is told apart from a store that cannot be reached, and an
//! exhausted pool reports a timeout rather than panicking. Any other
//! checkout failure would be a broken pool invariant, which this model
//! rules out by proof.
//!
//! The verified pool drives an in-memory store; file-backed stores belong
//! to the surrounding process, which alone can reach the filesystem and
//! establishes up front whether the configured path exists.

use vstd::prelude::*;

use crate::conn::{Connection, DbError, MAX_TABLE_ROWS};
use crate::ids::{PlayerId, Username};
use crate::model::{
    empty_store, found_player, has_player, names_for, store_wf, upserted_name,
    valid_player_ref, with_new_player, with_tables, StoreView,
};
use crate::rows::{NameRow, PlayerRow};
use crate::telemetry::Player;

verus! {

/// View of the pool: the store it guards plus checkout accounting.
#[verifier::ext_equal]
pub ghost struct PoolView {
    pub store: StoreView,
    pub max_size: int,
    pub in_use: int,
}

/// Pool invariant: never more handles out than the bound, and the store
/// well-formed.
pub open spec fn pool_wf(p: PoolView) -> bool {
    &&& 0 <= p.in_use <= p.max_size
    &&& store_wf(p.store)
}

/// Whether a checkout request can be granted now: some handle is idle.
pub open spec fn can_checkout(p: PoolView) -> bool {
    p.in_use < p.max_size
}

/// Accounting after a granted checkout: one more handle out.
pub open spec fn after_checkout(p: PoolView) -> PoolView {
    PoolView { in_use: p.in_use + 1, ..p }
}

/// Accounting after a release: the handle is idle again and one waiter can
/// proceed.
pub open spec fn after_release(p: PoolView) -> PoolView {
    PoolView { in_use: p.in_use - 1, ..p }
}

/// Failure to open the pool, classified before any handle exists.
#[derive(Debug)]
pub enum PoolCreationError {
    /// The configured location names no database: neither the recognized
    /// in-memory marker nor an existing filesystem path. Carries the
    /// offending path.
    NotFound(String),
    /// The location exists but the store is unreachable or corrupt.
    /// Carries the store's message.
    Connection(String),
}

/// Checkout waited its bound and no handle became idle.
#[derive(Debug, Clone, Copy, PartialEq, Eq, Structural)]
pub struct PoolTimeout;

/// Failure of a pool-mediated domain operation: the checkout timed out, or
/// the store rejected the operation.
#[derive(Debug, Clone, Copy, PartialEq, Eq, Structural)]
pub enum PoolRunError {
    /// No handle became idle within the bounded wait.
    TimedOut,
    /// The store reported an ordinary domain failure.
    Store(DbError),
}

/// An exclusive hold on one of the pool's handles. Only the pool mints
/// these; returning one to `release` is the release of the handle.
pub struct PoolHandle {
    reserved: (),
}

/// A bounded set of handles over one store.
pub struct ConnectionPool {
    connection: Connection,
    max_size: u32,
    in_use: u32,
}

impl View for ConnectionPool {
    type V = PoolView;

    closed spec fn view(&self) -> PoolView {
        PoolView {
            store: self.connection@,
            max_size: self.max_size as int,
            in_use: self.in_use as int,
        }
    }
}

impl ConnectionPool {
    /// The pool invariant, as seen through the view.
    pub open spec fn wf(&self) -> bool {
        pool_wf(self@)
    }

    /// Decides whether a configured location denotes a database: the
    /// recognized in-memory marker, or a filesystem path that exists.
    /// Whether the path exists is established by the caller, who can reach
    /// the filesystem.
    pub fn path_is_valid(path: &str, path_exists: bool) -> (result: bool)
        ensures
            result == (path@ == ":memory:"@ || path_exists),
    {
        if path_exists {
            true
        } else {
            path.to_owned() == ":memory:".to_owned()
        }
    }

    /// Opens a pool of up to `max_size` handles over the configured
    /// location.
    ///
    /// The location is validated up front: if it is neither the in-memory
    /// marker nor an existing filesystem path, opening fails with the
    /// not-found condition — distinguishable from a connection failure —
    /// before any connection attempt is made. The verified pool itself
    /// always starts on a fresh in-memory store.
    pub fn open(path: &str, path_exists: bool, max_size: u32) -> (result: Result<
        ConnectionPool,
        PoolCreationError,
    >)
        ensures
            match result {
                Ok(pool) => {
                    &&& path@ == ":memory:"@ || path_exists
                    &&& pool.wf()
                    &&& pool@.store == empty_store()
                    &&& pool@.max_size == max_size as int
                    &&& pool@.in_use == 0
                },
                Err(e) => {
                    &&& !(path@ == ":memory:"@ || path_exists)
                    &&& e matches PoolCreationError::NotFound(p) && p@ == path@
                },
            },
    {
        if Self::path_is_valid(path, path_exists) {
            Ok(
                ConnectionPool {
                    connection: Connection::open_in_memory(),
                    max_size,
                    in_use: 0,
                },
            )
        } else {
            Err(PoolCreationError::NotFound(path.to_owned()))
        }
    }

    /// Checks out a handle.
    ///
    /// Grants a handle exactly when one is idle. In this sequential model
    /// no concurrent caller can release a handle during the bounded wait,
    /// so an exhausted pool reports the timeout condition at once — never a
    /// panic, and never any other error kind.
    pub fn conn(&mut self) -> (result: Result<PoolHandle, PoolTimeout>)
        requires
            old(self).wf(),
        ensures
            final(self).wf(),
            match result {
                Ok(_) => {
                    &&& can_checkout(old(self)@)
                    &&& final(self)@ == after_checkout(old(self)@)
                },
                Err(t) => {
                    &&& t == PoolTimeout
                    &&& !can_checkout(old(self)@)
                    &&& final(self)@ == old(self)@
                },
            },
    {
        if self.in_use < self.max_size {
            self.in_use = self.in_use + 1;
            proof {
                assert(self@ =~= after_checkout(old(self)@));
            }
            Ok(PoolHandle { reserved: () })
        } else {
            Err(PoolTimeout)
        }
    }

    /// Returns a handle to the pool: it becomes idle again and one waiter
    /// can proceed.
    pub fn release(&mut self, _handle: PoolHandle)
        requires
            old(self).wf(),
            old(self)@.in_use >= 1,
        ensures
            final(self).wf(),
            final(self)@ == after_release(old(self)@),
    {
        self.in_use = self.in_use - 1;
        proof {
            assert(self@ =~= after_release(old(self)@));
        }
    }

    /// Materializes the schema through a pooled handle: checkout, create,
    /// release. Fails only when the pool is exhausted.
    pub fn create_tables(&mut self) -> (result: Result<(), PoolRunError>)
        requires
            old(self).wf(),
        ensures
            final(self).wf(),
            final(self)@.max_size == old(self)@.max_size,
            final(self)@.in_use == old(self)@.in_use,
            match result {
                Ok(_) => {
                    &&& can_checkout(old(self)@)
                    &&& final(self)@.store == with_tables(old(self)@.store)
                },
                Err(e) => {
                    &&& e == PoolRunError::TimedOut
                    &&& !can_checkout(old(self)@)
                    &&& final(self)@ == old(self)@
                },
            },
    {
        let handle = match self.conn() {
            Ok(h) => h,
            Err(_) => {
                return Err(PoolRunError::TimedOut);
            },
        };
        self.connection.create_tables();
        self.release(handle);
        Ok(())
    }

    /// Creates a player row and records their current display name, as one
    /// transaction through a pooled handle.
    pub fn add_player(&mut self, player: &Player) -> (result: Result<NameRow, PoolRunError>)
        requires
            old(self).wf(),
            old(self)@.store.created,
            old(self)@.store.players.len() < MAX_TABLE_ROWS,
        ensures
            final(self).wf(),
            final(self)@.max_size == old(self)@.max_size,
            final(self)@.in_use == old(self)@.in_use,
            match result {
                Ok(row) => {
                    &&& can_checkout(old(self)@)
                    &&& !has_player(old(self)@.store, player.game_user_id@)
                    &&& row@.player_id == old(self)@.store.players.len() + 1
                    &&& row@.name == player.username@
                    &&& final(self)@.store == upserted_name(
                        with_new_player(old(self)@.store, player.game_user_id@),
                        (old(self)@.store.players.len() + 1) as int,
                        player.username@,
                        row@.last_used,
                    )
                },
                Err(e) => match e {
                    PoolRunError::TimedOut => {
                        &&& !can_checkout(old(self)@)
                        &&& final(self)@ == old(self)@
                    },
                    PoolRunError::Store(db) => {
                        &&& can_checkout(old(self)@)
                        &&& db == DbError::Duplicate
                        &&& has_player(old(self)@.store, player.game_user_id@)
                        &&& final(self)@ == old(self)@
                    },
                },
            },
    {
        let handle = match self.conn() {
            Ok(h) => h,
            Err(_) => {
                return Err(PoolRunError::TimedOut);
            },
        };
        let result = self.connection.add_player(player);
        self.release(handle);
        match result {
            Ok(row) => Ok(row),
            Err(e) => {
                proof {
                    assert(self@ =~= old(self)@);
                }
                Err(PoolRunError::Store(e))
            },
        }
    }

    /// Inserts a new player row through a pooled handle.
    pub fn add_player_id(&mut self, player_id: &PlayerId) -> (result: Result<
        PlayerRow,
        PoolRunError,
    >)
        requires
            old(self).wf(),
            old(self)@.store.created,
            old(self)@.store.players.len() < MAX_TABLE_ROWS,
        ensures
            final(self).wf(),
            final(self)@.max_size == old(self)@.max_size,
            final(self)@.in_use == old(self)@.in_use,
            match result {
                Ok(row) => {
                    &&& can_checkout(old(self)@)
                    &&& !has_player(old(self)@.store, player_id@)
                    &&& row@ == crate::model::new_player_row(old(self)@.store, player_id@)
                    &&& final(self)@.store == with_new_player(old(self)@.store, player_id@)
                },
                Err(e) => match e {
                    PoolRunError::TimedOut => {
                        &&& !can_checkout(old(self)@)
                        &&& final(self)@ == old(self)@
                    },
                    PoolRunError::Store(db) => {
                        &&& can_checkout(old(self)@)
                        &&& db == DbError::Duplicate
                        &&& has_player(old(self)@.store, player_id@)
                        &&& final(self)@ == old(self)@
                    },
                },
            },
    {
        let handle = match self.conn() {
            Ok(h) => h,
            Err(_) => {
                return Err(PoolRunError::TimedOut);
            },
        };
        let result = self.connection.add_player_id(player_id);
        self.release(handle);
        match result {
            Ok(row) => Ok(row),
            Err(e) => {
                proof {
                    assert(self@ =~= old(self)@);
                }
                Err(PoolRunError::Store(e))
            },
        }
    }

    /// Point lookup of a player through a pooled handle.
    pub fn get_player(&mut self, id: &PlayerId) -> (result: Result<PlayerRow, PoolRunError>)
        requires
            old(self).wf(),
            old(self)@.store.created,
        ensures
            final(self).wf(),
            final(self)@ == old(self)@,
            match result {
                Ok(row) => {
                    &&& can_checkout(old(self)@)
                    &&& has_player(old(self)@.store, id@)
                    &&& row@ == found_player(old(self)@.store, id@)
                },
                Err(e) => match e {
                    PoolRunError::TimedOut => !can_checkout(old(self)@),
                    PoolRunError::Store(db) => {
                        &&& can_checkout(old(self)@)
                        &&& db == DbError::NotFound
                        &&& !has_player(old(self)@.store, id@)
                    },
                },
            },
    {
        let handle = match self.conn() {
            Ok(h) => h,
            Err(_) => {
                return Err(PoolRunError::TimedOut);
            },
        };
        let result = self.connection.get_player(id);
        self.release(handle);
        proof {
            assert(self@ =~= old(self)@);
        }
        match result {
            Ok(row) => Ok(row),
            Err(e) => Err(PoolRunError::Store(e)),
        }
    }

    /// Insert-or-touch of one alias through a pooled handle.
    pub fn add_or_update_player_name(
        &mut self,
        player_row: &PlayerRow,
        username: &Username,
    ) -> (result: Result<NameRow, PoolRunError>)
        requires
            old(self).wf(),
            old(self)@.store.created,
        ensures
            final(self).wf(),
            final(self)@.max_size == old(self)@.max_size,
            final(self)@.in_use == old(self)@.in_use,
            match result {
                Ok(row) => {
                    &&& can_checkout(old(self)@)
                    &&& valid_player_ref(old(self)@.store, player_row@.internal_id)
                    &&& row@.player_id == player_row@.internal_id
                    &&& row@.name == username@
                    &&& final(self)@.store == upserted_name(
                        old(self)@.store,
                        player_row@.internal_id,
                        username@,
                        row@.last_used,
                    )
                },
                Err(e) => match e {
                    PoolRunError::TimedOut => {
                        &&& !can_checkout(old(self)@)
                        &&& final(self)@ == old(self)@
                    },
                    PoolRunError::Store(db) => {
                        &&& can_checkout(old(self)@)
                        &&& db == DbError::NotFound
                        &&& !valid_player_ref(old(self)@.store, player_row@.internal_id)
                        &&& final(self)@ == old(self)@
                    },
                },
            },
    {
        let handle = match self.conn() {
            Ok(h) => h,
            Err(_) => {
                return Err(PoolRunError::TimedOut);
            },
        };
        let result = self.connection.add_or_update_player_name(player_row, username);
        self.release(handle);
        match result {
            Ok(row) => Ok(row),
            Err(e) => {
                proof {
                    assert(self@ =~= old(self)@);
                }
                Err(PoolRunError::Store(e))
            },
        }
    }

    /// All aliases of one player through a pooled handle.
    pub fn get_player_names(&mut self, player_row: &PlayerRow) -> (result: Result<
        Vec<NameRow>,
        PoolRunError,
    >)
        requires
            old(self).wf(),
            old(self)@.store.created,
        ensures
            final(self).wf(),
            final(self)@ == old(self)@,
            match result {
                Ok(rows) => {
                    &&& can_checkout(old(self)@)
                    &&& rows@.map_values(|r: NameRow| r@) == names_for(
                        old(self)@.store.names,
                        player_row@.internal_id,
                    )
                },
                Err(e) => {
                    &&& e == PoolRunError::TimedOut
                    &&& !can_checkout(old(self)@)
                },
            },
    {
        let handle = match self.conn() {
            Ok(h) => h,
            Err(_) => {
                return Err(PoolRunError::TimedOut);
            },
        };
        let rows = self.connection.get_player_names(player_row);
        self.release(handle);
        proof {
            assert(self@ =~= old(self)@);
        }
        Ok(rows)
    }

    /// Every player with all of their aliases through a pooled handle.
    pub fn get_all_player_names(&mut self) -> (result: Result<
        Vec<(PlayerRow, Vec<NameRow>)>,
        PoolRunError,
    >)
        requires
            old(self).wf(),
            old(self)@.store.created,
        ensures
            final(self).wf(),
            final(self)@ == old(self)@,
            match result {
                Ok(rows) => {
                    &&& can_checkout(old(self)@)
                    &&& rows@.len() == old(self)@.store.players.len()
                    &&& forall|i: int|
                        0 <= i < rows@.len() ==> {
                            &&& (#[trigger] rows@[i]).0@ == old(self)@.store.players[i]
                            &&& rows@[i].1@.map_values(|r: NameRow| r@) == names_for(
                                old(self)@.store.names,
                                old(self)@.store.players[i].internal_id,
                            )
                        }
                },
                Err(e) => {
                    &&& e == PoolRunError::TimedOut
                    &&& !can_checkout(old(self)@)
                },
            },
    {
        let handle = match self.conn() {
            Ok(h) => h,
            Err(_) => {
                return Err(PoolRunError::TimedOut);
            },
        };
        let rows = self.connection.get_all_player_names();
        self.release(handle);
        proof {
            assert(self@ =~= old(self)@);
        }
        Ok(rows)
    }
}

} // verus!
