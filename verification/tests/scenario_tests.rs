//! End-to-end scenario and small unit tests of the value types.

use slapdb::conn::{group_player_names, Connection, DbError};
use slapdb::ids::{InternalMatchId, InternalPlayerId, MatchId, PlayerId, Username};
use slapdb::pool::ConnectionPool;
use slapdb::rows::{NameRow, PlayerRow, Timestamp};
use slapdb::telemetry::{team_from_str, Player, Team};

#[test]
fn pool_scenario_round_trip() {
    // Open a pool of two handles over the in-memory store, create the
    // schema, insert one player with their first alias, and read
    // everything back.
    let mut pool = ConnectionPool::open(":memory:", false, 2).unwrap();
    pool.create_tables().unwrap();

    let player = Player {
        username: Username::new("Foo"),
        game_user_id: PlayerId::new("12345"),
    };
    pool.add_player(&player).unwrap();

    let row = pool.get_player(&PlayerId::new("12345")).unwrap();
    assert_eq!(row.internal_id.value(), 1);
    assert_eq!(row.slap_id.as_str(), "12345");

    let names = pool.get_player_names(&row).unwrap();
    assert_eq!(names.len(), 1);
    assert_eq!(names[0].name.as_str(), "Foo");
    let first_seen = names[0].last_used;

    // Observing the same alias again never creates a second row; only its
    // last-used time moves.
    let touched = pool
        .add_or_update_player_name(&row, &Username::new("Foo"))
        .unwrap();
    assert_eq!(touched.player_id, row.internal_id);
    assert_eq!(touched.name.as_str(), "Foo");
    assert!(touched.last_used.unix_seconds() >= first_seen.unix_seconds());

    let names_again = pool.get_player_names(&row).unwrap();
    assert_eq!(names_again.len(), 1);
    assert_eq!(names_again[0].last_used, touched.last_used);
}

#[test]
fn add_player_is_atomic() {
    // A failing insert leaves no partial state behind: after a duplicate,
    // the store holds exactly what it held before the call.
    let mut conn = Connection::open_in_memory();
    conn.create_tables();

    let player = Player {
        username: Username::new("FirstName"),
        game_user_id: PlayerId::new("atomic"),
    };
    conn.add_player(&player).unwrap();

    let clash = Player {
        username: Username::new("SecondName"),
        game_user_id: PlayerId::new("atomic"),
    };
    assert_eq!(conn.add_player(&clash).err(), Some(DbError::Duplicate));

    let grouped = conn.get_all_player_names();
    assert_eq!(grouped.len(), 1);
    assert_eq!(grouped[0].1.len(), 1);
    assert_eq!(grouped[0].1[0].name.as_str(), "FirstName");
}

#[test]
fn group_names_by_surrogate_key() {
    // The in-memory join: one entry per player in loaded order, each with
    // exactly its own name rows, the alias-less player with an empty list.
    let players = vec![
        PlayerRow {
            internal_id: InternalPlayerId::new(1),
            slap_id: PlayerId::new("a"),
        },
        PlayerRow {
            internal_id: InternalPlayerId::new(2),
            slap_id: PlayerId::new("b"),
        },
    ];
    let names = vec![
        NameRow {
            player_id: InternalPlayerId::new(2),
            name: Username::new("Bee"),
            last_used: Timestamp::from_unix_seconds(3),
        },
        NameRow {
            player_id: InternalPlayerId::new(2),
            name: Username::new("Buzz"),
            last_used: Timestamp::from_unix_seconds(4),
        },
    ];

    let grouped = group_player_names(&players, &names);
    assert_eq!(grouped.len(), 2);
    assert_eq!(grouped[0].0, players[0]);
    assert!(grouped[0].1.is_empty());
    assert_eq!(grouped[1].0, players[1]);
    assert_eq!(grouped[1].1.len(), 2);
    assert_eq!(grouped[1].1[0].name.as_str(), "Bee");
    assert_eq!(grouped[1].1[1].name.as_str(), "Buzz");
}

#[test]
fn args_carry_the_env_path() {
    let args = slapdb::args::Args {
        env: String::from("server.env"),
    };
    assert_eq!(args.env, "server.env");
}

#[test]
fn clock_reads_wall_time() {
    let now = Timestamp::now();
    // Whole seconds since the Unix epoch: any sane wall clock is far past
    // one billion.
    assert!(now.unix_seconds() > 1_000_000_000);
}

#[test]
fn timestamp_round_trip() {
    let t = Timestamp::from_unix_seconds(-7);
    assert_eq!(t.unix_seconds(), -7);
    assert_eq!(t, Timestamp::from_unix_seconds(-7));
    assert_ne!(t, Timestamp::from_unix_seconds(7));
}

#[test]
fn typed_identifiers_round_trip() {
    let username = Username::new("Skater");
    assert_eq!(username.as_str(), "Skater");
    assert_eq!(username.clone(), username);

    let player_id = PlayerId::new("p-1");
    assert_eq!(player_id.as_str(), "p-1");
    assert_ne!(player_id, PlayerId::new("p-2"));

    let match_id = MatchId::new("m-1");
    assert_eq!(match_id.as_str(), "m-1");
    assert_eq!(match_id.clone(), match_id);

    let internal_player = InternalPlayerId::new(3);
    assert_eq!(internal_player.value(), 3);

    let internal_match = InternalMatchId::new(4);
    assert_eq!(internal_match.value(), 4);
}

#[test]
fn winner_marker_parses() {
    assert_eq!(team_from_str("none"), Some(None));
    assert_eq!(team_from_str("home"), Some(Some(Team::Home)));
    assert_eq!(team_from_str("away"), Some(Some(Team::Away)));
}

#[test]
fn winner_marker_rejects_unknown_text() {
    assert_eq!(team_from_str("overtime"), None);
    assert_eq!(team_from_str(""), None);
    assert_eq!(team_from_str("Home"), None);
}
