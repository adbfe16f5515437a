//! Tests of the connection-level domain operations.

use slapdb::conn::{Connection, DbError};
use slapdb::ids::{InternalPlayerId, PlayerId, Username};
use slapdb::rows::{PlayerRow, Timestamp};

fn setup_test() -> Connection {
    let mut conn = Connection::open_in_memory();
    conn.create_tables();
    conn
}

#[test]
fn conn_create_tables() {
    let _conn = setup_test();
}

#[test]
fn add_player_id() {
    let mut conn = setup_test();

    let player_id = PlayerId::new("add_test");
    let added_player_res = conn.add_player_id(&player_id);
    assert!(
        added_player_res.is_ok(),
        "could not add player! ({})",
        format!("{:?}", added_player_res.as_ref().err())
    );

    let added_player = added_player_res.unwrap();
    assert_eq!(player_id.as_str(), added_player.slap_id.as_str());
}

#[test]
fn add_duplicate_player_id() {
    let mut conn = setup_test();

    let player_id = PlayerId::new("duplicate_test");
    let added_player = conn.add_player_id(&player_id).unwrap();

    let duplicate_res = conn.add_player_id(&player_id);
    assert!(
        duplicate_res.is_err(),
        "duplicate player added! (first: {:?}, second: {:?})",
        added_player,
        duplicate_res.as_ref().ok()
    );
    assert_eq!(duplicate_res.err(), Some(DbError::Duplicate));
}

#[test]
fn player_id_exists() {
    let mut conn = setup_test();

    let player_id = PlayerId::new("exists_test");
    let added_player = conn.add_player_id(&player_id).unwrap();

    let retrieved_player_res = conn.get_player(&player_id);
    assert!(
        retrieved_player_res.is_ok(),
        "player '{:?}' does not exist! ({})",
        player_id,
        format!("{:?}", retrieved_player_res.as_ref().err())
    );

    let retrieved_player = retrieved_player_res.unwrap();
    assert_eq!(added_player, retrieved_player);
}

#[test]
fn player_id_dne() {
    let mut conn = setup_test();

    let player_id = PlayerId::new("dne_test");
    let retrieved_player_res = conn.get_player(&player_id);
    assert!(
        retrieved_player_res.is_err(),
        "player '{:?}' exists! ({:?})",
        player_id,
        retrieved_player_res.as_ref().ok()
    );
    assert_eq!(retrieved_player_res.err(), Some(DbError::NotFound));
}

#[test]
fn add_one_player_name() {
    let mut conn = setup_test();

    let player_id = PlayerId::new("one_name");
    let player_row = conn.add_player_id(&player_id).unwrap();

    let name = Username::new("Foo");
    let t0 = Timestamp::from_unix_seconds(100);
    let name_row = conn
        .add_or_update_player_name_at(&player_row, &name, t0)
        .unwrap();

    assert_eq!(name_row.player_id, player_row.internal_id);
    assert_eq!(name_row.name.as_str(), "Foo");
    assert_eq!(name_row.last_used.unix_seconds(), 100);
}

#[test]
fn add_multiple_player_names() {
    let mut conn = setup_test();

    let player_id = PlayerId::new("many_names");
    let player_row = conn.add_player_id(&player_id).unwrap();

    let t0 = Timestamp::from_unix_seconds(100);
    let t1 = Timestamp::from_unix_seconds(200);
    conn.add_or_update_player_name_at(&player_row, &Username::new("Foo"), t0)
        .unwrap();
    conn.add_or_update_player_name_at(&player_row, &Username::new("Bar"), t1)
        .unwrap();

    let names = conn.get_player_names(&player_row);
    assert_eq!(names.len(), 2);
    assert_eq!(names[0].name.as_str(), "Foo");
    assert_eq!(names[1].name.as_str(), "Bar");
}

#[test]
fn update_last_used() {
    let mut conn = setup_test();

    let player_id = PlayerId::new("touch_test");
    let player_row = conn.add_player_id(&player_id).unwrap();

    let name = Username::new("Foo");
    let t0 = Timestamp::from_unix_seconds(100);
    let t1 = Timestamp::from_unix_seconds(250);
    let first = conn
        .add_or_update_player_name_at(&player_row, &name, t0)
        .unwrap();
    let second = conn
        .add_or_update_player_name_at(&player_row, &name, t1)
        .unwrap();

    assert_eq!(first.last_used.unix_seconds(), 100);
    assert_eq!(second.last_used.unix_seconds(), 250);
    assert!(second.last_used.unix_seconds() >= first.last_used.unix_seconds());

    let names = conn.get_player_names(&player_row);
    assert_eq!(names.len(), 1);
    assert_eq!(names[0].last_used.unix_seconds(), 250);
}

#[test]
fn update_name_for_unknown_player_fails() {
    let mut conn = setup_test();

    let bogus = PlayerRow {
        internal_id: InternalPlayerId::new(7),
        slap_id: PlayerId::new("nobody"),
    };
    let res = conn.add_or_update_player_name_at(
        &bogus,
        &Username::new("Ghost"),
        Timestamp::from_unix_seconds(1),
    );
    assert_eq!(res.err(), Some(DbError::NotFound));

    let rows = conn.get_player_names(&bogus);
    assert!(rows.is_empty());
}

#[test]
fn get_player_name() {
    let mut conn = setup_test();

    let player_id = PlayerId::new("lookup_name");
    let player_row = conn.add_player_id(&player_id).unwrap();
    let t0 = Timestamp::from_unix_seconds(42);
    conn.add_or_update_player_name_at(&player_row, &Username::new("Solo"), t0)
        .unwrap();

    let names = conn.get_player_names(&player_row);
    assert_eq!(names.len(), 1);
    assert_eq!(names[0].name.as_str(), "Solo");
    assert_eq!(names[0].player_id, player_row.internal_id);
    assert_eq!(names[0].last_used.unix_seconds(), 42);
}

#[test]
fn get_player_names() {
    let mut conn = setup_test();

    let first_id = PlayerId::new("first_player");
    let second_id = PlayerId::new("second_player");
    let first_row = conn.add_player_id(&first_id).unwrap();
    let second_row = conn.add_player_id(&second_id).unwrap();

    let t: i64 = 500;
    conn.add_or_update_player_name_at(
        &first_row,
        &Username::new("A"),
        Timestamp::from_unix_seconds(t),
    )
    .unwrap();
    conn.add_or_update_player_name_at(
        &second_row,
        &Username::new("B"),
        Timestamp::from_unix_seconds(t),
    )
    .unwrap();
    conn.add_or_update_player_name_at(
        &first_row,
        &Username::new("C"),
        Timestamp::from_unix_seconds(t),
    )
    .unwrap();

    let first_names = conn.get_player_names(&first_row);
    assert_eq!(first_names.len(), 2);
    assert_eq!(first_names[0].name.as_str(), "A");
    assert_eq!(first_names[1].name.as_str(), "C");

    let second_names = conn.get_player_names(&second_row);
    assert_eq!(second_names.len(), 1);
    assert_eq!(second_names[0].name.as_str(), "B");
}

#[test]
fn get_all_players_name() {
    let mut conn = setup_test();

    // A player with no recorded aliases still gets an entry, with an empty
    // alias list.
    let lonely = conn.add_player_id(&PlayerId::new("no_alias")).unwrap();

    let grouped = conn.get_all_player_names();
    assert_eq!(grouped.len(), 1);
    assert_eq!(grouped[0].0, lonely);
    assert!(grouped[0].1.is_empty());
}

#[test]
fn get_all_players_names() {
    let mut conn = setup_test();

    let first_row = conn.add_player_id(&PlayerId::new("grp_one")).unwrap();
    let second_row = conn.add_player_id(&PlayerId::new("grp_two")).unwrap();
    let third_row = conn.add_player_id(&PlayerId::new("grp_three")).unwrap();

    let t = Timestamp::from_unix_seconds(9);
    conn.add_or_update_player_name_at(&first_row, &Username::new("One"), t)
        .unwrap();
    conn.add_or_update_player_name_at(&second_row, &Username::new("Two"), t)
        .unwrap();
    conn.add_or_update_player_name_at(&second_row, &Username::new("Deux"), t)
        .unwrap();

    let grouped = conn.get_all_player_names();
    assert_eq!(grouped.len(), 3);

    assert_eq!(grouped[0].0, first_row);
    assert_eq!(grouped[0].1.len(), 1);
    assert_eq!(grouped[0].1[0].name.as_str(), "One");

    assert_eq!(grouped[1].0, second_row);
    assert_eq!(grouped[1].1.len(), 2);
    assert_eq!(grouped[1].1[0].name.as_str(), "Two");
    assert_eq!(grouped[1].1[1].name.as_str(), "Deux");

    assert_eq!(grouped[2].0, third_row);
    assert!(grouped[2].1.is_empty());
}
