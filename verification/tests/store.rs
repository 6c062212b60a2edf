use rusqlite::types::Value;
use tweet_store::sqlite::StoredTweet;
use tweet_store::store::{
    db_result, digest_params, ends_in_commit, file_params, id_params, link_params, needs_schema,
    opening_for, row_to_link, tweet_from_stored, tweet_params, tweet_steps, user_params, Opening,
    TweetSteps, TweetStore, TweetStoreError, TweetStoreResult,
};
use tweet_store::tweet::BrowserTweet;

const SCHEMA: &str = "
    CREATE TABLE user (
        id INTEGER PRIMARY KEY,
        twitter_id INTEGER NOT NULL,
        screen_name TEXT NOT NULL,
        name TEXT NOT NULL,
        UNIQUE (twitter_id, screen_name, name)
    );
    CREATE TABLE file (
        id INTEGER PRIMARY KEY,
        digest TEXT NOT NULL UNIQUE,
        primary_twitter_id INTEGER
    );
    CREATE TABLE tweet (
        id INTEGER PRIMARY KEY,
        twitter_id INTEGER NOT NULL,
        parent_twitter_id INTEGER NOT NULL,
        ts INTEGER NOT NULL,
        user_twitter_id INTEGER NOT NULL,
        content TEXT NOT NULL,
        UNIQUE (twitter_id, parent_twitter_id, ts, user_twitter_id, content)
    );
    CREATE TABLE tweet_file (
        id INTEGER PRIMARY KEY,
        tweet_id INTEGER NOT NULL REFERENCES tweet (id),
        file_id INTEGER NOT NULL REFERENCES file (id),
        user_id INTEGER NOT NULL REFERENCES user (id)
    );
";

const T: i64 = 1_600_000_000;

fn tweet(id: u64, parent: Option<u64>, user: u64, screen_name: &str, name: &str, text: &str) -> BrowserTweet {
    BrowserTweet::new(
        id,
        parent,
        T,
        user,
        screen_name.to_string(),
        name.to_string(),
        text.to_string(),
    )
}

fn fresh_store() -> TweetStore {
    TweetStore::new(":memory:", false, false, SCHEMA).expect("a store in memory")
}

#[test]
fn schema_is_needed_for_new_and_recreated_stores() {
    assert!(needs_schema(false, false));
    assert!(needs_schema(false, true));
    assert!(needs_schema(true, true));
    assert!(!needs_schema(true, false));
}

#[test]
fn new_store_has_no_files_and_no_tweets() {
    let store = fresh_store();
    assert_eq!(store.check_digest("d1").unwrap(), None);
    assert!(store.get_tweet(&[100]).unwrap().is_empty());
}

#[test]
fn recreate_makes_the_tables_anew() {
    let store = TweetStore::new(":memory:", true, true, SCHEMA).expect("a store in memory");
    assert_eq!(store.check_digest("d1").unwrap(), None);
    store.add_tweets("d1", None, &[tweet(1, None, 7, "a", "A", "x")]).unwrap();
    assert!(store.check_digest("d1").unwrap().is_some());
}

#[test]
fn bad_schema_is_a_database_failure() {
    let opened = TweetStore::new(":memory:", false, false, "CREATE TABLE");
    assert!(matches!(opened, Err(TweetStoreError::DbFailure(_))));
}

#[test]
fn store_without_tables_fails_on_use() {
    let store = TweetStore::new(":memory:", true, false, SCHEMA).expect("a store in memory");
    assert!(matches!(store.check_digest("d1"), Err(TweetStoreError::DbFailure(_))));
    assert!(matches!(
        store.add_tweets("d1", None, &[]),
        Err(TweetStoreError::DbFailure(_))
    ));
    assert!(store.get_tweet(&[1]).unwrap().is_empty());
}

#[test]
fn store_finds_ingested_digest() {
    let store = fresh_store();
    store.add_tweets("d1", Some(7), &[]).unwrap();
    store.add_tweets("d2", None, &[]).unwrap();
    let first = store.check_digest("d1").unwrap();
    let second = store.check_digest("d2").unwrap();
    assert!(first.is_some());
    assert!(second.is_some());
    assert_ne!(first, second);
    assert_eq!(store.check_digest("d3").unwrap(), None);
}

#[test]
fn failed_ingestion_leaves_nothing_behind() {
    let store = fresh_store();
    store.add_tweets("d1", None, &[tweet(1, None, 7, "a", "A", "one")]).unwrap();
    let again = store.add_tweets("d1", None, &[tweet(2, None, 8, "b", "B", "two")]);
    assert!(matches!(again, Err(TweetStoreError::DbFailure(_))));
    assert!(store.get_tweet(&[2]).unwrap().is_empty());
    assert_eq!(store.get_tweet(&[1]).unwrap().len(), 1);
    store.add_tweets("d2", None, &[tweet(2, None, 8, "b", "B", "two")]).unwrap();
    assert_eq!(store.get_tweet(&[2]).unwrap().len(), 1);
}

#[test]
fn store_returns_longest_revision_with_its_file() {
    let store = fresh_store();
    assert_eq!(store.check_digest("d1").unwrap(), None);
    store.add_tweets("d1", None, &[tweet(100, Some(100), 7, "a", "A", "hi")]).unwrap();
    assert_eq!(store.check_digest("d2").unwrap(), None);
    let second = [
        tweet(100, Some(100), 7, "a", "A", "hi"),
        tweet(100, Some(100), 7, "a", "A", "hi there"),
    ];
    store.add_tweets("d2", None, &second).unwrap();
    let found = store.get_tweet(&[100]).unwrap();
    assert_eq!(found.len(), 1);
    assert_eq!(found[0].0.id, 100);
    assert_eq!(found[0].0.parent_id, None);
    assert_eq!(found[0].0.time, T);
    assert_eq!(found[0].0.user_id, 7);
    assert_eq!(found[0].0.user_screen_name, "a");
    assert_eq!(found[0].0.user_name, "A");
    assert_eq!(found[0].0.text, "hi there");
    assert_eq!(found[0].1, "d2");
}

#[test]
fn store_keeps_same_tweet_from_two_files_once() {
    let store = fresh_store();
    store.add_tweets("d1", None, &[tweet(100, None, 7, "a", "A", "hi")]).unwrap();
    store.add_tweets("d2", None, &[tweet(100, None, 7, "a", "A", "hi")]).unwrap();
    let found = store.get_tweet(&[100]).unwrap();
    assert_eq!(found.len(), 1);
    assert_eq!(found[0].0.text, "hi");
}

#[test]
fn store_keeps_large_ids_and_parents() {
    let store = fresh_store();
    let seen = [tweet(u64::MAX, Some(1u64 << 63), u64::MAX - 1, "a", "A", "big")];
    store.add_tweets("d1", None, &seen).unwrap();
    let found = store.get_tweet(&[u64::MAX]).unwrap();
    assert_eq!(found.len(), 1);
    assert_eq!(found[0].0.id, u64::MAX);
    assert_eq!(found[0].0.parent_id, Some(1u64 << 63));
    assert_eq!(found[0].0.user_id, u64::MAX - 1);
}

#[test]
fn store_skips_unknown_ids_and_keeps_order() {
    let store = fresh_store();
    let seen = [tweet(1, None, 7, "a", "A", "one"), tweet(2, Some(1), 8, "b", "B", "two")];
    store.add_tweets("d1", Some(7), &seen).unwrap();
    let found = store.get_tweet(&[2, 9, 1]).unwrap();
    assert_eq!(found.len(), 2);
    assert_eq!(found[0].0.id, 2);
    assert_eq!(found[0].0.parent_id, Some(1));
    assert_eq!(found[0].0.user_screen_name, "b");
    assert_eq!(found[1].0.id, 1);
    assert_eq!(found[1].0.parent_id, None);
}

#[test]
fn store_returns_each_tweet_with_its_author_as_named() {
    let store = fresh_store();
    let first = [
        tweet(1, None, 7, "old", "A", "one"),
        tweet(2, Some(1), 8, "b", "B", "two"),
        tweet(3, Some(2), 7, "new", "A", "three"),
    ];
    let second = [tweet(2, Some(1), 8, "b", "B", "two, but longer"), tweet(1, None, 7, "old", "A", "one")];
    store.add_tweets("d1", Some(7), &first).unwrap();
    store.add_tweets("d2", None, &second).unwrap();
    let found = store.get_tweet(&[3, 2, 4, 1]).unwrap();
    assert_eq!(found.len(), 3);
    assert_eq!(found[0].0.id, 3);
    assert_eq!(found[0].0.parent_id, Some(2));
    assert_eq!(found[0].0.user_id, 7);
    assert_eq!(found[0].0.user_screen_name, "new");
    assert_eq!(found[0].0.user_name, "A");
    assert_eq!(found[0].0.text, "three");
    assert_eq!(found[0].1, "d1");
    assert_eq!(found[1].0.id, 2);
    assert_eq!(found[1].0.text, "two, but longer");
    assert_eq!(found[1].0.user_screen_name, "b");
    assert_eq!(found[1].1, "d2");
    assert_eq!(found[2].0.id, 1);
    assert_eq!(found[2].0.parent_id, None);
    assert_eq!(found[2].0.user_screen_name, "old");
    assert_eq!(found[2].0.time, T);
}

#[test]
fn stored_row_reads_as_tweet() {
    let row = StoredTweet {
        parent_twitter_id: 5,
        ts: T,
        user_twitter_id: -1,
        screen_name: "sn".to_string(),
        name: "n".to_string(),
        content: "text".to_string(),
        digest: "d".to_string(),
    };
    let (tweet, digest) = tweet_from_stored(5, row);
    assert_eq!(tweet.id, 5);
    assert_eq!(tweet.parent_id, None);
    assert_eq!(tweet.time, T);
    assert_eq!(tweet.user_id, u64::MAX);
    assert_eq!(tweet.user_screen_name, "sn");
    assert_eq!(tweet.user_name, "n");
    assert_eq!(tweet.text, "text");
    assert_eq!(digest, "d");
}

#[test]
fn stored_row_with_other_parent_keeps_it() {
    let row = StoredTweet {
        parent_twitter_id: 4,
        ts: 0,
        user_twitter_id: 7,
        screen_name: String::new(),
        name: String::new(),
        content: String::new(),
        digest: String::new(),
    };
    let (tweet, _) = tweet_from_stored(5, row);
    assert_eq!(tweet.parent_id, Some(4));
}

#[test]
fn statement_parameters_follow_the_columns() {
    assert_eq!(
        user_params(7, "sn", "n"),
        vec![Value::Integer(7), Value::Text("sn".to_string()), Value::Text("n".to_string())]
    );
    assert_eq!(
        tweet_params(&tweet(100, None, u64::MAX, "a", "A", "hi")),
        vec![
            Value::Integer(100),
            Value::Integer(100),
            Value::Integer(T),
            Value::Integer(-1),
            Value::Text("hi".to_string())
        ]
    );
    assert_eq!(
        tweet_params(&tweet(100, Some(99), 7, "a", "A", "hi"))[1],
        Value::Integer(99)
    );
    assert_eq!(file_params("d1", None), vec![Value::Text("d1".to_string()), Value::Null]);
    assert_eq!(file_params("d1", Some(7))[1], Value::Integer(7));
    assert_eq!(
        link_params(1, 2, 3),
        vec![Value::Integer(1), Value::Integer(2), Value::Integer(3)]
    );
}

fn shared_store(name: &str) -> (TweetStore, rusqlite::Connection, String) {
    let path = format!("file:{}?mode=memory&cache=shared", name);
    let store = TweetStore::new(&path, false, false, SCHEMA).expect("a shared store in memory");
    let reader = rusqlite::Connection::open(&path).expect("a second connection");
    (store, reader, path)
}

fn count_rows(reader: &rusqlite::Connection, table: &str) -> i64 {
    reader
        .query_row(&format!("SELECT COUNT(*) FROM {}", table), [], |row| row.get(0))
        .expect("a count")
}

#[test]
fn database_keeps_one_row_for_a_tweet_seen_in_two_files() {
    let (store, reader, _) = shared_store("one_row_two_files");
    store.add_tweets("d1", None, &[tweet(100, None, 7, "a", "A", "hi")]).unwrap();
    store.add_tweets("d2", None, &[tweet(100, None, 7, "a", "A", "hi")]).unwrap();
    assert_eq!(count_rows(&reader, "tweet"), 1);
    assert_eq!(count_rows(&reader, "tweet_file"), 2);
    assert_eq!(count_rows(&reader, "file"), 2);
    assert_eq!(count_rows(&reader, "user"), 1);
}

#[test]
fn database_keeps_a_row_for_each_screen_name() {
    let (store, reader, _) = shared_store("two_screen_names");
    let seen = [tweet(1, None, 7, "old", "A", "x"), tweet(2, None, 7, "new", "A", "y")];
    store.add_tweets("d1", None, &seen).unwrap();
    assert_eq!(count_rows(&reader, "user"), 2);
    let names: i64 = reader
        .query_row("SELECT COUNT(DISTINCT screen_name) FROM user WHERE twitter_id = 7", [], |row| {
            row.get(0)
        })
        .unwrap();
    assert_eq!(names, 2);
}

#[test]
fn database_rows_for_two_files_with_a_longer_revision() {
    let (store, reader, _) = shared_store("longer_revision");
    store.add_tweets("d1", None, &[tweet(100, Some(100), 7, "a", "A", "hi")]).unwrap();
    let second = [
        tweet(100, Some(100), 7, "a", "A", "hi"),
        tweet(100, Some(100), 7, "a", "A", "hi there"),
    ];
    store.add_tweets("d2", None, &second).unwrap();
    assert_eq!(count_rows(&reader, "tweet"), 2);
    assert_eq!(count_rows(&reader, "file"), 2);
    assert_eq!(count_rows(&reader, "tweet_file"), 3);
    let parent: i64 = reader
        .query_row("SELECT MIN(parent_twitter_id) FROM tweet WHERE twitter_id = 100", [], |row| {
            row.get(0)
        })
        .unwrap();
    assert_eq!(parent, 100);
    let found = store.get_tweet(&[100]).unwrap();
    assert_eq!(found[0].0.text, "hi there");
    assert_eq!(found[0].1, "d2");
}

#[test]
fn database_has_a_link_for_each_tweet_and_a_row_for_each_new_key() {
    let (store, reader, _) = shared_store("same_counts");
    let first = [
        tweet(1, None, 7, "old", "A", "one"),
        tweet(2, Some(1), 8, "b", "B", "two"),
        tweet(1, None, 7, "old", "A", "one"),
    ];
    let second = [tweet(2, Some(1), 8, "b", "B", "two"), tweet(3, None, 7, "new", "A", "three")];
    store.add_tweets("d1", Some(7), &first).unwrap();
    assert_eq!(count_rows(&reader, "user"), 2);
    assert_eq!(count_rows(&reader, "file"), 1);
    assert_eq!(count_rows(&reader, "tweet"), 2);
    assert_eq!(count_rows(&reader, "tweet_file"), 3);
    store.add_tweets("d2", None, &second).unwrap();
    assert_eq!(count_rows(&reader, "user"), 3);
    assert_eq!(count_rows(&reader, "file"), 2);
    assert_eq!(count_rows(&reader, "tweet"), 3);
    assert_eq!(count_rows(&reader, "tweet_file"), 5);
    let links_of_two: i64 = reader
        .query_row(
            "SELECT COUNT(*) FROM tweet_file JOIN tweet ON tweet.id = tweet_file.tweet_id WHERE tweet.twitter_id = 2",
            [],
            |row| row.get(0),
        )
        .unwrap();
    assert_eq!(links_of_two, 2);
    let primary: Option<i64> = reader
        .query_row("SELECT primary_twitter_id FROM file WHERE digest = 'd1'", [], |row| row.get(0))
        .unwrap();
    assert_eq!(primary, Some(7));
    let none: Option<i64> = reader
        .query_row("SELECT primary_twitter_id FROM file WHERE digest = 'd2'", [], |row| row.get(0))
        .unwrap();
    assert_eq!(none, None);
}

#[test]
fn database_records_a_capture_without_tweets() {
    let (store, reader, _) = shared_store("no_tweets");
    store.add_tweets("d1", None, &[]).unwrap();
    assert_eq!(count_rows(&reader, "file"), 1);
    assert_eq!(count_rows(&reader, "tweet_file"), 0);
    assert!(store.check_digest("d1").unwrap().is_some());
}

#[test]
fn database_links_name_the_rows_of_their_tweet_and_user() {
    let (store, reader, _) = shared_store("links_name_rows");
    let seen = [tweet(1, None, 7, "old", "N", "x"), tweet(2, None, 7, "new", "N", "y")];
    store.add_tweets("d1", None, &seen).unwrap();
    store.add_tweets("d2", None, &[tweet(1, None, 7, "old", "N", "x")]).unwrap();
    let matching: i64 = reader
        .query_row(
            "SELECT COUNT(*) FROM tweet_file
                JOIN tweet ON tweet.id = tweet_file.tweet_id
                JOIN user ON user.id = tweet_file.user_id
                JOIN file ON file.id = tweet_file.file_id
                WHERE (tweet.twitter_id = 1 AND user.screen_name = 'old' AND file.digest IN ('d1', 'd2'))
                   OR (tweet.twitter_id = 2 AND user.screen_name = 'new' AND file.digest = 'd1')",
            [],
            |row| row.get(0),
        )
        .unwrap();
    assert_eq!(matching, 3);
    assert_eq!(count_rows(&reader, "tweet_file"), 3);
    assert_eq!(count_rows(&reader, "user"), 2);
}

#[test]
fn database_keeps_nothing_of_a_failed_ingestion() {
    let (store, reader, _) = shared_store("nothing_kept");
    store.add_tweets("d1", None, &[tweet(1, None, 7, "a", "A", "one")]).unwrap();
    let again = store.add_tweets("d1", None, &[tweet(2, None, 8, "b", "B", "two")]);
    assert!(matches!(again, Err(TweetStoreError::DbFailure(_))));
    assert_eq!(count_rows(&reader, "file"), 1);
    assert_eq!(count_rows(&reader, "user"), 1);
    assert_eq!(count_rows(&reader, "tweet"), 1);
    assert_eq!(count_rows(&reader, "tweet_file"), 1);
}

#[test]
fn recreate_drops_what_the_database_held() {
    let (store, reader, path) = shared_store("recreated");
    store.add_tweets("d1", None, &[tweet(1, None, 7, "a", "A", "one")]).unwrap();
    assert_eq!(count_rows(&reader, "tweet"), 1);
    let kept = TweetStore::new(&path, true, false, "").expect("the same store");
    assert!(kept.check_digest("d1").unwrap().is_some());
    drop(kept);
    drop(store);
    let anew = TweetStore::new(&path, true, true, SCHEMA).expect("the store made anew");
    assert_eq!(anew.check_digest("d1").unwrap(), None);
    assert_eq!(count_rows(&reader, "tweet"), 0);
    assert_eq!(count_rows(&reader, "file"), 0);
}

#[test]
fn digest_parameter_is_the_digest_as_text() {
    assert_eq!(digest_params("d1"), vec![Value::Text("d1".to_string())]);
    assert_eq!(digest_params(""), vec![Value::Text(String::new())]);
}

#[test]
fn database_outcome_is_passed_on() {
    assert!(matches!(db_result(Ok(Some(7i64))), Ok(Some(7))));
    assert!(matches!(db_result(Ok(None::<i64>)), Ok(None)));
    assert!(matches!(
        db_result::<i64>(Err(rusqlite::Error::QueryReturnedNoRows)),
        Err(TweetStoreError::DbFailure(rusqlite::Error::QueryReturnedNoRows))
    ));
    assert!(matches!(
        db_result::<()>(Err(rusqlite::Error::InvalidQuery)),
        Err(TweetStoreError::DbFailure(rusqlite::Error::InvalidQuery))
    ));
}

#[test]
fn id_parameter_is_the_id_as_a_signed_integer() {
    assert_eq!(id_params(100), vec![Value::Integer(100)]);
    assert_eq!(id_params(0), vec![Value::Integer(0)]);
    assert_eq!(id_params(u64::MAX), vec![Value::Integer(-1)]);
}

#[test]
fn opening_follows_presence_and_recreate() {
    assert_eq!(opening_for(false, false), Opening::LoadSchema);
    assert_eq!(opening_for(false, true), Opening::LoadSchema);
    assert_eq!(opening_for(true, true), Opening::DropAndLoad);
    assert_eq!(opening_for(true, false), Opening::AsItIs);
    for present in [false, true] {
        for recreate in [false, true] {
            assert_eq!(
                needs_schema(present, recreate),
                opening_for(present, recreate) != Opening::AsItIs
            );
        }
    }
}

#[test]
fn rows_are_inserted_only_where_none_was_found() {
    assert_eq!(
        tweet_steps(None, None),
        TweetSteps { insert_user: true, insert_tweet: true, insert_link: true }
    );
    assert_eq!(
        tweet_steps(Some(3), None),
        TweetSteps { insert_user: false, insert_tweet: true, insert_link: true }
    );
    assert_eq!(
        tweet_steps(None, Some(5)),
        TweetSteps { insert_user: true, insert_tweet: false, insert_link: true }
    );
    assert_eq!(
        tweet_steps(Some(3), Some(5)),
        TweetSteps { insert_user: false, insert_tweet: false, insert_link: true }
    );
}

#[test]
fn link_names_the_row_found_or_else_the_row_inserted() {
    assert_eq!(row_to_link(Some(3), 9), 3);
    assert_eq!(row_to_link(Some(0), 9), 0);
    assert_eq!(row_to_link(None, 9), 9);
    assert_eq!(row_to_link(None, -1), -1);
}

#[test]
fn unit_of_work_is_committed_on_success_only() {
    let done: TweetStoreResult<()> = Ok(());
    assert!(ends_in_commit(&done));
    let found: TweetStoreResult<Option<i64>> = Ok(None);
    assert!(ends_in_commit(&found));
    let failed: TweetStoreResult<()> = Err(TweetStoreError::DbFailure(rusqlite::Error::InvalidQuery));
    assert!(!ends_in_commit(&failed));
    let missing: TweetStoreResult<()> = Err(TweetStoreError::FileMissing(std::io::Error::new(
        std::io::ErrorKind::NotFound,
        "no schema",
    )));
    assert!(!ends_in_commit(&missing));
}

#[test]
fn failed_rebuild_keeps_what_the_database_held() {
    let (store, reader, path) = shared_store("failed_rebuild");
    store.add_tweets("d1", None, &[tweet(1, None, 7, "a", "A", "one")]).unwrap();
    drop(store);
    let opened = TweetStore::new(&path, true, true, "CREATE TABLE");
    assert!(matches!(opened, Err(TweetStoreError::DbFailure(_))));
    assert_eq!(count_rows(&reader, "tweet"), 1);
    assert_eq!(count_rows(&reader, "file"), 1);
    assert_eq!(count_rows(&reader, "tweet_file"), 1);
}
