//! The index kept in a SQLite database.

use vstd::prelude::*;
use rusqlite::types::Value;
use rusqlite::Connection;
use crate::rows::pair_views;
use crate::sqlite::{
    begin, commit, last_row_id, open_connection, query_id, query_tweet, rollback, run_batch,
    run_statement, StoredTweet,
};
use crate::tweet::{
    id_from_column, id_to_column, parent_from_stored, parent_of_column, signed_column,
    unsigned_id, BrowserTweet, TweetView,
};

verus! {

/// `std::io::Error`: why a file could not be read, opaque here.
#[verifier::external_type_specification]
#[verifier::external_body]
pub struct ExIoError(std::io::Error);

const USER_SELECT: &'static str = "SELECT id FROM user WHERE twitter_id = ? AND screen_name = ? AND name = ?";

const USER_INSERT: &'static str = "INSERT INTO user (twitter_id, screen_name, name) VALUES (?, ?, ?)";

const FILE_SELECT: &'static str = "SELECT id FROM file WHERE digest = ?";

const FILE_INSERT: &'static str = "INSERT INTO file (digest, primary_twitter_id) VALUES (?, ?)";

const TWEET_SELECT_BY_ID: &'static str = "SELECT parent_twitter_id, ts, user_twitter_id, screen_name, name, content, digest FROM tweet JOIN tweet_file ON tweet_file.tweet_id = tweet.id JOIN file ON file.id = tweet_file.file_id JOIN user on user.id = tweet_file.user_id WHERE tweet.twitter_id = ? ORDER BY LENGTH(content) DESC LIMIT 1";

const TWEET_SELECT_FULL: &'static str = "SELECT id FROM tweet WHERE twitter_id = ? AND parent_twitter_id = ? AND ts = ? AND user_twitter_id = ? AND content = ?";

const TWEET_INSERT: &'static str = "INSERT INTO tweet (twitter_id, parent_twitter_id, ts, user_twitter_id, content) VALUES (?, ?, ?, ?, ?)";

const TWEET_FILE_INSERT: &'static str = "INSERT INTO tweet_file (tweet_id, file_id, user_id) VALUES (?, ?, ?)";

const DROP_TABLES: &'static str = "DROP TABLE IF EXISTS tweet; DROP TABLE IF EXISTS user; DROP TABLE IF EXISTS file; DROP TABLE IF EXISTS tweet_file;";

/// Why the store could not do what was asked.
#[derive(Debug)]
pub enum TweetStoreError {
    /// A file that the store needs could not be read.
    FileMissing(std::io::Error),
    /// SQLite refused a statement.
    DbFailure(rusqlite::Error),
}

pub type TweetStoreResult<T> = Result<T, TweetStoreError>;

/// The index in a SQLite database, behind one connection.
pub struct TweetStore {
    connection: Connection,
}

/// What a row of the lookup by id holds, as mathematical values.
pub struct StoredView {
    pub parent_twitter_id: i64,
    pub ts: i64,
    pub user_twitter_id: i64,
    pub screen_name: Seq<char>,
    pub name: Seq<char>,
    pub content: Seq<char>,
    pub digest: Seq<char>,
}

impl View for StoredTweet {
    type V = StoredView;

    open spec fn view(&self) -> StoredView {
        StoredView {
            parent_twitter_id: self.parent_twitter_id,
            ts: self.ts,
            user_twitter_id: self.user_twitter_id,
            screen_name: self.screen_name@,
            name: self.name@,
            content: self.content@,
            digest: self.digest@,
        }
    }
}

/// Whether opening a store has to load the schema: always for a new store,
/// and for one that is present where it is to be made anew.
pub open spec fn schema_needed(present: bool, recreate: bool) -> bool {
    !present || recreate
}

/// The tweet record and the digest that a row of the lookup for `id` stands
/// for. The parent reads as none where the row names the tweet itself.
pub open spec fn stored_as_tweet(id: u64, row: StoredView) -> (TweetView, Seq<char>) {
    (
        TweetView {
            id,
            parent_id: parent_of_column(id, unsigned_id(row.parent_twitter_id)),
            time: row.ts,
            user_id: unsigned_id(row.user_twitter_id),
            user_screen_name: row.screen_name,
            user_name: row.name,
            text: row.content,
        },
        row.digest,
    )
}

/// What a lookup returns for `ids` where `rows` holds, for each id, the row
/// that the database gave, or `None` where it gave none or failed: the rows
/// in the order of their ids, each read by `stored_as_tweet`.
pub open spec fn kept_tweets(ids: Seq<u64>, rows: Seq<Option<StoredView>>) -> Seq<
    (TweetView, Seq<char>),
>
    recommends
        ids.len() == rows.len(),
    decreases ids.len(),
{
    if ids.len() == 0 || rows.len() == 0 {
        Seq::empty()
    } else {
        let before = kept_tweets(ids.drop_last(), rows.drop_last());
        match rows.last() {
            Some(row) => before.push(stored_as_tweet(ids.last(), row)),
            None => before,
        }
    }
}

/// Whether `params` are these integers, in this order.
pub open spec fn integer_params(params: Seq<Value>, columns: Seq<i64>) -> bool {
    &&& params.len() >= columns.len()
    &&& forall|i: int| 0 <= i < columns.len() ==> #[trigger] params[i] == Value::Integer(columns[i])
}

/// Whether the parameter is this text.
pub open spec fn text_param(param: Value, text: Seq<char>) -> bool {
    match param {
        Value::Text(held) => held@ == text,
        _ => false,
    }
}

/// Says whether opening a store has to load the schema.
pub fn needs_schema(present: bool, recreate: bool) -> (needed: bool)
    ensures
        needed == schema_needed(present, recreate),
{
    !present || recreate
}

/// Reads a row of the lookup for `id` as a tweet record and a digest.
pub fn tweet_from_stored(id: u64, row: StoredTweet) -> (pair: (BrowserTweet, String))
    ensures
        (pair.0@, pair.1@) == stored_as_tweet(id, row@),
        pair.0.parent_id != Some(id),
{
    let parent = id_from_column(row.parent_twitter_id);
    (
        BrowserTweet::new(
            id,
            parent_from_stored(id, parent),
            row.ts,
            id_from_column(row.user_twitter_id),
            row.screen_name,
            row.name,
            row.content,
        ),
        row.digest,
    )
}

/// What the store returns for an outcome of the database: its value, or its failure as `DbFailure`.
pub fn db_result<T>(outcome: Result<T, rusqlite::Error>) -> (mapped: TweetStoreResult<T>)
    ensures
        match outcome {
            Ok(value) => mapped == Ok::<T, TweetStoreError>(value),
            Err(error) => mapped == Err::<T, TweetStoreError>(TweetStoreError::DbFailure(error)),
        },
{
    match outcome {
        Ok(value) => Ok(value),
        Err(error) => Err(TweetStoreError::DbFailure(error)),
    }
}

/// Whether an outcome is a success or a failure of the database.
pub open spec fn ok_or_db_failure<T>(outcome: TweetStoreResult<T>) -> bool {
    match outcome {
        Ok(_) => true,
        Err(TweetStoreError::DbFailure(_)) => true,
        Err(TweetStoreError::FileMissing(_)) => false,
    }
}

/// The parameters that find or insert a user: id, screen name, name.
pub fn user_params(twitter_id: u64, screen_name: &str, name: &str) -> (params: Vec<Value>)
    ensures
        params@.len() == 3,
        integer_params(params@, seq![signed_column(twitter_id)]),
        text_param(params@[1], screen_name@),
        text_param(params@[2], name@),
{
    let mut params: Vec<Value> = Vec::new();
    params.push(Value::Integer(id_to_column(twitter_id)));
    params.push(Value::Text(screen_name.to_owned()));
    params.push(Value::Text(name.to_owned()));
    params
}

/// The parameters that find or insert a tweet revision: id, parent, time,
/// user, content. A tweet without a parent is stored as its own parent.
pub fn tweet_params(tweet: &BrowserTweet) -> (params: Vec<Value>)
    ensures
        params@.len() == 5,
        integer_params(
            params@,
            seq![
                signed_column(tweet.id),
                signed_column(crate::tweet::parent_column(tweet.id, tweet.parent_id)),
                tweet.time,
                signed_column(tweet.user_id),
            ],
        ),
        text_param(params@[4], tweet.text@),
{
    let mut params: Vec<Value> = Vec::new();
    params.push(Value::Integer(id_to_column(tweet.id)));
    params.push(Value::Integer(id_to_column(tweet.stored_parent())));
    params.push(Value::Integer(tweet.time));
    params.push(Value::Integer(id_to_column(tweet.user_id)));
    params.push(Value::Text(tweet.text.clone()));
    params
}

/// The parameters that insert a file: digest, then the primary user's id or
/// null.
pub fn file_params(digest: &str, primary_twitter_id: Option<u64>) -> (params: Vec<Value>)
    ensures
        params@.len() == 2,
        text_param(params@[0], digest@),
        params@[1] == match primary_twitter_id {
            Some(id) => Value::Integer(signed_column(id)),
            None => Value::Null,
        },
{
    let mut params: Vec<Value> = Vec::new();
    params.push(Value::Text(digest.to_owned()));
    let primary = match primary_twitter_id {
        Some(id) => Value::Integer(id_to_column(id)),
        None => Value::Null,
    };
    params.push(primary);
    params
}

/// The parameters that insert a link: tweet row, file row, user row.
pub fn link_params(tweet_id: i64, file_id: i64, user_id: i64) -> (params: Vec<Value>)
    ensures
        params@.len() == 3,
        integer_params(params@, seq![tweet_id, file_id, user_id]),
{
    let mut params: Vec<Value> = Vec::new();
    params.push(Value::Integer(tweet_id));
    params.push(Value::Integer(file_id));
    params.push(Value::Integer(user_id));
    params
}

impl TweetStore {
    /// Opens the store at `path` and does what `opening_for` names: where no
    /// store was `present` there, the tables are made from `schema`; where
    /// one was and `recreate` is set, its four tables are dropped and made
    /// anew from `schema` as one unit of work, which is committed where
    /// `ends_in_commit` says so and rolled back otherwise; else the store is
    /// left as it is.
    pub fn new(path: &str, present: bool, recreate: bool, schema: &str) -> (opened: TweetStoreResult<
        TweetStore,
    >)
        ensures
            ok_or_db_failure(opened),
    {
        let connection = db_result(open_connection(path))?;
        match opening_for(present, recreate) {
            Opening::AsItIs => {},
            Opening::LoadSchema => {
                db_result(run_batch(&connection, schema))?;
            },
            Opening::DropAndLoad => {
                let transaction = db_result(begin(&connection))?;
                let rebuilt = Self::rebuild(&connection, schema);
                if ends_in_commit(&rebuilt) {
                    db_result(commit(transaction))?;
                } else {
                    let _ = rollback(transaction);
                    rebuilt?;
                }
            },
        }
        Ok(TweetStore { connection })
    }

    fn rebuild(connection: &Connection, schema: &str) -> (done: TweetStoreResult<()>)
        ensures
            ok_or_db_failure(done),
    {
        db_result(run_batch(connection, DROP_TABLES))?;
        db_result(run_batch(connection, schema))
    }

    /// The row id of the file with this digest, if the store has one.
    pub fn check_digest(&self, digest: &str) -> (found: TweetStoreResult<Option<i64>>)
        ensures
            ok_or_db_failure(found),
    {
        let params = digest_params(digest);
        let answer = query_id(&self.connection, FILE_SELECT, &params);
        db_result(answer)
    }

    /// Takes in a new file and its tweets as one unit of work, which is
    /// committed where `ends_in_commit` says so of the steps' outcome and
    /// rolled back otherwise, with the failure returned. The caller has made
    /// sure with `check_digest` that the file is new.
    pub fn add_tweets(
        &self,
        digest: &str,
        primary_twitter_id: Option<u64>,
        tweets: &[BrowserTweet],
    ) -> (done: TweetStoreResult<()>)
        ensures
            ok_or_db_failure(done),
    {
        let transaction = db_result(begin(&self.connection))?;
        let recorded = self.record_file(digest, primary_twitter_id, tweets);
        if ends_in_commit(&recorded) {
            db_result(commit(transaction))
        } else {
            let _ = rollback(transaction);
            recorded
        }
    }

    /// Inserts the file row. Then for each tweet it looks its user and its
    /// revision up, and takes the steps that `tweet_steps` names for what
    /// was found, with the rows that `row_to_link` names in the link.
    fn record_file(
        &self,
        digest: &str,
        primary_twitter_id: Option<u64>,
        tweets: &[BrowserTweet],
    ) -> (done: TweetStoreResult<()>)
        ensures
            ok_or_db_failure(done),
    {
        let file = file_params(digest, primary_twitter_id);
        db_result(run_statement(&self.connection, FILE_INSERT, &file))?;
        let file_id = last_row_id(&self.connection);
        let mut at: usize = 0;
        while at < tweets.len()
            invariant
                at <= tweets@.len(),
            decreases tweets@.len() - at,
        {
            let tweet = &tweets[at];
            let user = user_params(
                tweet.user_id,
                tweet.user_screen_name.as_str(),
                tweet.user_name.as_str(),
            );
            let revision = tweet_params(tweet);
            let found_user = db_result(query_id(&self.connection, USER_SELECT, &user))?;
            let found_tweet = db_result(query_id(&self.connection, TWEET_SELECT_FULL, &revision))?;
            let steps = tweet_steps(found_user, found_tweet);
            let user_id = Self::add_user(&self.connection, &user, found_user, steps.insert_user)?;
            let new_tweet = if steps.insert_tweet {
                db_result(run_statement(&self.connection, TWEET_INSERT, &revision))?;
                last_row_id(&self.connection)
            } else {
                0
            };
            let tweet_id = row_to_link(found_tweet, new_tweet);
            if steps.insert_link {
                let link = link_params(tweet_id, file_id, user_id);
                db_result(run_statement(&self.connection, TWEET_FILE_INSERT, &link))?;
            }
            at += 1;
        }
        Ok(())
    }

    /// The row of the user with the key `user`, given what the lookup
    /// `found`: inserts the user where `insert` is set, and returns the row
    /// that `row_to_link` names.
    fn add_user(connection: &Connection, user: &Vec<Value>, found: Option<i64>, insert: bool) -> (id:
        TweetStoreResult<i64>)
        ensures
            ok_or_db_failure(id),
            !insert ==> id == Ok::<i64, TweetStoreError>(linked_row(found, 0)),
    {
        let new_user = if insert {
            db_result(run_statement(connection, USER_INSERT, user))?;
            last_row_id(connection)
        } else {
            0
        };
        Ok(row_to_link(found, new_user))
    }

    /// For each id in turn, the longest revision that the store has of it,
    /// with the digest of a file that held it. An id for which the database
    /// gives no row, or fails, adds nothing to the result.
    pub fn get_tweet(&self, status_ids: &[u64]) -> (found: TweetStoreResult<
        Vec<(BrowserTweet, String)>,
    >)
        ensures
            found is Ok,
            exists|rows: Seq<Option<StoredView>>|
                rows.len() == status_ids@.len() && pair_views(found->Ok_0@) == kept_tweets(
                    status_ids@,
                    rows,
                ),
    {
        let mut found: Vec<(BrowserTweet, String)> = Vec::with_capacity(status_ids.len());
        let ghost mut rows: Seq<Option<StoredView>> = Seq::empty();
        let mut at: usize = 0;
        proof {
            assert(status_ids@.take(0) =~= Seq::empty());
            assert(pair_views(found@) =~= Seq::empty());
        }
        while at < status_ids.len()
            invariant
                at <= status_ids@.len(),
                rows.len() == at,
                pair_views(found@) == kept_tweets(status_ids@.take(at as int), rows),
            decreases status_ids@.len() - at,
        {
            let id = status_ids[at];
            let params = id_params(id);
            let ghost before = found@;
            let ghost rows_before = rows;
            match query_tweet(&self.connection, TWEET_SELECT_BY_ID, &params) {
                Ok(Some(row)) => {
                    proof {
                        rows = rows.push(Some(row@));
                    }
                    let pair = tweet_from_stored(id, row);
                    found.push(pair);
                    proof {
                        assert(pair_views(found@) =~= pair_views(before).push((pair.0@, pair.1@)));
                    }
                },
                _ => {
                    proof {
                        rows = rows.push(None);
                    }
                },
            }
            proof {
                let next = status_ids@.take(at + 1);
                assert(next.drop_last() =~= status_ids@.take(at as int));
                assert(next.last() == id);
                assert(rows.drop_last() =~= rows_before);
            }
            at += 1;
        }
        proof {
            assert(status_ids@.take(at as int) =~= status_ids@);
        }
        Ok(found)
    }
}

/// The parameter that finds a file: its digest.
pub fn digest_params(digest: &str) -> (params: Vec<Value>)
    ensures
        params@.len() == 1,
        text_param(params@[0], digest@),
{
    let mut params: Vec<Value> = Vec::new();
    params.push(Value::Text(digest.to_owned()));
    params
}

/// The parameter that looks a tweet up: its id.
pub fn id_params(id: u64) -> (params: Vec<Value>)
    ensures
        params@.len() == 1,
        integer_params(params@, seq![signed_column(id)]),
{
    let mut params: Vec<Value> = Vec::new();
    params.push(Value::Integer(id_to_column(id)));
    params
}

/// What is done to the database when a store is opened.
#[derive(Debug, Clone, Copy, PartialEq, Eq, Structural)]
pub enum Opening {
    /// Nothing: the store is used as it is.
    AsItIs,
    /// The tables are made from the schema.
    LoadSchema,
    /// The four tables are dropped and made anew from the schema, as one
    /// unit of work.
    DropAndLoad,
}

/// What opening a store does: a store that was not there gets its tables
/// whatever `recreate` says; one that was there is made anew where
/// `recreate` is set and left as it is otherwise.
pub open spec fn opening_of(present: bool, recreate: bool) -> Opening {
    if !present {
        Opening::LoadSchema
    } else if recreate {
        Opening::DropAndLoad
    } else {
        Opening::AsItIs
    }
}

/// Says what opening a store does to the database.
pub fn opening_for(present: bool, recreate: bool) -> (opening: Opening)
    ensures
        opening == opening_of(present, recreate),
        schema_needed(present, recreate) == (opening != Opening::AsItIs),
{
    if !present {
        Opening::LoadSchema
    } else if recreate {
        Opening::DropAndLoad
    } else {
        Opening::AsItIs
    }
}

/// The statements that one tweet of a file takes, once its user and its
/// revision were looked up.
#[derive(Debug, Clone, Copy, PartialEq, Eq, Structural)]
pub struct TweetSteps {
    pub insert_user: bool,
    pub insert_tweet: bool,
    pub insert_link: bool,
}

/// A user or a revision is inserted only where the lookup found no row for
/// it; the link is inserted whatever was found.
pub open spec fn steps_for(found_user: Option<i64>, found_tweet: Option<i64>) -> TweetSteps {
    TweetSteps {
        insert_user: found_user is None,
        insert_tweet: found_tweet is None,
        insert_link: true,
    }
}

/// The row that a link names: the row that the lookup found, or the row
/// that was inserted where it found none.
pub open spec fn linked_row(found: Option<i64>, inserted: i64) -> i64 {
    match found {
        Some(id) => id,
        None => inserted,
    }
}

/// Says which statements one tweet takes, given what the lookups found.
pub fn tweet_steps(found_user: Option<i64>, found_tweet: Option<i64>) -> (steps: TweetSteps)
    ensures
        steps == steps_for(found_user, found_tweet),
{
    TweetSteps {
        insert_user: found_user.is_none(),
        insert_tweet: found_tweet.is_none(),
        insert_link: true,
    }
}

/// Says which row a link names, given what the lookup found and the row
/// that was inserted where it found none.
pub fn row_to_link(found: Option<i64>, inserted: i64) -> (row: i64)
    ensures
        row == linked_row(found, inserted),
{
    match found {
        Some(id) => id,
        None => inserted,
    }
}

/// Says how a unit of work ends: it is committed where its steps succeeded
/// and rolled back where one failed.
pub fn ends_in_commit<T>(outcome: &TweetStoreResult<T>) -> (commit: bool)
    ensures
        commit == (*outcome is Ok),
{
    outcome.is_ok()
}

} // verus!
