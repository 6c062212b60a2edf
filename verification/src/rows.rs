//! The four tables of the index as sequences of rows, and what taking a file
//! in means for them where a lookup answers with the row that holds a key and
//! an insert adds a last row. That the tables of a SQLite database behave so
//! is not proved here.

use vstd::prelude::*;
use crate::store::{linked_row, steps_for};
use crate::tweet::{parent_column, BrowserTweet, TweetView};

verus! {

/// A user as named at one time. A user who changes either name gets a new
/// row.
pub struct UserKey {
    pub twitter_id: u64,
    pub screen_name: Seq<char>,
    pub name: Seq<char>,
}

/// One archived capture, known by the digest of its content.
pub struct FileKey {
    pub digest: Seq<char>,
    pub primary_twitter_id: Option<u64>,
}

/// One revision of a tweet. Two captures of a tweet that differ in any column
/// are two revisions. A tweet without a parent has its own id as its parent.
pub struct TweetKey {
    pub twitter_id: u64,
    pub parent_twitter_id: u64,
    pub ts: i64,
    pub user_twitter_id: u64,
    pub content: Seq<char>,
}

/// One sighting: a file held a tweet revision, written by a user as named
/// then. Each field is the position of a row in its table.
pub struct Link {
    pub tweet_id: int,
    pub file_id: int,
    pub user_id: int,
}

/// The four tables as sequences of rows, each row known by its position.
pub struct Index {
    pub users: Seq<UserKey>,
    pub files: Seq<FileKey>,
    pub tweets: Seq<TweetKey>,
    pub links: Seq<Link>,
}

/// The user columns of a tweet record.
pub open spec fn user_key(tweet: TweetView) -> UserKey {
    UserKey {
        twitter_id: tweet.user_id,
        screen_name: tweet.user_screen_name,
        name: tweet.user_name,
    }
}

/// The tweet columns of a tweet record. A tweet without a parent is stored as
/// its own parent.
pub open spec fn tweet_key(tweet: TweetView) -> TweetKey {
    TweetKey {
        twitter_id: tweet.id,
        parent_twitter_id: parent_column(tweet.id, tweet.parent_id),
        ts: tweet.time,
        user_twitter_id: tweet.user_id,
        content: tweet.text,
    }
}

/// The position of `key` among `rows`, or the position that a new row would
/// get where `rows` does not hold it.
pub open spec fn row_of<K>(rows: Seq<K>, key: K) -> int {
    if rows.contains(key) {
        rows.index_of(key)
    } else {
        rows.len() as int
    }
}

/// `rows` with `key` in it: unchanged where it is there already, else with
/// `key` as a new last row.
pub open spec fn with_row<K>(rows: Seq<K>, key: K) -> Seq<K> {
    if rows.contains(key) {
        rows
    } else {
        rows.push(key)
    }
}

/// Whether some file row has this digest.
pub open spec fn has_digest(files: Seq<FileKey>, digest: Seq<char>) -> bool {
    exists|i: int| 0 <= i < files.len() && (#[trigger] files[i]).digest == digest
}

/// No two file rows share a digest.
pub open spec fn distinct_digests(files: Seq<FileKey>) -> bool {
    forall|i: int, j: int|
        0 <= i < files.len() && 0 <= j < files.len() && i != j ==> (#[trigger] files[i]).digest != (
        #[trigger] files[j]).digest
}

/// Whether a link points at rows that exist.
pub open spec fn link_in_range(index: Index, link: Link) -> bool {
    &&& 0 <= link.tweet_id < index.tweets.len()
    &&& 0 <= link.file_id < index.files.len()
    &&& 0 <= link.user_id < index.users.len()
}

/// What holds of every index: no user, file digest or tweet revision has two
/// rows, and every link points at rows that exist.
pub open spec fn well_formed(index: Index) -> bool {
    &&& index.users.no_duplicates()
    &&& index.tweets.no_duplicates()
    &&& distinct_digests(index.files)
    &&& forall|i: int| 0 <= i < index.links.len() ==> link_in_range(index, #[trigger] index.links[i])
}

/// The index after one tweet of the file at `file_id` was recorded: the user
/// and the revision each get a row unless they have one, and the sighting
/// gets a link in either case.
pub open spec fn record_tweet(index: Index, file_id: int, tweet: TweetView) -> Index {
    Index {
        users: with_row(index.users, user_key(tweet)),
        files: index.files,
        tweets: with_row(index.tweets, tweet_key(tweet)),
        links: index.links.push(
            Link {
                tweet_id: row_of(index.tweets, tweet_key(tweet)),
                file_id,
                user_id: row_of(index.users, user_key(tweet)),
            },
        ),
    }
}

/// The index after the tweets of the file at `file_id` were recorded, first
/// to last.
pub open spec fn record_tweets(index: Index, file_id: int, tweets: Seq<TweetView>) -> Index
    decreases tweets.len(),
{
    if tweets.len() == 0 {
        index
    } else {
        record_tweet(record_tweets(index, file_id, tweets.drop_last()), file_id, tweets.last())
    }
}

/// The index after a new file and its tweets were taken in.
pub open spec fn ingest(
    index: Index,
    digest: Seq<char>,
    primary_twitter_id: Option<u64>,
    tweets: Seq<TweetView>,
) -> Index {
    record_tweets(
        Index {
            users: index.users,
            files: index.files.push(FileKey { digest, primary_twitter_id }),
            tweets: index.tweets,
            links: index.links,
        },
        index.files.len() as int,
        tweets,
    )
}

/// The views of a list of tweet records, each paired with a digest.
pub open spec fn pair_views(pairs: Seq<(BrowserTweet, String)>) -> Seq<(TweetView, Seq<char>)> {
    Seq::new(pairs.len(), |i: int| (pairs[i].0@, pairs[i].1@))
}

/// What a lookup of `key` answers where the table holds `rows`: the
/// position of the row with that key, or nothing where there is none.
pub open spec fn found_row<K>(rows: Seq<K>, key: K) -> Option<i64> {
    if rows.contains(key) {
        Some(rows.index_of(key) as i64)
    } else {
        None
    }
}

/// The index after the steps that `steps_for` names for one tweet were
/// taken, given what the two lookups found. An insert adds a last row, and
/// the link names the rows that `linked_row` gives.
pub open spec fn after_steps(
    index: Index,
    file_id: int,
    tweet: TweetView,
    found_user: Option<i64>,
    found_tweet: Option<i64>,
) -> Index {
    let steps = steps_for(found_user, found_tweet);
    Index {
        users: if steps.insert_user {
            index.users.push(user_key(tweet))
        } else {
            index.users
        },
        files: index.files,
        tweets: if steps.insert_tweet {
            index.tweets.push(tweet_key(tweet))
        } else {
            index.tweets
        },
        links: if steps.insert_link {
            index.links.push(
                Link {
                    tweet_id: linked_row(found_tweet, index.tweets.len() as i64) as int,
                    file_id,
                    user_id: linked_row(found_user, index.users.len() as i64) as int,
                },
            )
        } else {
            index.links
        },
    }
}

} // verus!
