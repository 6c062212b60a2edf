//! What holds of the rows whatever is taken in: rows are only ever added and
//! no row is repeated. These laws are proved of the tables as sequences of
//! rows and of the steps that the store decides on. They are not proved of
//! a SQLite database: that it answers and inserts as the sequences do is
//! what the store relies on, and what its tests hold it to.

use vstd::prelude::*;
use crate::rows::{
    after_steps, distinct_digests, found_row, has_digest, ingest, link_in_range, record_tweet,
    record_tweets, row_of, tweet_key, user_key, well_formed, with_row, FileKey, Index,
};
use crate::tweet::TweetView;

verus! {

/// A key has a row after `with_row`, at the position that `row_of` gave
/// before, and the rows that were there stay where they were.
pub proof fn with_row_keeps_rows<K>(rows: Seq<K>, key: K)
    requires
        rows.no_duplicates(),
    ensures
        with_row(rows, key).no_duplicates(),
        with_row(rows, key).contains(key),
        rows.is_prefix_of(with_row(rows, key)),
        0 <= row_of(rows, key) < with_row(rows, key).len(),
        with_row(rows, key)[row_of(rows, key)] == key,
        row_of(with_row(rows, key), key) == row_of(rows, key),
        with_row(with_row(rows, key), key) == with_row(rows, key),
{
    let after = with_row(rows, key);
    if rows.contains(key) {
        assert(rows =~= rows.subrange(0, rows.len() as int));
    } else {
        assert(after[rows.len() as int] == key);
        assert(rows =~= after.subrange(0, rows.len() as int));
    }
    assert(after.contains(key));
    assert(after[row_of(rows, key)] == key);
}

/// Recording the tweets of a file that has its row keeps the index well
/// formed, adds one link for each tweet, and changes no row that was there.
pub proof fn record_tweets_keeps_rows(index: Index, file_id: int, tweets: Seq<TweetView>)
    requires
        well_formed(index),
        0 <= file_id < index.files.len(),
    ensures
        well_formed(record_tweets(index, file_id, tweets)),
        record_tweets(index, file_id, tweets).files == index.files,
        index.users.is_prefix_of(record_tweets(index, file_id, tweets).users),
        index.tweets.is_prefix_of(record_tweets(index, file_id, tweets).tweets),
        index.links.is_prefix_of(record_tweets(index, file_id, tweets).links),
        record_tweets(index, file_id, tweets).links.len() == index.links.len() + tweets.len(),
    decreases tweets.len(),
{
    if tweets.len() == 0 {
        assert(index.users =~= index.users.subrange(0, index.users.len() as int));
        assert(index.tweets =~= index.tweets.subrange(0, index.tweets.len() as int));
        assert(index.links =~= index.links.subrange(0, index.links.len() as int));
    } else {
        let before = record_tweets(index, file_id, tweets.drop_last());
        let after = record_tweet(before, file_id, tweets.last());
        record_tweets_keeps_rows(index, file_id, tweets.drop_last());
        with_row_keeps_rows(before.users, user_key(tweets.last()));
        with_row_keeps_rows(before.tweets, tweet_key(tweets.last()));
        assert forall|i: int| 0 <= i < after.links.len() implies link_in_range(
            after,
            #[trigger] after.links[i],
        ) by {
            if i < before.links.len() {
                assert(link_in_range(before, before.links[i]));
            }
        }
        assert(index.users =~= after.users.subrange(0, index.users.len() as int));
        assert(index.tweets =~= after.tweets.subrange(0, index.tweets.len() as int));
        assert(index.links =~= after.links.subrange(0, index.links.len() as int));
    }
}

/// Taking in a file whose digest is new keeps the index well formed: no
/// user, digest or revision ever has two rows. It adds one file row and one
/// link for each tweet, and changes no row that was there.
pub proof fn ingest_keeps_rows(
    index: Index,
    digest: Seq<char>,
    primary_twitter_id: Option<u64>,
    tweets: Seq<TweetView>,
)
    requires
        well_formed(index),
        !has_digest(index.files, digest),
    ensures
        well_formed(ingest(index, digest, primary_twitter_id, tweets)),
        ingest(index, digest, primary_twitter_id, tweets).files == index.files.push(
            FileKey { digest, primary_twitter_id },
        ),
        has_digest(ingest(index, digest, primary_twitter_id, tweets).files, digest),
        index.users.is_prefix_of(ingest(index, digest, primary_twitter_id, tweets).users),
        index.tweets.is_prefix_of(ingest(index, digest, primary_twitter_id, tweets).tweets),
        index.links.is_prefix_of(ingest(index, digest, primary_twitter_id, tweets).links),
        ingest(index, digest, primary_twitter_id, tweets).links.len() == index.links.len()
            + tweets.len(),
{
    let file = FileKey { digest, primary_twitter_id };
    let start = Index {
        users: index.users,
        files: index.files.push(file),
        tweets: index.tweets,
        links: index.links,
    };
    assert(distinct_digests(start.files)) by {
        assert forall|i: int, j: int|
            0 <= i < start.files.len() && 0 <= j < start.files.len() && i != j implies (
        #[trigger] start.files[i]).digest != (#[trigger] start.files[j]).digest by {
            if i < index.files.len() {
                assert(start.files[i] == index.files[i]);
            }
            if j < index.files.len() {
                assert(start.files[j] == index.files[j]);
            }
        }
    }
    assert forall|i: int| 0 <= i < start.links.len() implies link_in_range(
        start,
        #[trigger] start.links[i],
    ) by {
        assert(link_in_range(index, index.links[i]));
    }
    record_tweets_keeps_rows(start, index.files.len() as int, tweets);
    assert(start.files[index.files.len() as int].digest == digest);
}

/// Every tweet of a file gets a link of its own, in the order of the tweets
/// and after the links that were there: the link names the file, a row that
/// holds the tweet's revision, and a row that holds its user as named.
pub proof fn record_tweets_links_each(
    index: Index,
    file_id: int,
    tweets: Seq<TweetView>,
    at: int,
)
    requires
        well_formed(index),
        0 <= file_id < index.files.len(),
        0 <= at < tweets.len(),
    ensures
        ({
            let after = record_tweets(index, file_id, tweets);
            let link = after.links[index.links.len() + at];
            &&& link_in_range(after, link)
            &&& link.file_id == file_id
            &&& after.tweets[link.tweet_id] == tweet_key(tweets[at])
            &&& after.users[link.user_id] == user_key(tweets[at])
        }),
    decreases tweets.len(),
{
    let before = record_tweets(index, file_id, tweets.drop_last());
    let after = record_tweet(before, file_id, tweets.last());
    record_tweets_keeps_rows(index, file_id, tweets.drop_last());
    record_tweets_keeps_rows(index, file_id, tweets);
    with_row_keeps_rows(before.users, user_key(tweets.last()));
    with_row_keeps_rows(before.tweets, tweet_key(tweets.last()));
    if at < tweets.len() - 1 {
        record_tweets_links_each(index, file_id, tweets.drop_last(), at);
        let link = before.links[index.links.len() + at];
        assert(after.links[index.links.len() + at] == link);
        assert(before.tweets =~= after.tweets.subrange(0, before.tweets.len() as int));
        assert(before.users =~= after.users.subrange(0, before.users.len() as int));
        assert(after.tweets[link.tweet_id] == before.tweets[link.tweet_id]);
        assert(after.users[link.user_id] == before.users[link.user_id]);
    } else {
        assert(after.links[index.links.len() + at] == after.links.last());
    }
    assert(link_in_range(after, after.links[index.links.len() + at]));
}

/// Every tweet of a file taken in gets a link of its own to the new file
/// row, to a row with its revision and to a row with its user as named,
/// whether or not those rows were there before.
pub proof fn ingest_links_each(
    index: Index,
    digest: Seq<char>,
    primary_twitter_id: Option<u64>,
    tweets: Seq<TweetView>,
    at: int,
)
    requires
        well_formed(index),
        !has_digest(index.files, digest),
        0 <= at < tweets.len(),
    ensures
        ({
            let after = ingest(index, digest, primary_twitter_id, tweets);
            let link = after.links[index.links.len() + at];
            &&& link_in_range(after, link)
            &&& after.files[link.file_id].digest == digest
            &&& after.tweets[link.tweet_id] == tweet_key(tweets[at])
            &&& after.users[link.user_id] == user_key(tweets[at])
        }),
{
    let start = Index {
        users: index.users,
        files: index.files.push(FileKey { digest, primary_twitter_id }),
        tweets: index.tweets,
        links: index.links,
    };
    ingest_keeps_rows(index, digest, primary_twitter_id, Seq::empty());
    assert(record_tweets(start, index.files.len() as int, Seq::empty()) == start);
    record_tweets_links_each(start, index.files.len() as int, tweets, at);
    record_tweets_keeps_rows(start, index.files.len() as int, tweets);
}

/// Recording a single tweet is `record_tweet`.
pub proof fn record_one_tweet(index: Index, file_id: int, tweet: TweetView)
    ensures
        record_tweets(index, file_id, seq![tweet]) == record_tweet(index, file_id, tweet),
{
    let one = seq![tweet];
    assert(one.drop_last() =~= Seq::empty());
    assert(one.last() == tweet);
    assert(record_tweets(index, file_id, one.drop_last()) == index);
}

/// The same tweet taken in with two files has exactly one row, which the
/// second file did not add, and two links, one from each file to that row.
pub proof fn same_tweet_in_two_files(
    index: Index,
    first_digest: Seq<char>,
    first_primary: Option<u64>,
    second_digest: Seq<char>,
    second_primary: Option<u64>,
    tweet: TweetView,
)
    requires
        well_formed(index),
    ensures
        ({
            let once = ingest(index, first_digest, first_primary, seq![tweet]);
            let twice = ingest(once, second_digest, second_primary, seq![tweet]);
            let links = index.links.len() as int;
            &&& twice.tweets.to_multiset().count(tweet_key(tweet)) == 1
            &&& twice.tweets == once.tweets
            &&& twice.tweets == with_row(index.tweets, tweet_key(tweet))
            &&& twice.users == with_row(index.users, user_key(tweet))
            &&& twice.files.len() == index.files.len() + 2
            &&& twice.links.len() == links + 2
            &&& twice.links[links].tweet_id == twice.links[links + 1].tweet_id
            &&& twice.tweets[twice.links[links].tweet_id] == tweet_key(tweet)
            &&& twice.links[links].file_id == index.files.len()
            &&& twice.links[links + 1].file_id == index.files.len() + 1
        }),
{
    let first_start = Index {
        users: index.users,
        files: index.files.push(FileKey { digest: first_digest, primary_twitter_id: first_primary }),
        tweets: index.tweets,
        links: index.links,
    };
    record_one_tweet(first_start, index.files.len() as int, tweet);
    let once = ingest(index, first_digest, first_primary, seq![tweet]);
    let second_start = Index {
        users: once.users,
        files: once.files.push(FileKey { digest: second_digest, primary_twitter_id: second_primary }),
        tweets: once.tweets,
        links: once.links,
    };
    record_one_tweet(second_start, once.files.len() as int, tweet);
    let twice = ingest(once, second_digest, second_primary, seq![tweet]);
    with_row_keeps_rows(index.tweets, tweet_key(tweet));
    with_row_keeps_rows(index.users, user_key(tweet));
    twice.tweets.lemma_multiset_has_no_duplicates();
    twice.tweets.to_multiset_ensures();
}

/// A user seen under two screen names has a row for each, and no row that
/// was there before is changed.
pub proof fn renamed_user_has_two_rows(
    index: Index,
    digest: Seq<char>,
    primary_twitter_id: Option<u64>,
    first: TweetView,
    second: TweetView,
)
    requires
        well_formed(index),
        first.user_id == second.user_id,
        first.user_screen_name != second.user_screen_name,
    ensures
        ({
            let after = ingest(index, digest, primary_twitter_id, seq![first, second]);
            let links = index.links.len() as int;
            &&& after.users.no_duplicates()
            &&& after.users.contains(user_key(first))
            &&& after.users.contains(user_key(second))
            &&& after.users.index_of(user_key(first)) != after.users.index_of(user_key(second))
            &&& index.users.is_prefix_of(after.users)
            &&& after.links.len() == links + 2
            &&& after.links[links].user_id != after.links[links + 1].user_id
            &&& after.users[after.links[links].user_id] == user_key(first)
            &&& after.users[after.links[links + 1].user_id] == user_key(second)
        }),
{
    let start = Index {
        users: index.users,
        files: index.files.push(FileKey { digest, primary_twitter_id }),
        tweets: index.tweets,
        links: index.links,
    };
    let file_id = index.files.len() as int;
    let both = seq![first, second];
    assert(both.drop_last() =~= seq![first]);
    assert(both.last() == second);
    record_one_tweet(start, file_id, first);
    let middle = record_tweet(start, file_id, first);
    let after = record_tweet(middle, file_id, second);
    assert(record_tweets(start, file_id, both) == after);
    with_row_keeps_rows(index.users, user_key(first));
    with_row_keeps_rows(middle.users, user_key(second));
    with_row_keeps_rows(index.tweets, tweet_key(first));
    assert(after.users.contains(user_key(first))) by {
        let at = row_of(index.users, user_key(first));
        assert(middle.users[at] == user_key(first));
        assert(after.users[at] == user_key(first));
    }
    assert(index.users =~= after.users.subrange(0, index.users.len() as int));
    assert(after.users[row_of(index.users, user_key(first))] == user_key(first));
}

/// The steps that the store takes for one tweet record it as `record_tweet`
/// says, where the two lookups answer by the rows.
pub proof fn steps_record_tweet(index: Index, file_id: int, tweet: TweetView)
    requires
        index.users.len() < i64::MAX,
        index.tweets.len() < i64::MAX,
    ensures
        after_steps(
            index,
            file_id,
            tweet,
            found_row(index.users, user_key(tweet)),
            found_row(index.tweets, tweet_key(tweet)),
        ) == record_tweet(index, file_id, tweet),
{
    let user = user_key(tweet);
    let revision = tweet_key(tweet);
    if index.users.contains(user) {
        let at = index.users.index_of(user);
        assert(0 <= at < index.users.len());
    }
    if index.tweets.contains(revision) {
        let at = index.tweets.index_of(revision);
        assert(0 <= at < index.tweets.len());
    }
}

} // verus!
