//! Tweet records as the page reader hands them over, and how their fields are
//! laid out in the columns of the index.

use vstd::prelude::*;

verus! {

/// One tweet as it was read from a captured page.
#[derive(Debug)]
pub struct BrowserTweet {
    pub id: u64,
    /// The tweet that this one answers; `None` where it answers none.
    pub parent_id: Option<u64>,
    /// Seconds since the Unix epoch.
    pub time: i64,
    pub user_id: u64,
    pub user_screen_name: String,
    pub user_name: String,
    pub text: String,
}

/// What a `BrowserTweet` holds, as mathematical values.
pub struct TweetView {
    pub id: u64,
    pub parent_id: Option<u64>,
    pub time: i64,
    pub user_id: u64,
    pub user_screen_name: Seq<char>,
    pub user_name: Seq<char>,
    pub text: Seq<char>,
}

impl View for BrowserTweet {
    type V = TweetView;

    open spec fn view(&self) -> TweetView {
        TweetView {
            id: self.id,
            parent_id: self.parent_id,
            time: self.time,
            user_id: self.user_id,
            user_screen_name: self.user_screen_name@,
            user_name: self.user_name@,
            text: self.text@,
        }
    }
}

/// A user as the index has seen them over time.
#[derive(Debug)]
pub struct UserRecord {
    pub id: u64,
    pub last_seen: u64,
    pub screen_names: Vec<String>,
    pub names: Vec<String>,
}

/// The value of the parent column for a tweet: the parent's id, or the
/// tweet's own id where it answers no other tweet.
pub open spec fn parent_column(id: u64, parent_id: Option<u64>) -> u64 {
    match parent_id {
        Some(p) => p,
        None => id,
    }
}

/// The parent that a stored parent column stands for: none where the column
/// repeats the tweet's own id.
pub open spec fn parent_of_column(id: u64, column: u64) -> Option<u64> {
    if column == id {
        None
    } else {
        Some(column)
    }
}

/// The signed column value that carries an unsigned id: the same 64 bits.
pub open spec fn signed_column(id: u64) -> i64 {
    if id <= 0x7fff_ffff_ffff_ffff {
        id as i64
    } else {
        (id - 0x1_0000_0000_0000_0000) as i64
    }
}

/// The unsigned id that a signed column value carries.
pub open spec fn unsigned_id(column: i64) -> u64 {
    if column >= 0 {
        column as u64
    } else {
        (column + 0x1_0000_0000_0000_0000) as u64
    }
}

impl BrowserTweet {
    pub fn new(
        id: u64,
        parent_id: Option<u64>,
        time: i64,
        user_id: u64,
        user_screen_name: String,
        user_name: String,
        text: String,
    ) -> (tweet: BrowserTweet)
        ensures
            tweet.id == id,
            tweet.parent_id == parent_id,
            tweet.time == time,
            tweet.user_id == user_id,
            tweet.user_screen_name == user_screen_name,
            tweet.user_name == user_name,
            tweet.text == text,
    {
        BrowserTweet { id, parent_id, time, user_id, user_screen_name, user_name, text }
    }

    /// The value stored in the parent column for this tweet.
    pub fn stored_parent(&self) -> (column: u64)
        ensures
            column == parent_column(self.id, self.parent_id),
    {
        match self.parent_id {
            Some(p) => p,
            None => self.id,
        }
    }
}

/// Reads a stored parent column back: a tweet whose column repeats its own id
/// has no parent.
pub fn parent_from_stored(id: u64, column: u64) -> (parent: Option<u64>)
    ensures
        parent == parent_of_column(id, column),
{
    if column == id {
        None
    } else {
        Some(column)
    }
}

/// Carries an unsigned id into a signed integer column, bit for bit.
pub fn id_to_column(id: u64) -> (column: i64)
    ensures
        column == signed_column(id),
        unsigned_id(column) == id,
{
    if id <= 0x7fff_ffff_ffff_ffff {
        id as i64
    } else {
        let low: u64 = id - 0x8000_0000_0000_0000;
        let shifted: i64 = low as i64;
        shifted + i64::MIN
    }
}

/// Reads an unsigned id back from a signed integer column, bit for bit.
pub fn id_from_column(column: i64) -> (id: u64)
    ensures
        id == unsigned_id(column),
        signed_column(id) == column,
{
    if column >= 0 {
        column as u64
    } else {
        let lifted: i64 = column - i64::MIN;
        let low: u64 = lifted as u64;
        low + 0x8000_0000_0000_0000
    }
}

/// Storing a parent and reading it back gives the parent again, unless the
/// tweet was recorded as its own parent, which reads back as no parent.
pub proof fn parent_column_round_trip(id: u64, parent_id: Option<u64>)
    ensures
        parent_id != Some(id) ==> parent_of_column(id, parent_column(id, parent_id)) == parent_id,
        parent_id == Some(id) ==> parent_of_column(id, parent_column(id, parent_id)) == None::<u64>,
        parent_of_column(id, parent_column(id, parent_id)) != Some(id),
{
}

/// An id survives the way into a signed column and back, and so does a column
/// value the other way round.
pub proof fn id_column_round_trip(id: u64, column: i64)
    ensures
        unsigned_id(signed_column(id)) == id,
        signed_column(unsigned_id(column)) == column,
{
}

} // verus!
