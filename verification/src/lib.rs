//! A deduplicating index of tweets seen in archived captures.
//!
//! Every capture file is known by the digest of its content. The index links
//! each tweet revision to the files that held it and to the author as named at
//! the time, and keeps one row for each distinct user, file and revision.
//!
//! `store` is the index in a SQLite database, which it reaches through the
//! calls in `sqlite`. What it hands to the database and what it decides from
//! the answers is verified; what the database does is not. `rows` describes
//! the tables as sequences of rows, and `laws` proves of those sequences, not
//! of the database, that the store's decisions keep one row for each user and
//! revision; tests hold the database to the same. `archive` holds what the
//! archive of captures decides from digests alone.

pub mod archive;
pub mod laws;
pub mod rows;
pub mod sqlite;
pub mod store;
pub mod tweet;
