//! What the archive of captures decides without touching a file: which
//! digests a prefix selects, and how the outcomes of an audit are counted.

use vstd::prelude::*;

verus! {

/// Whether `digest` starts with `prefix`. Every digest starts with the empty
/// prefix.
pub open spec fn has_prefix(digest: Seq<char>, prefix: Seq<char>) -> bool {
    &&& prefix.len() <= digest.len()
    &&& forall|i: int| 0 <= i < prefix.len() ==> digest[i] == prefix[i]
}

/// The digests among `digests` that start with `prefix`, in their order.
pub open spec fn with_prefix(digests: Seq<Seq<char>>, prefix: Seq<char>) -> Seq<Seq<char>>
    decreases digests.len(),
{
    if digests.len() == 0 {
        Seq::empty()
    } else {
        let before = with_prefix(digests.drop_last(), prefix);
        if has_prefix(digests.last(), prefix) {
            before.push(digests.last())
        } else {
            before
        }
    }
}

/// The views of a list of strings.
pub open spec fn string_views(strings: Seq<String>) -> Seq<Seq<char>> {
    Seq::new(strings.len(), |i: int| strings[i]@)
}

/// Says whether `digest` starts with `prefix`.
pub fn digest_has_prefix(digest: &str, prefix: &str) -> (yes: bool)
    ensures
        yes == has_prefix(digest@, prefix@),
{
    let wanted = prefix.unicode_len();
    if wanted > digest.unicode_len() {
        return false;
    }
    let mut at: usize = 0;
    while at < wanted
        invariant
            at <= wanted,
            wanted == prefix@.len(),
            wanted <= digest@.len(),
            forall|i: int| 0 <= i < at ==> digest@[i] == prefix@[i],
        decreases wanted - at,
    {
        if digest.get_char(at) != prefix.get_char(at) {
            return false;
        }
        at += 1;
    }
    true
}

/// The digests of a listing that start with `prefix`, in the order of the
/// listing. The empty prefix selects them all.
pub fn digests_for_prefix(digests: &[String], prefix: &str) -> (found: Vec<String>)
    ensures
        string_views(found@) == with_prefix(string_views(digests@), prefix@),
{
    let mut found: Vec<String> = Vec::new();
    let ghost all = string_views(digests@);
    let mut at: usize = 0;
    proof {
        assert(all.take(0) =~= Seq::empty());
        assert(string_views(found@) =~= Seq::empty());
    }
    while at < digests.len()
        invariant
            at <= digests@.len(),
            all == string_views(digests@),
            string_views(found@) == with_prefix(all.take(at as int), prefix@),
        decreases digests@.len() - at,
    {
        let ghost before = found@;
        proof {
            let next = all.take(at + 1);
            assert(next.drop_last() =~= all.take(at as int));
            assert(next.last() == digests@[at as int]@);
        }
        if digest_has_prefix(digests[at].as_str(), prefix) {
            found.push(digests[at].clone());
            proof {
                assert(string_views(found@) =~= string_views(before).push(digests@[at as int]@));
            }
        }
        at += 1;
    }
    proof {
        assert(all.take(at as int) =~= all);
    }
    found
}

/// A prefix selects exactly the digests of the listing that start with it:
/// none that is not listed, none that starts otherwise, and all that do.
pub proof fn prefix_selects_exactly(digests: Seq<Seq<char>>, prefix: Seq<char>, digest: Seq<char>)
    ensures
        with_prefix(digests, prefix).contains(digest) <==> digests.contains(digest) && has_prefix(
            digest,
            prefix,
        ),
    decreases digests.len(),
{
    if digests.len() > 0 {
        let rest = digests.drop_last();
        let before = with_prefix(rest, prefix);
        prefix_selects_exactly(rest, prefix, digest);
        if digests.contains(digest) {
            let at = choose|i: int| 0 <= i < digests.len() && digests[i] == digest;
            if at < rest.len() {
                assert(rest[at] == digest);
            }
        }
        if rest.contains(digest) {
            let at = choose|i: int| 0 <= i < rest.len() && rest[i] == digest;
            assert(digests[at] == digest);
        }
        assert(digests[digests.len() - 1] == digests.last());
        if has_prefix(digests.last(), prefix) {
            let after = before.push(digests.last());
            assert(after[before.len() as int] == digests.last());
            if before.contains(digest) {
                let at = choose|i: int| 0 <= i < before.len() && before[i] == digest;
                assert(after[at] == digest);
            }
            if after.contains(digest) {
                let at = choose|i: int| 0 <= i < after.len() && after[i] == digest;
                if at < before.len() {
                    assert(before[at] == digest);
                }
            }
        }
    }
}

/// The empty prefix selects the whole listing.
pub proof fn empty_prefix_selects_all(digests: Seq<Seq<char>>)
    ensures
        with_prefix(digests, Seq::empty()) == digests,
    decreases digests.len(),
{
    if digests.len() > 0 {
        empty_prefix_selects_all(digests.drop_last());
        assert(digests.drop_last().push(digests.last()) =~= digests);
    }
}

/// Where every listed digest starts with one of `prefixes`, the selections
/// of those prefixes together hold exactly the digests of the listing.
pub proof fn prefixes_cover_listing(digests: Seq<Seq<char>>, prefixes: Seq<Seq<char>>)
    requires
        forall|d: Seq<char>| #[trigger]
            digests.contains(d) ==> exists|i: int|
                0 <= i < prefixes.len() && has_prefix(d, #[trigger] prefixes[i]),
    ensures
        forall|d: Seq<char>| #[trigger]
            digests.contains(d) <==> exists|i: int|
                0 <= i < prefixes.len() && (#[trigger] with_prefix(digests, prefixes[i])).contains(
                    d,
                ),
{
    assert forall|d: Seq<char>| #[trigger]
        digests.contains(d) implies exists|i: int|
        0 <= i < prefixes.len() && (#[trigger] with_prefix(digests, prefixes[i])).contains(d) by {
        let i = choose|i: int| 0 <= i < prefixes.len() && has_prefix(d, #[trigger] prefixes[i]);
        prefix_selects_exactly(digests, prefixes[i], d);
    }
    assert forall|d: Seq<char>|
        (exists|i: int|
            0 <= i < prefixes.len() && (#[trigger] with_prefix(digests, prefixes[i])).contains(
                d,
            )) implies #[trigger] digests.contains(d) by {
        let i = choose|i: int|
            0 <= i < prefixes.len() && (#[trigger] with_prefix(digests, prefixes[i])).contains(d);
        prefix_selects_exactly(digests, prefixes[i], d);
    }
}

/// How a stored entry fared when its digest was computed again.
#[derive(Debug, Clone, Copy, PartialEq, Eq, Structural)]
pub enum Verdict {
    /// The content has the digest that the entry's path names.
    Valid,
    /// The content was read, and has another digest.
    Invalid,
    /// The content could not be read.
    Broken,
}

/// The verdict on one outcome of an audit: the digest that the path names
/// and the digest of the content, or a failure to read the content.
pub open spec fn verdict_of<E>(outcome: Result<(String, String), E>) -> Verdict {
    match outcome {
        Ok(pair) => if pair.0@ == pair.1@ {
            Verdict::Valid
        } else {
            Verdict::Invalid
        },
        Err(_) => Verdict::Broken,
    }
}

/// How many of the outcomes get this verdict.
pub open spec fn count_of<E>(outcomes: Seq<Result<(String, String), E>>, verdict: Verdict) -> nat
    decreases outcomes.len(),
{
    if outcomes.len() == 0 {
        0
    } else {
        count_of(outcomes.drop_last(), verdict) + if verdict_of(outcomes.last()) == verdict {
            1nat
        } else {
            0nat
        }
    }
}

/// One or nought: whether an outcome gets this verdict.
pub open spec fn counts_as<E>(outcome: Result<(String, String), E>, verdict: Verdict) -> int {
    if verdict_of(outcome) == verdict {
        1
    } else {
        0
    }
}

/// Where one entry of an audit comes out otherwise, the counts change by
/// that entry alone: its old verdict has one fewer, its new verdict one
/// more, and what the other entries count for stays as it was.
pub proof fn one_entry_changes_its_own_count<E>(
    outcomes: Seq<Result<(String, String), E>>,
    at: int,
    changed: Result<(String, String), E>,
    verdict: Verdict,
)
    requires
        0 <= at < outcomes.len(),
    ensures
        count_of(outcomes.update(at, changed), verdict) == count_of(outcomes, verdict) - counts_as(
            outcomes[at],
            verdict,
        ) + counts_as(changed, verdict),
    decreases outcomes.len(),
{
    let after = outcomes.update(at, changed);
    if at == outcomes.len() - 1 {
        assert(after.drop_last() =~= outcomes.drop_last());
    } else {
        one_entry_changes_its_own_count(outcomes.drop_last(), at, changed, verdict);
        assert(after.drop_last() =~= outcomes.drop_last().update(at, changed));
        assert(after.last() == outcomes.last());
    }
}

/// The entries of an audit, counted by verdict.
#[derive(Debug, Clone, Copy, PartialEq, Eq, Structural)]
pub struct DigestCounts {
    pub valid: usize,
    pub invalid: usize,
    pub broken: usize,
}

/// Gives the verdict on one outcome of an audit.
pub fn classify<E>(outcome: &Result<(String, String), E>) -> (verdict: Verdict)
    ensures
        verdict == verdict_of(*outcome),
{
    match outcome {
        Ok(pair) => {
            if pair.0 == pair.1 {
                Verdict::Valid
            } else {
                Verdict::Invalid
            }
        },
        Err(_) => Verdict::Broken,
    }
}

impl DigestCounts {
    /// The counts before any entry was seen.
    pub fn new() -> (counts: DigestCounts)
        ensures
            counts == (DigestCounts { valid: 0, invalid: 0, broken: 0 }),
    {
        DigestCounts { valid: 0, invalid: 0, broken: 0 }
    }

    /// The counts with one more entry of this verdict.
    pub fn record(self, verdict: Verdict) -> (counts: DigestCounts)
        requires
            self.valid + self.invalid + self.broken < usize::MAX,
        ensures
            counts.valid == self.valid + if verdict == Verdict::Valid { 1int } else { 0int },
            counts.invalid == self.invalid + if verdict == Verdict::Invalid { 1int } else { 0int },
            counts.broken == self.broken + if verdict == Verdict::Broken { 1int } else { 0int },
    {
        match verdict {
            Verdict::Valid => DigestCounts {
                valid: self.valid + 1,
                invalid: self.invalid,
                broken: self.broken,
            },
            Verdict::Invalid => DigestCounts {
                valid: self.valid,
                invalid: self.invalid + 1,
                broken: self.broken,
            },
            Verdict::Broken => DigestCounts {
                valid: self.valid,
                invalid: self.invalid,
                broken: self.broken + 1,
            },
        }
    }
}

/// Counts the outcomes of an audit by verdict. One entry that is invalid or
/// broken changes the count of no other.
pub fn tally<E>(outcomes: &[Result<(String, String), E>]) -> (counts: DigestCounts)
    ensures
        counts.valid == count_of(outcomes@, Verdict::Valid),
        counts.invalid == count_of(outcomes@, Verdict::Invalid),
        counts.broken == count_of(outcomes@, Verdict::Broken),
        counts.valid + counts.invalid + counts.broken == outcomes@.len(),
{
    let mut counts = DigestCounts::new();
    let mut at: usize = 0;
    proof {
        assert(outcomes@.take(0) =~= Seq::empty());
    }
    while at < outcomes.len()
        invariant
            at <= outcomes@.len(),
            counts.valid == count_of(outcomes@.take(at as int), Verdict::Valid),
            counts.invalid == count_of(outcomes@.take(at as int), Verdict::Invalid),
            counts.broken == count_of(outcomes@.take(at as int), Verdict::Broken),
            counts.valid + counts.invalid + counts.broken == at,
        decreases outcomes@.len() - at,
    {
        proof {
            let next = outcomes@.take(at + 1);
            assert(next.drop_last() =~= outcomes@.take(at as int));
            assert(next.last() == outcomes@[at as int]);
        }
        counts = counts.record(classify(&outcomes[at]));
        at += 1;
    }
    proof {
        assert(outcomes@.take(at as int) =~= outcomes@);
    }
    counts
}

} // verus!
