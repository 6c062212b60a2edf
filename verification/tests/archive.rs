use tweet_store::archive::{
    classify, digest_has_prefix, digests_for_prefix, tally, DigestCounts, Verdict,
};

fn strings(items: &[&str]) -> Vec<String> {
    items.iter().map(|item| item.to_string()).collect()
}

fn read(expected: &str, actual: &str) -> Result<(String, String), String> {
    Ok((expected.to_string(), actual.to_string()))
}

fn unreadable(why: &str) -> Result<(String, String), String> {
    Err(why.to_string())
}

#[test]
fn every_digest_has_the_empty_prefix() {
    assert!(digest_has_prefix("abc", ""));
    assert!(digest_has_prefix("", ""));
}

#[test]
fn prefix_is_compared_from_the_start() {
    assert!(digest_has_prefix("abc", "a"));
    assert!(digest_has_prefix("abc", "ab"));
    assert!(digest_has_prefix("abc", "abc"));
    assert!(!digest_has_prefix("abc", "abcd"));
    assert!(!digest_has_prefix("abc", "b"));
    assert!(!digest_has_prefix("abc", "bc"));
    assert!(!digest_has_prefix("", "a"));
}

#[test]
fn prefix_is_case_stable() {
    assert!(!digest_has_prefix("abc", "A"));
    assert!(!digest_has_prefix("ABC", "a"));
}

#[test]
fn listing_by_prefix_keeps_order_and_repeats() {
    let digests = strings(&["a1", "b2", "a3", "c4", "a1"]);
    assert_eq!(digests_for_prefix(&digests, "a"), strings(&["a1", "a3", "a1"]));
    assert_eq!(digests_for_prefix(&digests, "a1"), strings(&["a1", "a1"]));
    assert_eq!(digests_for_prefix(&digests, "d"), strings(&[]));
    assert_eq!(digests_for_prefix(&[], "a"), strings(&[]));
}

#[test]
fn empty_prefix_lists_everything() {
    let digests = strings(&["a1", "b2", "a3", "c4"]);
    assert_eq!(digests_for_prefix(&digests, ""), digests);
}

#[test]
fn listings_of_a_partition_make_up_the_full_listing() {
    let digests = strings(&["a1", "b2", "a3", "c4", "b5"]);
    let mut together: Vec<String> = Vec::new();
    for prefix in ["a", "b", "c"] {
        let part = digests_for_prefix(&digests, prefix);
        assert!(part.iter().all(|digest| digest.starts_with(prefix)));
        together.extend(part);
    }
    together.sort();
    let mut all = digests.clone();
    all.sort();
    assert_eq!(together, all);
}

#[test]
fn verdict_follows_the_two_digests() {
    assert_eq!(classify(&read("abc", "abc")), Verdict::Valid);
    assert_eq!(classify(&read("abc", "abd")), Verdict::Invalid);
    assert_eq!(classify(&read("abc", "ABC")), Verdict::Invalid);
    assert_eq!(classify(&unreadable("no such file")), Verdict::Broken);
}

#[test]
fn counts_start_at_nought_and_go_up_by_one() {
    let counts = DigestCounts::new();
    assert_eq!(counts, DigestCounts { valid: 0, invalid: 0, broken: 0 });
    let counts = counts.record(Verdict::Valid).record(Verdict::Broken).record(Verdict::Valid);
    assert_eq!(counts, DigestCounts { valid: 2, invalid: 0, broken: 1 });
    let counts = counts.record(Verdict::Invalid);
    assert_eq!(counts, DigestCounts { valid: 2, invalid: 1, broken: 1 });
}

#[test]
fn tally_counts_each_verdict() {
    let outcomes = vec![
        read("a", "a"),
        read("b", "x"),
        unreadable("bad gzip"),
        read("c", "c"),
        read("d", "d"),
    ];
    assert_eq!(tally(&outcomes), DigestCounts { valid: 3, invalid: 1, broken: 1 });
    let none: Vec<Result<(String, String), String>> = Vec::new();
    assert_eq!(tally(&none), DigestCounts { valid: 0, invalid: 0, broken: 0 });
}

#[test]
fn corrupted_entry_changes_its_own_count_only() {
    let mut outcomes = vec![read("a", "a"), read("b", "b"), unreadable("gone"), read("c", "c")];
    assert_eq!(tally(&outcomes), DigestCounts { valid: 3, invalid: 0, broken: 1 });
    outcomes[1] = read("b", "not b");
    assert_eq!(tally(&outcomes), DigestCounts { valid: 2, invalid: 1, broken: 1 });
    assert_eq!(classify(&outcomes[0]), Verdict::Valid);
    assert_eq!(classify(&outcomes[1]), Verdict::Invalid);
    assert_eq!(classify(&outcomes[2]), Verdict::Broken);
    assert_eq!(classify(&outcomes[3]), Verdict::Valid);
}
