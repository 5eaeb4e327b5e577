use media_monitor::artists::get_all_artists;

#[test]
fn plain_title_yields_only_the_primary_artist() {
    assert_eq!(get_all_artists("Artist", "Plain Song"), vec!["Artist"]);
}

#[test]
fn feat_tail_with_commas_and_ampersand() {
    assert_eq!(
        get_all_artists("Artist", "Song (feat. Alice, Bob & Carol)"),
        vec!["Artist", "Alice", "Bob", "Carol"]
    );
}

#[test]
fn capitalized_feat_marker() {
    assert_eq!(get_all_artists("A", "Song (Feat. Bob)"), vec!["A", "Bob"]);
}

#[test]
fn ft_marker_in_brackets() {
    assert_eq!(get_all_artists("A", "Song [ft. Bob]"), vec!["A", "Bob"]);
}

#[test]
fn with_marker() {
    assert_eq!(get_all_artists("A", "Song (with Bob)"), vec!["A", "Bob"]);
}

#[test]
fn w_slash_marker() {
    assert_eq!(get_all_artists("A", "Song (w/ Bob)"), vec!["A", "Bob"]);
}

#[test]
fn empty_tail_yields_no_featured_artists() {
    // The capture needs at least one character before the closer.
    assert_eq!(get_all_artists("A", "Song (feat. )"), vec!["A"]);
}

#[test]
fn whitespace_only_names_are_dropped() {
    assert_eq!(get_all_artists("A", "Song (feat. Bob, , Carol)"), vec!["A", "Bob", "Carol"]);
}

#[test]
fn names_run_to_the_last_closer() {
    // Greedy capture: the names stop at the rightmost closer.
    assert_eq!(
        get_all_artists("A", "Song (feat. Bob) (Live)"),
        vec!["A", "Bob) (Live"]
    );
}

#[test]
fn unicode_whitespace_counts_as_the_marker_gap() {
    // A no-break space after the marker satisfies the whitespace slot, and
    // surrounding no-break spaces are trimmed from the names.
    assert_eq!(get_all_artists("A", "Song (feat.\u{a0}Bob\u{a0})"), vec!["A", "Bob"]);
}

#[test]
fn names_stop_at_a_line_break() {
    // The capture never spans a line break: the names end at the last
    // closer on their own line.
    assert_eq!(
        get_all_artists("A", "Song (feat. Bob)\nEncore)"),
        vec!["A", "Bob"]
    );
    // With no closer before the line break there is no match at all.
    assert_eq!(get_all_artists("A", "Song (feat. Bob\n)"), vec!["A"]);
}

#[test]
fn marker_without_following_whitespace_does_not_match() {
    assert_eq!(get_all_artists("A", "Song (feat.Bob)"), vec!["A"]);
}
