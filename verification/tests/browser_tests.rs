use map_browser::browser::{filter_results, sort_results, BrowseAction, BrowseKey, Browser, InputMode, SortMode};
use map_browser::sort::SortKey;
use map_browser::types::{MapRecord, Metadata, Stats};

fn record(id: &str, song: &str, author: &str, level_author: &str, date: &str) -> MapRecord {
    MapRecord {
        id: id.to_owned(),
        name: song.to_owned(),
        last_published_at: date.to_owned(),
        metadata: Metadata {
            song_name: song.to_owned(),
            song_sub_name: String::new(),
            song_author_name: author.to_owned(),
            level_author_name: level_author.to_owned(),
            bpm: 12000,
            duration: 185,
        },
        stats: Stats { downvotes: 1, upvotes: 10 },
        description: String::new(),
        ranked: false,
        qualified: false,
        versions: Vec::new(),
        automapper: false,
    }
}

fn five_records() -> Vec<MapRecord> {
    vec![
        record("1a", "Delta", "Zoe", "m1", "2023-01-05T00:00:00Z"),
        record("2b", "alpha", "yann", "m2", "2022-12-01T00:00:00Z"),
        record("3c", "Charlie", "Xena", "m3", "2023-06-01T00:00:00Z"),
        record("4d", "bravo", "walt", "m4", "2021-07-07T00:00:00Z"),
        record("5e", "Echo", "Vera", "m5", "2024-02-02T00:00:00Z"),
    ]
}

fn ids(maps: &[MapRecord]) -> Vec<String> {
    maps.iter().map(|m| m.id.clone()).collect()
}

#[test]
fn end_to_end_search_then_fetch_more() {
    let mut b = Browser::default();
    assert_eq!(b.page_index, 1);

    assert!(matches!(b.on_key(BrowseKey::Char('s')), BrowseAction::Idle));
    assert_eq!(b.input_mode, InputMode::Editing);

    // empty query + confirm: the machine asks for a fresh page-0 fetch
    let act = b.on_key(BrowseKey::Enter);
    match act {
        BrowseAction::Search { query } => assert_eq!(query, ""),
        _ => panic!("confirm in editing mode must request a search"),
    }
    assert_eq!(b.input_mode, InputMode::Normal);

    // the mocked catalog client returns 5 records
    b.apply_search_results(five_records());
    assert_eq!(b.results.len(), 5);
    assert_eq!(b.filtered_results.len(), 5);
    assert_eq!(ids(&b.filtered_results), vec!["1a", "2b", "3c", "4d", "5e"]);
    assert_eq!(b.page_index, 1);

    // fetch-more: the machine asks for the next page
    let act = b.on_key(BrowseKey::Char('F'));
    match act {
        BrowseAction::FetchMore { query, page } => {
            assert_eq!(query, "");
            assert_eq!(page, 1);
        }
        _ => panic!("fetch-more must request a paged fetch"),
    }

    // the mocked catalog client returns 3 more records
    let more = vec![
        record("6f", "Foxtrot", "Uma", "m6", "2020-01-01T00:00:00Z"),
        record("7g", "Golf", "Tess", "m7", "2020-02-01T00:00:00Z"),
        record("8h", "Hotel", "Sam", "m8", "2020-03-01T00:00:00Z"),
    ];
    b.apply_more_results(more);
    assert_eq!(b.filtered_results.len(), 8);
    assert_eq!(
        ids(&b.filtered_results)[..5],
        ["1a", "2b", "3c", "4d", "5e"]
    );
    assert_eq!(b.page_index, 2);
}

#[test]
fn fetch_more_needs_results() {
    let mut b = Browser::default();
    assert!(matches!(b.on_key(BrowseKey::Char('F')), BrowseAction::Idle));
    assert_eq!(b.page_index, 1);
}

#[test]
fn wraparound_down_round_trip() {
    let mut b = Browser::default();
    b.apply_search_results(five_records());

    // first press selects row 0; five more wrap the cursor back to row 0
    b.on_key(BrowseKey::Down);
    assert_eq!(b.selected, Some(0));
    for _ in 0..5 {
        b.on_key(BrowseKey::Down);
    }
    assert_eq!(b.selected, Some(0));

    // the same round trip from a middle row
    b.on_key(BrowseKey::Down);
    b.on_key(BrowseKey::Down);
    assert_eq!(b.selected, Some(2));
    for _ in 0..5 {
        b.on_key(BrowseKey::Down);
    }
    assert_eq!(b.selected, Some(2));
}

#[test]
fn wraparound_up_from_first_row() {
    let mut b = Browser::default();
    b.apply_search_results(five_records());
    b.on_key(BrowseKey::Down);
    assert_eq!(b.selected, Some(0));
    b.on_key(BrowseKey::Up);
    assert_eq!(b.selected, Some(4));
}

#[test]
fn selection_with_no_rows_is_row_zero() {
    let mut b = Browser::default();
    b.on_key(BrowseKey::Down);
    assert_eq!(b.selected, Some(0));
    b.on_key(BrowseKey::Up);
    assert_eq!(b.selected, Some(0));
}

#[test]
fn empty_filter_reproduces_full_set() {
    let mut b = Browser::default();
    b.apply_search_results(five_records());
    sort_results(&mut b, SortKey::Date);
    filter_results(&mut b, "");
    assert_eq!(ids(&b.filtered_results), vec!["1a", "2b", "3c", "4d", "5e"]);
}

#[test]
fn filter_is_case_insensitive_over_searchable_text() {
    let mut b = Browser::default();
    b.apply_search_results(five_records());

    // matches the song name "Charlie" case-insensitively
    filter_results(&mut b, "cHaRLie");
    assert_eq!(ids(&b.filtered_results), vec!["3c"]);

    // matches the author "Zoe" written upper-case
    filter_results(&mut b, "ZOE");
    assert_eq!(ids(&b.filtered_results), vec!["1a"]);

    // matches the publish date
    filter_results(&mut b, "2022-12");
    assert_eq!(ids(&b.filtered_results), vec!["2b"]);

    // matches nothing
    filter_results(&mut b, "no such text");
    assert!(b.filtered_results.is_empty());

    // the full set is untouched by filtering
    assert_eq!(b.results.len(), 5);
}

#[test]
fn filtering_mode_edits_recompute_the_view() {
    let mut b = Browser::default();
    b.apply_search_results(five_records());
    b.on_key(BrowseKey::Char('S'));
    assert_eq!(b.input_mode, InputMode::Sorting(SortMode::Normal));
    b.on_key(BrowseKey::Char('f'));
    assert_eq!(b.input_mode, InputMode::Sorting(SortMode::Filtering));

    b.on_key(BrowseKey::Char('y'));
    b.on_key(BrowseKey::Char('a'));
    assert_eq!(b.input, "ya");
    assert_eq!(ids(&b.filtered_results), vec!["2b"]);

    // backspace widens the filter again: "y" still matches only the author
    b.on_key(BrowseKey::Backspace);
    assert_eq!(b.input, "y");
    assert_eq!(ids(&b.filtered_results), vec!["2b"]);

    // confirm keeps the filtered view
    b.on_key(BrowseKey::Enter);
    assert_eq!(b.input_mode, InputMode::Sorting(SortMode::Normal));
    assert_eq!(ids(&b.filtered_results), vec!["2b"]);

    // cancel discards the filter
    b.on_key(BrowseKey::Char('f'));
    b.on_key(BrowseKey::Char('y'));
    b.on_key(BrowseKey::Esc);
    assert_eq!(b.input_mode, InputMode::Sorting(SortMode::Normal));
    assert_eq!(b.filtered_results.len(), 5);
}

#[test]
fn sort_by_id_is_idempotent() {
    let mut b = Browser::default();
    let mut shuffled = five_records();
    shuffled.reverse();
    b.apply_search_results(shuffled);

    sort_results(&mut b, SortKey::Id);
    let once = ids(&b.filtered_results);
    sort_results(&mut b, SortKey::Id);
    let twice = ids(&b.filtered_results);
    assert_eq!(once, vec!["1a", "2b", "3c", "4d", "5e"]);
    assert_eq!(once, twice);
}

#[test]
fn sort_by_date_is_ascending_lexicographic() {
    let mut b = Browser::default();
    b.apply_search_results(vec![
        record("a", "s1", "x", "m", "2023-01-05T00:00:00Z"),
        record("b", "s2", "y", "m", "2022-12-01T00:00:00Z"),
        record("c", "s3", "z", "m", "2023-06-01T00:00:00Z"),
    ]);
    sort_results(&mut b, SortKey::Date);
    let dates: Vec<String> = b
        .filtered_results
        .iter()
        .map(|m| m.last_published_at.clone())
        .collect();
    assert_eq!(
        dates,
        vec![
            "2022-12-01T00:00:00Z",
            "2023-01-05T00:00:00Z",
            "2023-06-01T00:00:00Z"
        ]
    );
}

#[test]
fn sort_by_song_name_folds_case() {
    let mut b = Browser::default();
    b.apply_search_results(five_records());
    sort_results(&mut b, SortKey::SongName);
    // alpha, bravo, Charlie, Delta, Echo under case folding
    assert_eq!(ids(&b.filtered_results), vec!["2b", "4d", "3c", "1a", "5e"]);
}

#[test]
fn sort_by_author_folds_case() {
    let mut b = Browser::default();
    b.apply_search_results(five_records());
    sort_results(&mut b, SortKey::Author);
    // Vera, walt, Xena, yann, Zoe under case folding
    assert_eq!(ids(&b.filtered_results), vec!["5e", "4d", "3c", "2b", "1a"]);
}

#[test]
fn sort_keys_reachable_from_sorting_mode() {
    let mut b = Browser::default();
    b.apply_search_results(five_records());
    b.on_key(BrowseKey::Char('S'));
    b.on_key(BrowseKey::Char('N'));
    assert_eq!(ids(&b.filtered_results), vec!["2b", "4d", "3c", "1a", "5e"]);
    b.on_key(BrowseKey::Char('I'));
    assert_eq!(ids(&b.filtered_results), vec!["1a", "2b", "3c", "4d", "5e"]);
    // cancel resets the view to the full set in server order
    b.on_key(BrowseKey::Esc);
    assert_eq!(b.input_mode, InputMode::Normal);
    assert_eq!(ids(&b.filtered_results), vec!["1a", "2b", "3c", "4d", "5e"]);
}

#[test]
fn sort_is_stable_for_equal_keys() {
    let mut b = Browser::default();
    b.apply_search_results(vec![
        record("9z", "Same Song", "one", "m", "2020-01-01T00:00:00Z"),
        record("1a", "same song", "two", "m", "2020-01-02T00:00:00Z"),
        record("5m", "SAME SONG", "three", "m", "2020-01-03T00:00:00Z"),
    ]);
    // all three fold to one key: the original order must survive
    sort_results(&mut b, SortKey::SongName);
    assert_eq!(ids(&b.filtered_results), vec!["9z", "1a", "5m"]);
}

#[test]
fn open_clamps_a_stale_cursor_into_the_view() {
    let mut b = Browser::default();
    b.apply_search_results(five_records());
    for _ in 0..5 {
        b.on_key(BrowseKey::Down);
    }
    assert_eq!(b.selected, Some(4));
    // the filter shrinks the view below the cursor
    filter_results(&mut b, "charlie");
    assert_eq!(b.filtered_results.len(), 1);
    match b.on_key(BrowseKey::Enter) {
        BrowseAction::OpenDetail { id } => assert_eq!(id, "3c"),
        _ => panic!("open must act on the clamped selection"),
    }
}

#[test]
fn clear_empties_both_sets() {
    let mut b = Browser::default();
    b.apply_search_results(five_records());
    assert!(matches!(b.on_key(BrowseKey::Char('c')), BrowseAction::Idle));
    assert!(b.results.is_empty());
    assert!(b.filtered_results.is_empty());
}

#[test]
fn open_requires_rows_and_uses_selection() {
    let mut b = Browser::default();
    assert!(matches!(b.on_key(BrowseKey::Enter), BrowseAction::Idle));

    b.apply_search_results(five_records());
    // no cursor yet: row 0 opens
    match b.on_key(BrowseKey::Enter) {
        BrowseAction::OpenDetail { id } => assert_eq!(id, "1a"),
        _ => panic!("open must act on the selected row"),
    }
    b.on_key(BrowseKey::Down);
    b.on_key(BrowseKey::Down);
    match b.on_key(BrowseKey::Enter) {
        BrowseAction::OpenDetail { id } => assert_eq!(id, "2b"),
        _ => panic!("open must act on the selected row"),
    }
}

#[test]
fn editing_cancel_keeps_query_and_results() {
    let mut b = Browser::default();
    b.apply_search_results(five_records());
    b.on_key(BrowseKey::Char('s'));
    b.on_key(BrowseKey::Char('x'));
    b.on_key(BrowseKey::Char('y'));
    assert_eq!(b.input, "xy");
    b.on_key(BrowseKey::Esc);
    assert_eq!(b.input_mode, InputMode::Normal);
    assert_eq!(b.query, "");
    assert_eq!(b.results.len(), 5);
}

#[test]
fn search_confirm_copies_buffer_into_query() {
    let mut b = Browser::default();
    b.on_key(BrowseKey::Char('s'));
    for c in "beat".chars() {
        b.on_key(BrowseKey::Char(c));
    }
    b.on_key(BrowseKey::Backspace);
    assert_eq!(b.input, "bea");
    match b.on_key(BrowseKey::Enter) {
        BrowseAction::Search { query } => assert_eq!(query, "bea"),
        _ => panic!("confirm in editing mode must request a search"),
    }
    assert_eq!(b.query, "bea");
}

#[test]
fn quit_key_leaves_state_untouched() {
    let mut b = Browser::default();
    b.apply_search_results(five_records());
    assert!(matches!(b.on_key(BrowseKey::Char('q')), BrowseAction::Quit));
    assert_eq!(b.results.len(), 5);
    assert_eq!(b.input_mode, InputMode::Normal);
}
