use map_browser::detail::{
    first_leaderboard_id, get_diff_id, get_diff_name, leaderboard_request_for, DetailAction,
    DetailKey, DetailSession, DifficultyTable, MapDetail, MapDetailActiveWindow, SSLeaderboard,
};
use map_browser::preview::{Preview, PreviewState, SinkCommand};
use map_browser::types::{
    LeaderBoardDifficulty, LeaderBoardInfo, MapDifficulty, MapRecord, Metadata, PlayerInfo, Score,
    Stats, Version,
};

fn difficulty(characteristic: &str, difficulty: &str) -> MapDifficulty {
    MapDifficulty {
        notes: 350,
        bombs: 4,
        characteristic: characteristic.to_owned(),
        difficulty: difficulty.to_owned(),
        njs: 1600,
        nps: 512,
    }
}

fn info(id: u32, stars: u32) -> LeaderBoardInfo {
    LeaderBoardInfo {
        id,
        max_score: 1000000,
        stars,
        difficulty: LeaderBoardDifficulty {
            difficulty: 1,
            game_mode: "SoloStandard".to_owned(),
        },
    }
}

fn score(rank: u32, name: &str, base: u32) -> Score {
    Score {
        rank,
        leaderboard_player_info: PlayerInfo { name: name.to_owned() },
        base_score: base,
        pp: 12345,
        bad_cuts: 2,
        missed_notes: 3,
    }
}

fn sample_map(diffs: Vec<MapDifficulty>) -> MapRecord {
    MapRecord {
        id: "1a".to_owned(),
        name: "song".to_owned(),
        last_published_at: "2023-01-05T00:00:00Z".to_owned(),
        metadata: Metadata {
            song_name: "song".to_owned(),
            song_sub_name: String::new(),
            song_author_name: "artist".to_owned(),
            level_author_name: "mapper".to_owned(),
            bpm: 12000,
            duration: 185,
        },
        stats: Stats { downvotes: 1, upvotes: 10 },
        description: "desc".to_owned(),
        ranked: true,
        qualified: false,
        versions: vec![Version {
            download_url: "d".to_owned(),
            preview_url: "p".to_owned(),
            cover_url: "c".to_owned(),
            diffs,
            hash: "deadbeef".to_owned(),
        }],
        automapper: false,
    }
}

fn session(infos: Vec<LeaderBoardInfo>, scores: Vec<Score>) -> DetailSession {
    let diffs: Vec<MapDifficulty> = infos
        .iter()
        .map(|_| difficulty("Standard", "Easy"))
        .collect();
    let map = sample_map(diffs.clone());
    DetailSession::new(
        MapDetail::new(map),
        DifficultyTable::new(diffs),
        SSLeaderboard::new(infos, scores),
        Preview::new(),
    )
}

#[test]
fn lightshow_gets_no_leaderboard_request() {
    let standard = difficulty("Standard", "Easy");
    let lightshow = difficulty("Lightshow", "Easy");

    let req = leaderboard_request_for(&standard, "deadbeef")
        .expect("a standard difficulty must be fetched");
    assert_eq!(req.hash, "deadbeef");
    assert_eq!(req.difficulty_id, 1);
    assert_eq!(req.mode, "SoloStandard");

    assert!(leaderboard_request_for(&lightshow, "deadbeef").is_none());
}

#[test]
fn sentinel_id_never_keys_the_first_score_fetch() {
    // a map whose version diffs are [Standard/Easy, Lightshow/Easy]:
    // construction yields [id > 0, id == 0] and fetches by the first only
    let infos = vec![info(77, 425), LeaderBoardInfo::new()];
    assert!(infos[0].id > 0);
    assert_eq!(infos[1].id, 0);
    assert_eq!(first_leaderboard_id(&infos), Some(77));

    // with the lightshow first, its sentinel id is skipped
    let infos = vec![LeaderBoardInfo::new(), info(77, 425)];
    assert_eq!(first_leaderboard_id(&infos), Some(77));

    // with no competitive difficulty at all, nothing is fetched
    let infos = vec![LeaderBoardInfo::new(), LeaderBoardInfo::new()];
    assert_eq!(first_leaderboard_id(&infos), None);
}

#[test]
fn confirm_on_lightshow_difficulty_skips_the_fetch() {
    let mut s = session(vec![info(77, 425), LeaderBoardInfo::new()], vec![score(1, "ace", 900)]);
    // select the second (lightshow) difficulty
    s.on_key(DetailKey::Down);
    s.on_key(DetailKey::Down);
    assert_eq!(s.difficulty_table.selected, Some(1));

    let act = s.on_key(DetailKey::Enter);
    assert!(matches!(act, DetailAction::Idle));
    assert_eq!(s.leaderboard.current_leaderboard_index, 1);
    assert!(s.leaderboard.scores.is_empty());
    assert_eq!(s.current_leaderboard_page, 1);
}

#[test]
fn confirm_on_competitive_difficulty_requests_scores() {
    let mut s = session(vec![info(77, 425), info(88, 600)], vec![score(1, "ace", 900)]);
    s.on_key(DetailKey::Down);
    s.on_key(DetailKey::Down);
    let act = s.on_key(DetailKey::Enter);
    match act {
        DetailAction::FetchScores { leaderboard_id, index } => {
            assert_eq!(leaderboard_id, 88);
            assert_eq!(index, 1);
        }
        _ => panic!("confirm on a competitive difficulty must request a fetch"),
    }
    // the outcome moves the shown leaderboard and resets the page cursor
    s.apply_scores(1, Some(vec![score(1, "bo", 800), score(2, "cy", 700)]));
    assert_eq!(s.leaderboard.current_leaderboard_index, 1);
    assert_eq!(s.leaderboard.scores.len(), 2);
    assert_eq!(s.current_leaderboard_page, 1);
}

#[test]
fn confirm_with_leaderboard_focus_does_nothing() {
    let mut s = session(vec![info(77, 425)], vec![score(1, "ace", 900)]);
    s.on_key(DetailKey::Right);
    assert_eq!(
        s.map_detail.active_window,
        MapDetailActiveWindow::Leaderboard
    );
    let act = s.on_key(DetailKey::Enter);
    assert!(matches!(act, DetailAction::Idle));
    assert_eq!(s.leaderboard.scores.len(), 1);
}

#[test]
fn fetch_more_scores_appends_and_advances_the_page() {
    let mut s = session(vec![info(77, 425)], vec![score(1, "ace", 900)]);
    let act = s.on_key(DetailKey::Char('F'));
    match act {
        DetailAction::AppendScores { leaderboard_id, page } => {
            assert_eq!(leaderboard_id, 77);
            assert_eq!(page, 2);
        }
        _ => panic!("fetch-more must request the next page"),
    }
    s.apply_append(Some(vec![score(2, "bo", 800)]));
    assert_eq!(s.leaderboard.scores.len(), 2);
    assert_eq!(s.leaderboard.scores[0].leaderboard_player_info.name, "ace");
    assert_eq!(s.leaderboard.scores[1].leaderboard_player_info.name, "bo");
    assert_eq!(s.current_leaderboard_page, 2);
}

#[test]
fn failed_append_is_silently_discarded() {
    let mut s = session(vec![info(77, 425)], vec![score(1, "ace", 900)]);
    s.on_key(DetailKey::Char('F'));
    s.apply_append(None);
    assert_eq!(s.leaderboard.scores.len(), 1);
    assert_eq!(s.current_leaderboard_page, 2);
}

#[test]
fn fetch_more_on_sentinel_leaderboard_asks_nothing() {
    let mut s = session(vec![LeaderBoardInfo::new()], Vec::new());
    let act = s.on_key(DetailKey::Char('F'));
    assert!(matches!(act, DetailAction::Idle));
    assert_eq!(s.current_leaderboard_page, 2);
}

#[test]
fn toggles_flip_layout_sizes() {
    let mut s = session(vec![info(77, 425)], Vec::new());
    assert_eq!(s.map_detail.description_height, 50);
    assert!(!s.map_detail.description_expanded);
    s.on_key(DetailKey::Char('e'));
    assert_eq!(s.map_detail.description_height, 100);
    assert!(s.map_detail.description_expanded);
    s.on_key(DetailKey::Char('e'));
    assert_eq!(s.map_detail.description_height, 50);

    assert!(s.map_detail.scoreboard_shown);
    assert_eq!(s.map_detail.scoreboard_width, 50);
    s.on_key(DetailKey::Char('S'));
    assert!(!s.map_detail.scoreboard_shown);
    assert_eq!(s.map_detail.scoreboard_width, 0);
    s.on_key(DetailKey::Char('S'));
    assert_eq!(s.map_detail.scoreboard_width, 50);
}

#[test]
fn focus_switch_resets_the_other_panes_selection() {
    let mut s = session(
        vec![info(77, 425), info(88, 600)],
        vec![score(1, "ace", 900), score(2, "bo", 800)],
    );
    s.on_key(DetailKey::Down);
    assert_eq!(s.difficulty_table.selected, Some(0));
    s.on_key(DetailKey::Right);
    assert_eq!(
        s.map_detail.active_window,
        MapDetailActiveWindow::Leaderboard
    );
    assert_eq!(s.difficulty_table.selected, None);
    assert_eq!(s.leaderboard.selected, Some(0));

    s.on_key(DetailKey::Down);
    assert_eq!(s.leaderboard.selected, Some(1));
    s.on_key(DetailKey::Down);
    assert_eq!(s.leaderboard.selected, Some(0));

    s.on_key(DetailKey::Left);
    assert_eq!(
        s.map_detail.active_window,
        MapDetailActiveWindow::Difficulties
    );
    assert_eq!(s.leaderboard.selected, None);
    assert_eq!(s.difficulty_table.selected, Some(0));
}

#[test]
fn quit_key_exits_the_session() {
    let mut s = session(vec![info(77, 425)], Vec::new());
    assert!(matches!(s.on_key(DetailKey::Esc), DetailAction::Exit));
}

#[test]
fn playback_keys_are_gated_by_preview_state() {
    let mut s = session(vec![info(77, 425)], Vec::new());
    assert_eq!(s.preview.state, PreviewState::Stopped);

    // while stopped, play starts from position zero
    let act = s.on_key(DetailKey::Char('p'));
    assert!(matches!(act, DetailAction::Sink(SinkCommand::Restart)));
    assert_eq!(s.preview.state, PreviewState::Playing);

    // while playing, the toggle keys do nothing
    s.on_key(DetailKey::Char('e'));
    assert!(!s.map_detail.description_expanded);

    // pause, then resume
    let act = s.on_key(DetailKey::Char('P'));
    assert!(matches!(act, DetailAction::Sink(SinkCommand::Pause)));
    assert_eq!(s.preview.state, PreviewState::Paused);
    let act = s.on_key(DetailKey::Char('r'));
    assert!(matches!(act, DetailAction::Sink(SinkCommand::Resume)));
    assert_eq!(s.preview.state, PreviewState::Playing);

    // stop discards playback
    let act = s.on_key(DetailKey::Char('s'));
    assert!(matches!(act, DetailAction::Sink(SinkCommand::Stop)));
    assert_eq!(s.preview.state, PreviewState::Stopped);
}

#[test]
fn volume_keys_act_while_playing() {
    let mut s = session(vec![info(77, 425)], Vec::new());
    s.on_key(DetailKey::Char('p'));
    assert_eq!(s.preview.volume, 10);
    let act = s.on_key(DetailKey::Char('i'));
    assert!(matches!(act, DetailAction::Sink(SinkCommand::SetVolume(12))));
    let act = s.on_key(DetailKey::Char('d'));
    assert!(matches!(act, DetailAction::Sink(SinkCommand::SetVolume(10))));
}

#[test]
fn empty_sink_forces_the_preview_to_stopped() {
    let mut s = session(vec![info(77, 425)], Vec::new());
    s.on_key(DetailKey::Char('p'));
    assert_eq!(s.preview.state, PreviewState::Playing);
    assert_eq!(s.on_tick(false), None);
    assert_eq!(s.preview.state, PreviewState::Playing);
    assert_eq!(s.on_tick(true), Some(SinkCommand::Stop));
    assert_eq!(s.preview.state, PreviewState::Stopped);
}

#[test]
fn star_cell_shows_na_for_sentinel_ids() {
    let s = session(vec![info(77, 425), LeaderBoardInfo::new()], Vec::new());
    assert_eq!(s.star_display(0), "4.25");
    assert_eq!(s.star_display(1), "N/A");
}

#[test]
fn difficulty_id_mapping() {
    assert_eq!(get_diff_id("Easy"), 1);
    assert_eq!(get_diff_id("Normal"), 3);
    assert_eq!(get_diff_id("Hard"), 5);
    assert_eq!(get_diff_id("Expert"), 7);
    assert_eq!(get_diff_id("ExpertPlus"), 9);
    assert_eq!(get_diff_id("Lawless"), 0);
}

#[test]
fn difficulty_name_mapping() {
    assert_eq!(get_diff_name(1), "Easy");
    assert_eq!(get_diff_name(3), "Normal");
    assert_eq!(get_diff_name(5), "Hard");
    assert_eq!(get_diff_name(7), "Expert");
    assert_eq!(get_diff_name(9), "Expert+");
    assert_eq!(get_diff_name(2), "Unknown");
}
