//! The detail screen's state machine.
//!
//! A detail session owns one map's record, a table over its difficulty
//! entries, the embedded leaderboard sub-machine and the preview player.
//! As in the browse machine, no function here performs a fetch: a
//! transition that needs the network hands back a [`DetailAction`] with the
//! leaderboard id to fetch by, and the caller applies the outcome through
//! [`DetailSession::apply_scores`] or [`DetailSession::apply_append`].  A
//! leaderboard id of 0 marks a difficulty with no competitive leaderboard
//! and is never handed out as a fetch key.

use vstd::prelude::*;
use vstd::string::*;
use crate::browser::clamped_selection;
use crate::preview::{Preview, PreviewState, SinkCommand};
use crate::select::{next_index, next_selection, prev_index, prev_selection};
use crate::text::str_eq;
use crate::types::{LeaderBoardDifficulty, LeaderBoardInfo, MapDifficulty, MapRecord, Score};

verus! {

/// Which pane of the detail screen has input focus.
#[derive(Clone, Copy, PartialEq, Eq, Structural, Debug)]
pub enum MapDetailActiveWindow {
    Difficulties,
    Leaderboard,
}

/// Layout and focus state of the detail screen, with the record it shows.
#[derive(Debug)]
pub struct MapDetail {
    pub description_height: u16,
    pub description_expanded: bool,
    pub scoreboard_shown: bool,
    pub scoreboard_width: u16,
    pub map: MapRecord,
    pub active_window: MapDetailActiveWindow,
}

impl MapDetail {
    /// A fresh detail screen over one fetched record: description folded at
    /// half height, scoreboard shown at half width, focus on the
    /// difficulty table.
    pub fn new(map: MapRecord) -> (r: Self)
        ensures
            r.description_height == 50,
            r.description_expanded == false,
            r.scoreboard_shown == true,
            r.scoreboard_width == 50,
            r.map == map,
            r.active_window == MapDetailActiveWindow::Difficulties,
    {
        MapDetail {
            description_height: 50,
            description_expanded: false,
            scoreboard_shown: true,
            scoreboard_width: 50,
            map,
            active_window: MapDetailActiveWindow::Difficulties,
        }
    }

    /// Flips the description between folded (50%) and expanded (100%).
    pub fn toggle_description(&mut self)
        ensures
            toggled_description(*old(self), *final(self)),
    {
        self.description_expanded = !self.description_expanded;
        if self.description_expanded {
            self.description_height = 100;
        } else {
            self.description_height = 50;
        }
    }

    /// Flips the scoreboard between shown (50% width) and hidden (0).
    pub fn toggle_scoreboard(&mut self)
        ensures
            toggled_scoreboard(*old(self), *final(self)),
    {
        self.scoreboard_shown = !self.scoreboard_shown;
        if self.scoreboard_shown {
            self.scoreboard_width = 50;
        } else {
            self.scoreboard_width = 0;
        }
    }
}

/// After a description toggle: the expanded flag is flipped, the height
/// follows it (100 expanded, 50 folded), everything else is unchanged.
pub open spec fn toggled_description(pre: MapDetail, post: MapDetail) -> bool {
    &&& post.description_expanded == !pre.description_expanded
    &&& post.description_height == (if post.description_expanded {
        100u16
    } else {
        50u16
    })
    &&& post.scoreboard_shown == pre.scoreboard_shown
    &&& post.scoreboard_width == pre.scoreboard_width
    &&& post.map == pre.map
    &&& post.active_window == pre.active_window
}

/// After a scoreboard toggle: the shown flag is flipped, the width follows
/// it (50 shown, 0 hidden), everything else is unchanged.
pub open spec fn toggled_scoreboard(pre: MapDetail, post: MapDetail) -> bool {
    &&& post.scoreboard_shown == !pre.scoreboard_shown
    &&& post.scoreboard_width == (if post.scoreboard_shown {
        50u16
    } else {
        0u16
    })
    &&& post.description_expanded == pre.description_expanded
    &&& post.description_height == pre.description_height
    &&& post.map == pre.map
    &&& post.active_window == pre.active_window
}

/// Selection cursor over the difficulty entries of the shown version.
#[derive(Debug)]
pub struct DifficultyTable {
    pub selected: Option<usize>,
    pub difficulties: Vec<MapDifficulty>,
}

impl DifficultyTable {
    /// A fresh table over the given entries, with no row selected.
    pub fn new(diffs: Vec<MapDifficulty>) -> (r: Self)
        ensures
            r.selected is None,
            r.difficulties == diffs,
    {
        DifficultyTable { selected: Option::None, difficulties: diffs }
    }

    /// Moves the selection one row down, wrapping past the last row.
    pub fn next_item(&mut self)
        ensures
            final(self).selected == Option::Some(
                next_index(old(self).selected, old(self).difficulties@.len()),
            ),
            final(self).difficulties == old(self).difficulties,
    {
        let i = next_selection(self.selected, self.difficulties.len());
        self.selected = Option::Some(i);
    }

    /// Moves the selection one row up, wrapping past row 0.
    pub fn previous_item(&mut self)
        ensures
            final(self).selected == Option::Some(
                prev_index(old(self).selected, old(self).difficulties@.len()),
            ),
            final(self).difficulties == old(self).difficulties,
    {
        let i = prev_selection(self.selected, self.difficulties.len());
        self.selected = Option::Some(i);
    }
}

impl LeaderBoardInfo {
    /// The empty leaderboard identity: id 0, meaning "no competitive
    /// leaderboard exists for this difficulty".
    pub fn new() -> (r: Self)
        ensures
            r.id == 0,
            r.max_score == 0,
            r.stars == 0,
            r.difficulty.difficulty == 0,
            r.difficulty.game_mode@ == Seq::<char>::empty(),
    {
        LeaderBoardInfo {
            id: 0,
            max_score: 0,
            stars: 0,
            difficulty: LeaderBoardDifficulty { difficulty: 0, game_mode: String::new() },
        }
    }
}

/// The numeric difficulty id the leaderboard service is keyed by.
pub open spec fn diff_id_spec(s: Seq<char>) -> u8 {
    if s == "Easy"@ {
        1
    } else if s == "Normal"@ {
        3
    } else if s == "Hard"@ {
        5
    } else if s == "Expert"@ {
        7
    } else if s == "ExpertPlus"@ {
        9
    } else {
        0
    }
}

/// Maps a difficulty label to the service's numeric id; unknown labels map
/// to 0.
pub fn get_diff_id(diff: &str) -> (r: u8)
    ensures
        r == diff_id_spec(diff@),
{
    if str_eq(diff, "Easy") {
        1
    } else if str_eq(diff, "Normal") {
        3
    } else if str_eq(diff, "Hard") {
        5
    } else if str_eq(diff, "Expert") {
        7
    } else if str_eq(diff, "ExpertPlus") {
        9
    } else {
        0
    }
}

/// The display label of a numeric difficulty id.
pub open spec fn diff_name_spec(diff_id: u8) -> Seq<char> {
    if diff_id == 1 {
        "Easy"@
    } else if diff_id == 3 {
        "Normal"@
    } else if diff_id == 5 {
        "Hard"@
    } else if diff_id == 7 {
        "Expert"@
    } else if diff_id == 9 {
        "Expert+"@
    } else {
        "Unknown"@
    }
}

/// Maps the service's numeric difficulty id back to a display label.
pub fn get_diff_name(diff_id: u8) -> (r: String)
    ensures
        r@ == diff_name_spec(diff_id),
{
    if diff_id == 1 {
        "Easy".to_owned()
    } else if diff_id == 3 {
        "Normal".to_owned()
    } else if diff_id == 5 {
        "Hard".to_owned()
    } else if diff_id == 7 {
        "Expert".to_owned()
    } else if diff_id == 9 {
        "Expert+".to_owned()
    } else {
        "Unknown".to_owned()
    }
}

/// One request for leaderboard metadata: the version's content hash, the
/// numeric difficulty id, and the mode name.
#[derive(Debug)]
pub struct LeaderboardRequest {
    pub hash: String,
    pub difficulty_id: u8,
    pub mode: String,
}

/// Decides how one difficulty entry enters the leaderboard list: a
/// lightshow entry gets no request (its info is the empty one, id 0);
/// every other entry is fetched by content hash, numeric difficulty id and
/// `"Solo"` joined with its characteristic.
pub fn leaderboard_request_for(diff: &MapDifficulty, hash: &str) -> (r: Option<LeaderboardRequest>)
    ensures
        (r is None) <==> diff.characteristic@ == "Lightshow"@,
        r matches Option::Some(req) ==> {
            &&& req.hash@ == hash@
            &&& req.difficulty_id == diff_id_spec(diff.difficulty@)
            &&& req.mode@ == "Solo"@ + diff.characteristic@
        },
{
    if str_eq(diff.characteristic.as_str(), "Lightshow") {
        Option::None
    } else {
        let mode = String::from_str("Solo").concat(diff.characteristic.as_str());
        Option::Some(
            LeaderboardRequest {
                hash: hash.to_owned(),
                difficulty_id: get_diff_id(diff.difficulty.as_str()),
                mode,
            },
        )
    }
}

/// Index of the first competitive leaderboard (id not 0) at or after `i`,
/// or the list's length when there is none.
pub open spec fn first_competitive_from(infos: Seq<LeaderBoardInfo>, i: int) -> int
    decreases infos.len() - i,
{
    if i < 0 || i >= infos.len() {
        infos.len() as int
    } else if infos[i].id != 0 {
        i
    } else {
        first_competitive_from(infos, i + 1)
    }
}

/// The first competitive leaderboard has a non-zero id, and everything
/// before it has id 0: the sentinel id never keys the construction-time
/// score fetch.
pub proof fn lemma_first_competitive(infos: Seq<LeaderBoardInfo>, i: int)
    requires
        0 <= i <= infos.len(),
    ensures
        i <= first_competitive_from(infos, i) <= infos.len(),
        first_competitive_from(infos, i) < infos.len() ==> infos[first_competitive_from(
            infos,
            i,
        )].id != 0,
        forall|q: int| i <= q < first_competitive_from(infos, i) ==> infos[q].id == 0,
    decreases infos.len() - i,
{
    if i < infos.len() && infos[i].id == 0 {
        lemma_first_competitive(infos, i + 1);
    }
}

/// The id the construction-time score fetch is keyed by: the first
/// non-zero leaderboard id, if any.
pub fn first_leaderboard_id(infos: &Vec<LeaderBoardInfo>) -> (r: Option<u32>)
    ensures
        ({
            let fc = first_competitive_from(infos@, 0);
            if fc < infos@.len() {
                r == Option::Some(infos@[fc].id) && infos@[fc].id != 0
            } else {
                r is None
            }
        }),
{
    let n = infos.len();
    let mut i: usize = 0;
    while i < n
        invariant
            n == infos@.len(),
            0 <= i <= n,
            first_competitive_from(infos@, 0) == first_competitive_from(infos@, i as int),
            forall|q: int| 0 <= q < i ==> infos@[q].id == 0,
        decreases n - i,
    {
        if infos[i].id != 0 {
            proof {
                lemma_first_competitive(infos@, i as int);
            }
            return Option::Some(infos[i].id);
        }
        i = i + 1;
    }
    Option::None
}

/// The leaderboard sub-machine: the fetched score page, the per-difficulty
/// leaderboard identities (one per difficulty, same order), the index of
/// the difficulty whose scores are shown, and the selection cursor.
#[derive(Debug)]
pub struct SSLeaderboard {
    pub selected: Option<usize>,
    pub scores: Vec<Score>,
    pub leaderboard_diffs: Vec<LeaderBoardInfo>,
    pub current_leaderboard_index: usize,
}

impl SSLeaderboard {
    /// The sub-machine is well formed when the shown index points at one of
    /// its leaderboard identities.
    pub open spec fn wf(&self) -> bool {
        &&& self.leaderboard_diffs@.len() > 0
        &&& self.current_leaderboard_index < self.leaderboard_diffs@.len()
    }

    /// A fresh sub-machine over the assembled identities and the first
    /// fetched score page, showing the first difficulty.
    pub fn new(leaderboard_diffs: Vec<LeaderBoardInfo>, scores: Vec<Score>) -> (r: Self)
        requires
            leaderboard_diffs@.len() > 0,
        ensures
            r.selected is None,
            r.scores == scores,
            r.leaderboard_diffs == leaderboard_diffs,
            r.current_leaderboard_index == 0,
            r.wf(),
    {
        SSLeaderboard {
            selected: Option::None,
            scores,
            leaderboard_diffs,
            current_leaderboard_index: 0,
        }
    }

    /// Moves the selection one score row down, wrapping past the last row.
    pub fn next_item(&mut self)
        ensures
            final(self).selected == Option::Some(
                next_index(old(self).selected, old(self).scores@.len()),
            ),
            final(self).scores == old(self).scores,
            final(self).leaderboard_diffs == old(self).leaderboard_diffs,
            final(self).current_leaderboard_index == old(self).current_leaderboard_index,
    {
        let i = next_selection(self.selected, self.scores.len());
        self.selected = Option::Some(i);
    }

    /// Moves the selection one score row up, wrapping past row 0.
    pub fn previous_item(&mut self)
        ensures
            final(self).selected == Option::Some(
                prev_index(old(self).selected, old(self).scores@.len()),
            ),
            final(self).scores == old(self).scores,
            final(self).leaderboard_diffs == old(self).leaderboard_diffs,
            final(self).current_leaderboard_index == old(self).current_leaderboard_index,
    {
        let i = prev_selection(self.selected, self.scores.len());
        self.selected = Option::Some(i);
    }

    /// The fetch key for one difficulty's scores: its leaderboard id, or
    /// nothing when the id is the sentinel 0, which must never key a score
    /// fetch.
    pub fn score_request(&self, index: usize) -> (r: Option<u32>)
        requires
            index < self.leaderboard_diffs@.len(),
        ensures
            (r is Some) <==> self.leaderboard_diffs@[index as int].id != 0,
            r matches Option::Some(id) ==> id == self.leaderboard_diffs@[index as int].id && id
                != 0,
    {
        let id = self.leaderboard_diffs[index].id;
        if id == 0 {
            Option::None
        } else {
            Option::Some(id)
        }
    }

    /// Applies the outcome of a score re-fetch for one difficulty: the
    /// shown index moves there, and the scores become the fetched page, or
    /// empty when the fetch failed or was skipped.
    pub fn get_scores_for_difficulty(&mut self, index: usize, fetched: Option<Vec<Score>>)
        requires
            index < old(self).leaderboard_diffs@.len(),
        ensures
            final(self).current_leaderboard_index == index,
            final(self).scores@ == (match fetched {
                Option::Some(s) => s@,
                Option::None => Seq::<Score>::empty(),
            }),
            final(self).leaderboard_diffs == old(self).leaderboard_diffs,
            final(self).selected == old(self).selected,
            final(self).wf(),
    {
        self.current_leaderboard_index = index;
        match fetched {
            Option::Some(s) => {
                self.scores = s;
            },
            Option::None => {
                self.scores = Vec::new();
            },
        }
    }

    /// Applies the outcome of a fetch-more of scores: a fetched page is
    /// appended; a failed or skipped fetch is silently discarded and the
    /// scores stay as they were.
    pub fn append_scores_for_difficulty(&mut self, fetched: Option<Vec<Score>>)
        ensures
            final(self).scores@ == (match fetched {
                Option::Some(s) => old(self).scores@ + s@,
                Option::None => old(self).scores@,
            }),
            final(self).leaderboard_diffs == old(self).leaderboard_diffs,
            final(self).selected == old(self).selected,
            final(self).current_leaderboard_index == old(self).current_leaderboard_index,
    {
        match fetched {
            Option::Some(s) => {
                let mut incoming = s;
                self.scores.append(&mut incoming);
            },
            Option::None => {},
        }
    }
}

/// One keyboard event, as the detail machine sees it.
#[derive(Clone, Copy, PartialEq, Eq, Structural, Debug)]
pub enum DetailKey {
    Char(char),
    Enter,
    Esc,
    Up,
    Down,
    Left,
    Right,
}

/// What the caller must do after a detail transition: nothing, leave the
/// session, run a score fetch, or hand an order to the audio sink.
#[derive(Clone, Copy, PartialEq, Eq, Structural, Debug)]
pub enum DetailAction {
    Idle,
    Exit,
    FetchScores { leaderboard_id: u32, index: usize },
    AppendScores { leaderboard_id: u32, page: u32 },
    Sink(SinkCommand),
}

/// One open detail session: screen state, difficulty table, leaderboard
/// sub-machine, preview player, and the score page cursor.
#[derive(Debug)]
pub struct DetailSession {
    pub map_detail: MapDetail,
    pub difficulty_table: DifficultyTable,
    pub leaderboard: SSLeaderboard,
    pub preview: Preview,
    pub current_leaderboard_page: u32,
}

/// Everything but the preview player and the page cursor is unchanged.
pub open spec fn keeps_tables(pre: DetailSession, post: DetailSession) -> bool {
    &&& post.map_detail == pre.map_detail
    &&& post.difficulty_table == pre.difficulty_table
    &&& post.leaderboard == pre.leaderboard
}

/// Only the preview player changed.
pub open spec fn preview_only(pre: DetailSession, post: DetailSession) -> bool {
    &&& keeps_tables(pre, post)
    &&& post.current_leaderboard_page == pre.current_leaderboard_page
}

/// The transition relation of the detail machine while the preview is
/// paused: only `r` acts, resuming playback.
pub open spec fn detail_step_paused(
    pre: DetailSession,
    key: DetailKey,
    post: DetailSession,
    act: DetailAction,
) -> bool {
    if key == DetailKey::Char('r') {
        &&& preview_only(pre, post)
        &&& post.preview.state == PreviewState::Playing
        &&& post.preview.volume == pre.preview.volume
        &&& act == DetailAction::Sink(SinkCommand::Resume)
    } else {
        post == pre && act is Idle
    }
}

/// The transition relation of the detail machine while the preview is
/// playing: stop, pause and the two volume steps act on the player.
pub open spec fn detail_step_playing(
    pre: DetailSession,
    key: DetailKey,
    post: DetailSession,
    act: DetailAction,
) -> bool {
    match key {
        DetailKey::Char(c) => {
            if c == 's' {
                &&& preview_only(pre, post)
                &&& post.preview.state == PreviewState::Stopped
                &&& post.preview.volume == pre.preview.volume
                &&& act == DetailAction::Sink(SinkCommand::Stop)
            } else if c == 'P' {
                &&& preview_only(pre, post)
                &&& post.preview.state == PreviewState::Paused
                &&& post.preview.volume == pre.preview.volume
                &&& act == DetailAction::Sink(SinkCommand::Pause)
            } else if c == 'i' {
                &&& preview_only(pre, post)
                &&& post.preview.state == pre.preview.state
                &&& post.preview.volume == crate::preview::vol_up(pre.preview.volume as nat)
                &&& (if pre.preview.volume < 100 {
                    act == DetailAction::Sink(SinkCommand::SetVolume(post.preview.volume))
                } else {
                    act is Idle
                })
            } else if c == 'd' {
                &&& preview_only(pre, post)
                &&& post.preview.state == pre.preview.state
                &&& post.preview.volume == crate::preview::vol_down(pre.preview.volume as nat)
                &&& (if pre.preview.volume > 0 {
                    act == DetailAction::Sink(SinkCommand::SetVolume(post.preview.volume))
                } else {
                    act is Idle
                })
            } else {
                post == pre && act is Idle
            }
        },
        _ => post == pre && act is Idle,
    }
}

/// The transition relation of the detail machine while the preview is
/// stopped: every non-playback transition of the screen lives here.
pub open spec fn detail_step_stopped(
    pre: DetailSession,
    key: DetailKey,
    post: DetailSession,
    act: DetailAction,
) -> bool {
    match key {
        DetailKey::Char(c) => {
            if c == 'p' {
                &&& preview_only(pre, post)
                &&& post.preview.state == PreviewState::Playing
                &&& post.preview.volume == pre.preview.volume
                &&& act == DetailAction::Sink(SinkCommand::Restart)
            } else if c == 'e' {
                &&& toggled_description(pre.map_detail, post.map_detail)
                &&& post.difficulty_table == pre.difficulty_table
                &&& post.leaderboard == pre.leaderboard
                &&& post.preview == pre.preview
                &&& post.current_leaderboard_page == pre.current_leaderboard_page
                &&& act is Idle
            } else if c == 'S' {
                &&& toggled_scoreboard(pre.map_detail, post.map_detail)
                &&& post.difficulty_table == pre.difficulty_table
                &&& post.leaderboard == pre.leaderboard
                &&& post.preview == pre.preview
                &&& post.current_leaderboard_page == pre.current_leaderboard_page
                &&& act is Idle
            } else if c == 'F' {
                step_fetch_more_scores(pre, post, act)
            } else {
                post == pre && act is Idle
            }
        },
        DetailKey::Esc => post == pre && act is Exit,
        DetailKey::Enter => step_refetch_scores(pre, post, act),
        DetailKey::Up => step_pane_up(pre, post) && act is Idle,
        DetailKey::Down => step_pane_down(pre, post) && act is Idle,
        DetailKey::Left => step_pane_left(pre, post) && act is Idle,
        DetailKey::Right => step_pane_right(pre, post) && act is Idle,
    }
}

/// The confirm transition: with focus on the difficulty table, the shown
/// leaderboard moves to the selected difficulty.  A competitive difficulty
/// is re-fetched by its id; the sentinel id 0 is never fetched and yields
/// an empty score list at once, with the page cursor reset either way.
pub open spec fn step_refetch_scores(
    pre: DetailSession,
    post: DetailSession,
    act: DetailAction,
) -> bool {
    if pre.map_detail.active_window == MapDetailActiveWindow::Leaderboard {
        post == pre && act is Idle
    } else {
        let sel = clamped_selection(
            pre.difficulty_table.selected,
            pre.difficulty_table.difficulties@.len(),
        );
        let id = pre.leaderboard.leaderboard_diffs@[sel].id;
        if id == 0 {
            &&& post.map_detail == pre.map_detail
            &&& post.difficulty_table == pre.difficulty_table
            &&& post.preview == pre.preview
            &&& post.leaderboard.current_leaderboard_index == sel
            &&& post.leaderboard.scores@ == Seq::<Score>::empty()
            &&& post.leaderboard.leaderboard_diffs == pre.leaderboard.leaderboard_diffs
            &&& post.leaderboard.selected == pre.leaderboard.selected
            &&& post.current_leaderboard_page == 1
            &&& act is Idle
        } else {
            &&& post == pre
            &&& act == (DetailAction::FetchScores { leaderboard_id: id, index: sel as usize })
        }
    }
}

/// The fetch-more transition: the page cursor advances, and the currently
/// shown leaderboard's next page is requested — unless its id is the
/// sentinel 0, which is never fetched.
pub open spec fn step_fetch_more_scores(
    pre: DetailSession,
    post: DetailSession,
    act: DetailAction,
) -> bool {
    let id = pre.leaderboard.leaderboard_diffs@[pre.leaderboard.current_leaderboard_index as int].id;
    &&& keeps_tables(pre, post)
    &&& post.preview == pre.preview
    &&& post.current_leaderboard_page == pre.current_leaderboard_page + 1
    &&& (if id != 0 {
        act == (DetailAction::AppendScores { leaderboard_id: id, page: post.current_leaderboard_page })
    } else {
        act is Idle
    })
}

/// "Up" moves the focused pane's selection one row up.
pub open spec fn step_pane_up(pre: DetailSession, post: DetailSession) -> bool {
    match pre.map_detail.active_window {
        MapDetailActiveWindow::Difficulties => {
            &&& post.difficulty_table.selected == Option::Some(
                prev_index(pre.difficulty_table.selected, pre.difficulty_table.difficulties@.len()),
            )
            &&& post.difficulty_table.difficulties == pre.difficulty_table.difficulties
            &&& post.map_detail == pre.map_detail
            &&& post.leaderboard == pre.leaderboard
            &&& post.preview == pre.preview
            &&& post.current_leaderboard_page == pre.current_leaderboard_page
        },
        MapDetailActiveWindow::Leaderboard => {
            &&& post.leaderboard.selected == Option::Some(
                prev_index(pre.leaderboard.selected, pre.leaderboard.scores@.len()),
            )
            &&& post.leaderboard.scores == pre.leaderboard.scores
            &&& post.leaderboard.leaderboard_diffs == pre.leaderboard.leaderboard_diffs
            &&& post.leaderboard.current_leaderboard_index
                == pre.leaderboard.current_leaderboard_index
            &&& post.map_detail == pre.map_detail
            &&& post.difficulty_table == pre.difficulty_table
            &&& post.preview == pre.preview
            &&& post.current_leaderboard_page == pre.current_leaderboard_page
        },
    }
}

/// "Down" moves the focused pane's selection one row down.
pub open spec fn step_pane_down(pre: DetailSession, post: DetailSession) -> bool {
    match pre.map_detail.active_window {
        MapDetailActiveWindow::Difficulties => {
            &&& post.difficulty_table.selected == Option::Some(
                next_index(pre.difficulty_table.selected, pre.difficulty_table.difficulties@.len()),
            )
            &&& post.difficulty_table.difficulties == pre.difficulty_table.difficulties
            &&& post.map_detail == pre.map_detail
            &&& post.leaderboard == pre.leaderboard
            &&& post.preview == pre.preview
            &&& post.current_leaderboard_page == pre.current_leaderboard_page
        },
        MapDetailActiveWindow::Leaderboard => {
            &&& post.leaderboard.selected == Option::Some(
                next_index(pre.leaderboard.selected, pre.leaderboard.scores@.len()),
            )
            &&& post.leaderboard.scores == pre.leaderboard.scores
            &&& post.leaderboard.leaderboard_diffs == pre.leaderboard.leaderboard_diffs
            &&& post.leaderboard.current_leaderboard_index
                == pre.leaderboard.current_leaderboard_index
            &&& post.map_detail == pre.map_detail
            &&& post.difficulty_table == pre.difficulty_table
            &&& post.preview == pre.preview
            &&& post.current_leaderboard_page == pre.current_leaderboard_page
        },
    }
}

/// "Left" hands focus from the leaderboard back to the difficulty table:
/// the leaderboard's selection is cleared and the table's moves to its
/// first row.  With focus already on the table nothing happens.
pub open spec fn step_pane_left(pre: DetailSession, post: DetailSession) -> bool {
    match pre.map_detail.active_window {
        MapDetailActiveWindow::Difficulties => post == pre,
        MapDetailActiveWindow::Leaderboard => {
            &&& post.map_detail.active_window == MapDetailActiveWindow::Difficulties
            &&& post.map_detail.description_height == pre.map_detail.description_height
            &&& post.map_detail.description_expanded == pre.map_detail.description_expanded
            &&& post.map_detail.scoreboard_shown == pre.map_detail.scoreboard_shown
            &&& post.map_detail.scoreboard_width == pre.map_detail.scoreboard_width
            &&& post.map_detail.map == pre.map_detail.map
            &&& post.leaderboard.selected is None
            &&& post.leaderboard.scores == pre.leaderboard.scores
            &&& post.leaderboard.leaderboard_diffs == pre.leaderboard.leaderboard_diffs
            &&& post.leaderboard.current_leaderboard_index
                == pre.leaderboard.current_leaderboard_index
            &&& post.difficulty_table.selected == Option::Some(0usize)
            &&& post.difficulty_table.difficulties == pre.difficulty_table.difficulties
            &&& post.preview == pre.preview
            &&& post.current_leaderboard_page == pre.current_leaderboard_page
        },
    }
}

/// "Right" hands focus from the difficulty table to the leaderboard: the
/// table's selection is cleared and the leaderboard's moves to its first
/// row.  With focus already on the leaderboard nothing happens.
pub open spec fn step_pane_right(pre: DetailSession, post: DetailSession) -> bool {
    match pre.map_detail.active_window {
        MapDetailActiveWindow::Leaderboard => post == pre,
        MapDetailActiveWindow::Difficulties => {
            &&& post.map_detail.active_window == MapDetailActiveWindow::Leaderboard
            &&& post.map_detail.description_height == pre.map_detail.description_height
            &&& post.map_detail.description_expanded == pre.map_detail.description_expanded
            &&& post.map_detail.scoreboard_shown == pre.map_detail.scoreboard_shown
            &&& post.map_detail.scoreboard_width == pre.map_detail.scoreboard_width
            &&& post.map_detail.map == pre.map_detail.map
            &&& post.difficulty_table.selected is None
            &&& post.difficulty_table.difficulties == pre.difficulty_table.difficulties
            &&& post.leaderboard.selected == Option::Some(0usize)
            &&& post.leaderboard.scores == pre.leaderboard.scores
            &&& post.leaderboard.leaderboard_diffs == pre.leaderboard.leaderboard_diffs
            &&& post.leaderboard.current_leaderboard_index
                == pre.leaderboard.current_leaderboard_index
            &&& post.preview == pre.preview
            &&& post.current_leaderboard_page == pre.current_leaderboard_page
        },
    }
}

/// The whole transition relation of the detail machine: the preview state
/// gates which transitions a key can take.
pub open spec fn detail_step(
    pre: DetailSession,
    key: DetailKey,
    post: DetailSession,
    act: DetailAction,
) -> bool {
    match pre.preview.state {
        PreviewState::Paused => detail_step_paused(pre, key, post, act),
        PreviewState::Playing => detail_step_playing(pre, key, post, act),
        PreviewState::Stopped => detail_step_stopped(pre, key, post, act),
    }
}

impl DetailSession {
    /// The session is well formed when the leaderboard sub-machine is, one
    /// leaderboard identity exists per difficulty, and the preview's volume
    /// is in range.
    pub open spec fn wf(&self) -> bool {
        &&& self.leaderboard.wf()
        &&& self.difficulty_table.difficulties@.len() == self.leaderboard.leaderboard_diffs@.len()
        &&& self.preview.wf()
    }

    /// Assembles one session from its constructed parts, with the score
    /// page cursor at 1.
    pub fn new(
        map_detail: MapDetail,
        difficulty_table: DifficultyTable,
        leaderboard: SSLeaderboard,
        preview: Preview,
    ) -> (r: Self)
        requires
            leaderboard.wf(),
            difficulty_table.difficulties@.len() == leaderboard.leaderboard_diffs@.len(),
            preview.wf(),
        ensures
            r.map_detail == map_detail,
            r.difficulty_table == difficulty_table,
            r.leaderboard == leaderboard,
            r.preview == preview,
            r.current_leaderboard_page == 1,
            r.wf(),
    {
        DetailSession {
            map_detail,
            difficulty_table,
            leaderboard,
            preview,
            current_leaderboard_page: 1,
        }
    }

    /// Folds one keyboard event into the session and says what the caller
    /// must do next.
    pub fn on_key(&mut self, key: DetailKey) -> (act: DetailAction)
        requires
            old(self).wf(),
            old(self).current_leaderboard_page < u32::MAX,
        ensures
            detail_step(*old(self), key, *final(self), act),
            final(self).wf(),
    {
        match self.preview.state {
            PreviewState::Paused => {
                match key {
                    DetailKey::Char(c) => {
                        if c == 'r' {
                            DetailAction::Sink(self.preview.resume())
                        } else {
                            DetailAction::Idle
                        }
                    },
                    _ => DetailAction::Idle,
                }
            },
            PreviewState::Playing => {
                match key {
                    DetailKey::Char(c) => {
                        if c == 's' {
                            DetailAction::Sink(self.preview.stop())
                        } else if c == 'P' {
                            DetailAction::Sink(self.preview.pause())
                        } else if c == 'i' {
                            match self.preview.inc_vol() {
                                Option::Some(cmd) => DetailAction::Sink(cmd),
                                Option::None => DetailAction::Idle,
                            }
                        } else if c == 'd' {
                            match self.preview.dec_vol() {
                                Option::Some(cmd) => DetailAction::Sink(cmd),
                                Option::None => DetailAction::Idle,
                            }
                        } else {
                            DetailAction::Idle
                        }
                    },
                    _ => DetailAction::Idle,
                }
            },
            PreviewState::Stopped => self.on_key_stopped(key),
        }
    }

    /// Handles one key while the preview is stopped.
    fn on_key_stopped(&mut self, key: DetailKey) -> (act: DetailAction)
        requires
            old(self).wf(),
            old(self).preview.state == PreviewState::Stopped,
            old(self).current_leaderboard_page < u32::MAX,
        ensures
            detail_step_stopped(*old(self), key, *final(self), act),
            final(self).wf(),
    {
        match key {
            DetailKey::Char(c) => {
                if c == 'p' {
                    DetailAction::Sink(self.preview.play())
                } else if c == 'e' {
                    self.map_detail.toggle_description();
                    DetailAction::Idle
                } else if c == 'S' {
                    self.map_detail.toggle_scoreboard();
                    DetailAction::Idle
                } else if c == 'F' {
                    self.current_leaderboard_page = self.current_leaderboard_page + 1;
                    match self.leaderboard.score_request(self.leaderboard.current_leaderboard_index) {
                        Option::Some(id) => DetailAction::AppendScores {
                            leaderboard_id: id,
                            page: self.current_leaderboard_page,
                        },
                        Option::None => DetailAction::Idle,
                    }
                } else {
                    DetailAction::Idle
                }
            },
            DetailKey::Esc => DetailAction::Exit,
            DetailKey::Enter => {
                if matches!(self.map_detail.active_window, MapDetailActiveWindow::Leaderboard) {
                    return DetailAction::Idle;
                }
                let len = self.difficulty_table.difficulties.len();
                let mut sel = match self.difficulty_table.selected {
                    Option::Some(i) => i,
                    Option::None => 0,
                };
                if sel >= len {
                    sel = len - 1;
                }
                match self.leaderboard.score_request(sel) {
                    Option::Some(id) => DetailAction::FetchScores { leaderboard_id: id, index: sel },
                    Option::None => {
                        self.leaderboard.get_scores_for_difficulty(sel, Option::None);
                        self.current_leaderboard_page = 1;
                        DetailAction::Idle
                    },
                }
            },
            DetailKey::Up => {
                match self.map_detail.active_window {
                    MapDetailActiveWindow::Difficulties => self.difficulty_table.previous_item(),
                    MapDetailActiveWindow::Leaderboard => self.leaderboard.previous_item(),
                }
                DetailAction::Idle
            },
            DetailKey::Down => {
                match self.map_detail.active_window {
                    MapDetailActiveWindow::Difficulties => self.difficulty_table.next_item(),
                    MapDetailActiveWindow::Leaderboard => self.leaderboard.next_item(),
                }
                DetailAction::Idle
            },
            DetailKey::Left => {
                if matches!(self.map_detail.active_window, MapDetailActiveWindow::Leaderboard) {
                    self.map_detail.active_window = MapDetailActiveWindow::Difficulties;
                    self.leaderboard.selected = Option::None;
                    self.difficulty_table.selected = Option::Some(0);
                }
                DetailAction::Idle
            },
            DetailKey::Right => {
                if matches!(self.map_detail.active_window, MapDetailActiveWindow::Difficulties) {
                    self.map_detail.active_window = MapDetailActiveWindow::Leaderboard;
                    self.difficulty_table.selected = Option::None;
                    self.leaderboard.selected = Option::Some(0);
                }
                DetailAction::Idle
            },
        }
    }

    /// Applies the outcome of a score re-fetch requested by the confirm
    /// transition: the leaderboard shows the fetched page (or none) for the
    /// chosen difficulty and the page cursor is reset to 1.
    pub fn apply_scores(&mut self, index: usize, fetched: Option<Vec<Score>>)
        requires
            old(self).wf(),
            index < old(self).leaderboard.leaderboard_diffs@.len(),
        ensures
            final(self).leaderboard.current_leaderboard_index == index,
            final(self).leaderboard.scores@ == (match fetched {
                Option::Some(s) => s@,
                Option::None => Seq::<Score>::empty(),
            }),
            final(self).leaderboard.leaderboard_diffs == old(self).leaderboard.leaderboard_diffs,
            final(self).leaderboard.selected == old(self).leaderboard.selected,
            final(self).current_leaderboard_page == 1,
            final(self).map_detail == old(self).map_detail,
            final(self).difficulty_table == old(self).difficulty_table,
            final(self).preview == old(self).preview,
            final(self).wf(),
    {
        self.leaderboard.get_scores_for_difficulty(index, fetched);
        self.current_leaderboard_page = 1;
    }

    /// Applies the outcome of a fetch-more of scores: a fetched page is
    /// appended; a failed or skipped fetch leaves the scores as they were.
    pub fn apply_append(&mut self, fetched: Option<Vec<Score>>)
        requires
            old(self).wf(),
        ensures
            final(self).leaderboard.scores@ == (match fetched {
                Option::Some(s) => old(self).leaderboard.scores@ + s@,
                Option::None => old(self).leaderboard.scores@,
            }),
            final(self).leaderboard.leaderboard_diffs == old(self).leaderboard.leaderboard_diffs,
            final(self).leaderboard.selected == old(self).leaderboard.selected,
            final(self).leaderboard.current_leaderboard_index == old(
                self,
            ).leaderboard.current_leaderboard_index,
            final(self).current_leaderboard_page == old(self).current_leaderboard_page,
            final(self).map_detail == old(self).map_detail,
            final(self).difficulty_table == old(self).difficulty_table,
            final(self).preview == old(self).preview,
            final(self).wf(),
    {
        self.leaderboard.append_scores_for_difficulty(fetched);
    }

    /// The per-frame reconciliation with the hardware sink: when the sink
    /// reports no queued audio left, the preview is forced to stopped.
    pub fn on_tick(&mut self, sink_empty: bool) -> (c: Option<SinkCommand>)
        requires
            old(self).wf(),
        ensures
            sink_empty ==> {
                &&& preview_only(*old(self), *final(self))
                &&& final(self).preview.state == PreviewState::Stopped
                &&& final(self).preview.volume == old(self).preview.volume
                &&& c == Option::Some(SinkCommand::Stop)
            },
            !sink_empty ==> *final(self) == *old(self) && c is None,
            final(self).wf(),
    {
        if sink_empty {
            Option::Some(self.preview.stop())
        } else {
            Option::None
        }
    }

    /// The star-rating cell of one difficulty row: the sentinel id 0 shows
    /// "N/A", a competitive difficulty shows its fetched star rating with
    /// two decimals.
    pub fn star_display(&self, index: usize) -> (r: String)
        requires
            index < self.leaderboard.leaderboard_diffs@.len(),
        ensures
            self.leaderboard.leaderboard_diffs@[index as int].id == 0 ==> r@ == "N/A"@,
            self.leaderboard.leaderboard_diffs@[index as int].id != 0 ==> r@
                == crate::numfmt::hundredths_digits(
                self.leaderboard.leaderboard_diffs@[index as int].stars as nat,
            ),
    {
        let info = &self.leaderboard.leaderboard_diffs[index];
        if info.id == 0 {
            "N/A".to_owned()
        } else {
            crate::numfmt::format_hundredths(info.stars)
        }
    }
}

} // verus!
