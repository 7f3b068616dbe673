//! The browse screen's state machine.
//!
//! The machine owns the query, the full result set, the displayed
//! (possibly re-sorted or substring-filtered) view, the selection cursor,
//! the page cursor and the input mode.  One keyboard event is folded in by
//! [`Browser::on_key`], which never performs a fetch itself: where a
//! transition needs the network, it hands back a [`BrowseAction`] and the
//! caller later applies the outcome through [`Browser::apply_search_results`]
//! or [`Browser::apply_more_results`].  A failed fetch is applied by leaving
//! the machine untouched.

use vstd::prelude::*;
use crate::select::{next_index, next_selection, prev_index, prev_selection};
use crate::sort::{sort_by_key_spec, sorted_by_key, SortKey};
use crate::text::{contains_seq, lower_of, lowercase, pop_char, push_char, str_contains};
use crate::types::{clone_records, recs, MapRecord, MapRecordView};

verus! {

/// Sub-mode of the sorting mode.
#[derive(Clone, Copy, PartialEq, Eq, Structural, Debug)]
pub enum SortMode {
    Normal,
    Filtering,
}

/// Input mode of the browse screen; exactly one is active at any time.
#[derive(Clone, Copy, PartialEq, Eq, Structural, Debug)]
pub enum InputMode {
    Normal,
    Editing,
    Sorting(SortMode),
}

/// One keyboard event, as the browse machine sees it.
#[derive(Clone, Copy, PartialEq, Eq, Structural, Debug)]
pub enum BrowseKey {
    Char(char),
    Enter,
    Backspace,
    Esc,
    Up,
    Down,
}

/// What the caller must do after a transition: nothing, leave the session,
/// run a fetch, or open the detail screen for one record.
#[derive(Debug)]
pub enum BrowseAction {
    Idle,
    Quit,
    Search { query: String },
    FetchMore { query: String, page: u32 },
    OpenDetail { id: String },
}

/// The browse screen's state.
#[derive(Debug)]
pub struct Browser {
    pub query: String,
    pub input: String,
    pub results: Vec<MapRecord>,
    pub filtered_results: Vec<MapRecord>,
    pub input_mode: InputMode,
    pub selected: Option<usize>,
    pub page_index: u32,
}

/// The text one record is searched by: id, song name, song author, level
/// author and publish date, joined by single spaces.
pub open spec fn search_line(m: MapRecordView) -> Seq<char> {
    m.id + seq![' '] + m.metadata.song_name + seq![' '] + m.metadata.song_author_name + seq![' ']
        + m.metadata.level_author_name + seq![' '] + m.last_published_at
}

/// Whether a record stays under a filter needle: the lower-case form of its
/// searchable text must contain the needle.
pub open spec fn keeps_record(m: MapRecordView, needle: Seq<char>) -> bool {
    contains_seq(lower_of(search_line(m)), needle)
}

/// The subsequence of `s` that a filter needle keeps, in original order.
pub open spec fn filtered_spec(s: Seq<MapRecordView>, needle: Seq<char>) -> Seq<MapRecordView> {
    s.filter(|m: MapRecordView| keeps_record(m, needle))
}

/// The empty needle keeps every record: filtering with the empty string
/// reproduces the full result set in original order.
pub proof fn lemma_empty_filter_keeps_all(s: Seq<MapRecordView>, needle: Seq<char>)
    requires
        needle.len() == 0,
    ensures
        filtered_spec(s, needle) == s,
    decreases s.len(),
{
    reveal(Seq::filter);
    if s.len() == 0 {
        assert(filtered_spec(s, needle) =~= s);
    } else {
        lemma_empty_filter_keeps_all(s.drop_last(), needle);
        assert(crate::text::matches_at(lower_of(search_line(s.last())), needle, 0));
        assert(filtered_spec(s, needle) =~= s);
    }
}

/// The displayed view shows a sub-multiset of the full result set: every
/// record on screen is one of the fetched records.
pub open spec fn view_within_results(b: Browser) -> bool {
    recs(b.filtered_results@).to_multiset().subset_of(recs(b.results@).to_multiset())
}

/// Filtering keeps a sub-multiset of what it is given.
proof fn lemma_filter_submultiset(s: Seq<MapRecordView>, needle: Seq<char>)
    ensures
        filtered_spec(s, needle).to_multiset().subset_of(s.to_multiset()),
    decreases s.len(),
{
    broadcast use vstd::seq_lib::group_to_multiset_ensures, vstd::multiset::group_multiset_axioms;

    reveal(Seq::filter);
    if s.len() > 0 {
        lemma_filter_submultiset(s.drop_last(), needle);
        assert(s =~= s.drop_last().push(s.last()));
        assert(s.to_multiset() =~= s.drop_last().to_multiset().insert(s.last()));
    }
}

/// Appending one page to both lists keeps the view within the full set.
proof fn lemma_append_submultiset(
    a: Seq<MapRecordView>,
    b: Seq<MapRecordView>,
    c: Seq<MapRecordView>,
)
    requires
        a.to_multiset().subset_of(b.to_multiset()),
    ensures
        (a + c).to_multiset().subset_of((b + c).to_multiset()),
{
    broadcast use vstd::multiset::group_multiset_axioms;

    vstd::seq_lib::lemma_multiset_commutative(a, c);
    vstd::seq_lib::lemma_multiset_commutative(b, c);
}

/// Every transition of the browse machine preserves the view-within-set
/// invariant: whatever keys arrive, the screen never shows a record the
/// full result set does not hold.
pub proof fn lemma_step_keeps_view_within(
    pre: Browser,
    key: BrowseKey,
    post: Browser,
    act: BrowseAction,
)
    requires
        view_within_results(pre),
        browse_step(pre, key, post, act),
    ensures
        view_within_results(post),
{
    broadcast use vstd::seq_lib::group_to_multiset_ensures, vstd::multiset::group_multiset_axioms;

    match pre.input_mode {
        InputMode::Normal => {},
        InputMode::Editing => {},
        InputMode::Sorting(SortMode::Normal) => {
            if let BrowseKey::Char(c) = key {
                if c == 'I' {
                    crate::sort::lemma_sort_by_key_multiset(recs(pre.filtered_results@), SortKey::Id);
                } else if c == 'N' {
                    crate::sort::lemma_sort_by_key_multiset(
                        recs(pre.filtered_results@),
                        SortKey::SongName,
                    );
                } else if c == 'A' {
                    crate::sort::lemma_sort_by_key_multiset(
                        recs(pre.filtered_results@),
                        SortKey::Author,
                    );
                } else if c == 'D' {
                    crate::sort::lemma_sort_by_key_multiset(
                        recs(pre.filtered_results@),
                        SortKey::Date,
                    );
                }
            }
        },
        InputMode::Sorting(SortMode::Filtering) => {
            if let BrowseKey::Char(c) = key {
                lemma_filter_submultiset(recs(pre.results@), lower_of(pre.input@.push(c)));
            } else if key == BrowseKey::Backspace {
                let trimmed = if pre.input@.len() == 0 {
                    pre.input@
                } else {
                    pre.input@.drop_last()
                };
                lemma_filter_submultiset(recs(pre.results@), lower_of(trimmed));
            }
        },
    }
}

/// Both fetch outcomes establish the view-within-set invariant as well: a
/// fresh page shows exactly the fetched records, and an appended page
/// extends both lists alike.
pub proof fn lemma_applies_keep_view_within(
    pre: Browser,
    post: Browser,
    fetched: Seq<MapRecordView>,
)
    ensures
        recs(post.filtered_results@) == fetched && recs(post.results@) == fetched
            ==> view_within_results(post),
        view_within_results(pre) && recs(post.results@) == recs(pre.results@) + fetched && recs(
            post.filtered_results@,
        ) == recs(pre.filtered_results@) + fetched ==> view_within_results(post),
{
    broadcast use vstd::multiset::group_multiset_axioms;

    if recs(post.results@) == recs(pre.results@) + fetched && recs(post.filtered_results@) == recs(
        pre.filtered_results@,
    ) + fetched && view_within_results(pre) {
        lemma_append_submultiset(recs(pre.filtered_results@), recs(pre.results@), fetched);
    }
}

/// The row the "open" transition acts on: the cursor, or row 0 when the
/// cursor was never set, clamped into the displayed view.
pub open spec fn clamped_selection(sel: Option<usize>, len: nat) -> int
    recommends
        len > 0,
{
    let i = match sel {
        Option::None => 0int,
        Option::Some(i) => i as int,
    };
    if i >= len {
        len - 1
    } else {
        i
    }
}

/// Both result lists, the edit fields, the cursors and the mode of `post`
/// are those of `pre`.
pub open spec fn browser_unchanged(pre: Browser, post: Browser) -> bool {
    &&& keeps_lists(pre, post)
    &&& keeps_edit(pre, post)
    &&& keeps_cursors(pre, post)
    &&& post.input_mode == pre.input_mode
}

/// Both result lists of `post` show the same records as those of `pre`.
pub open spec fn keeps_lists(pre: Browser, post: Browser) -> bool {
    &&& recs(post.results@) == recs(pre.results@)
    &&& recs(post.filtered_results@) == recs(pre.filtered_results@)
}

/// Query and edit buffer of `post` are those of `pre`.
pub open spec fn keeps_edit(pre: Browser, post: Browser) -> bool {
    &&& post.query@ == pre.query@
    &&& post.input@ == pre.input@
}

/// Selection and page cursor of `post` are those of `pre`.
pub open spec fn keeps_cursors(pre: Browser, post: Browser) -> bool {
    &&& post.selected == pre.selected
    &&& post.page_index == pre.page_index
}

/// The transition relation of the browse machine in normal mode.
pub open spec fn step_normal(pre: Browser, key: BrowseKey, post: Browser, act: BrowseAction) -> bool {
    match key {
        BrowseKey::Char(c) => {
            if c == 's' {
                &&& post.input_mode == InputMode::Editing
                &&& post.input@ == Seq::<char>::empty()
                &&& post.query@ == pre.query@
                &&& keeps_lists(pre, post)
                &&& keeps_cursors(pre, post)
                &&& act is Idle
            } else if c == 'q' {
                browser_unchanged(pre, post) && act is Quit
            } else if c == 'S' {
                &&& post.input_mode == InputMode::Sorting(SortMode::Normal)
                &&& post.input@ == Seq::<char>::empty()
                &&& post.query@ == pre.query@
                &&& keeps_lists(pre, post)
                &&& keeps_cursors(pre, post)
                &&& act is Idle
            } else if c == 'F' {
                if pre.results@.len() == 0 {
                    browser_unchanged(pre, post) && act is Idle
                } else {
                    &&& browser_unchanged(pre, post)
                    &&& act matches BrowseAction::FetchMore { query, page } && query@ == pre.query@
                        && page == pre.page_index
                }
            } else if c == 'c' {
                &&& post.results@.len() == 0
                &&& post.filtered_results@.len() == 0
                &&& keeps_edit(pre, post)
                &&& keeps_cursors(pre, post)
                &&& post.input_mode == pre.input_mode
                &&& act is Idle
            } else {
                browser_unchanged(pre, post) && act is Idle
            }
        },
        BrowseKey::Down => step_moved_down(pre, post) && act is Idle,
        BrowseKey::Up => step_moved_up(pre, post) && act is Idle,
        BrowseKey::Enter => step_open(pre, post, act),
        _ => browser_unchanged(pre, post) && act is Idle,
    }
}

/// After a "down" move: only the selection changed, by one wrapping step
/// over the displayed view.
pub open spec fn step_moved_down(pre: Browser, post: Browser) -> bool {
    &&& post.selected == Option::Some(
        next_index(pre.selected, pre.filtered_results@.len()),
    )
    &&& post.page_index == pre.page_index
    &&& keeps_lists(pre, post)
    &&& keeps_edit(pre, post)
    &&& post.input_mode == pre.input_mode
}

/// After an "up" move: only the selection changed, by one wrapping step
/// over the displayed view.
pub open spec fn step_moved_up(pre: Browser, post: Browser) -> bool {
    &&& post.selected == Option::Some(
        prev_index(pre.selected, pre.filtered_results@.len()),
    )
    &&& post.page_index == pre.page_index
    &&& keeps_lists(pre, post)
    &&& keeps_edit(pre, post)
    &&& post.input_mode == pre.input_mode
}

/// The "open" transition: on an empty view nothing happens; otherwise the
/// machine is unchanged and the caller is told to open the selected
/// record's detail screen.
pub open spec fn step_open(pre: Browser, post: Browser, act: BrowseAction) -> bool {
    if pre.filtered_results@.len() == 0 {
        browser_unchanged(pre, post) && act is Idle
    } else {
        &&& browser_unchanged(pre, post)
        &&& act matches BrowseAction::OpenDetail { id } && id@ == recs(pre.filtered_results@)[
            clamped_selection(pre.selected, pre.filtered_results@.len())
        ].id
    }
}

/// The transition relation of the browse machine in editing mode.
pub open spec fn step_editing(pre: Browser, key: BrowseKey, post: Browser, act: BrowseAction) -> bool {
    match key {
        BrowseKey::Enter => {
            &&& post.input_mode == InputMode::Normal
            &&& post.query@ == pre.input@
            &&& post.input@ == pre.input@
            &&& keeps_lists(pre, post)
            &&& keeps_cursors(pre, post)
            &&& act matches BrowseAction::Search { query } && query@ == pre.input@
        },
        BrowseKey::Char(c) => {
            &&& post.input@ == pre.input@.push(c)
            &&& post.query@ == pre.query@
            &&& keeps_lists(pre, post)
            &&& keeps_cursors(pre, post)
            &&& post.input_mode == pre.input_mode
            &&& act is Idle
        },
        BrowseKey::Backspace => {
            &&& post.input@ == (if pre.input@.len() == 0 {
                pre.input@
            } else {
                pre.input@.drop_last()
            })
            &&& post.query@ == pre.query@
            &&& keeps_lists(pre, post)
            &&& keeps_cursors(pre, post)
            &&& post.input_mode == pre.input_mode
            &&& act is Idle
        },
        BrowseKey::Esc => {
            &&& post.input_mode == InputMode::Normal
            &&& keeps_edit(pre, post)
            &&& keeps_lists(pre, post)
            &&& keeps_cursors(pre, post)
            &&& act is Idle
        },
        _ => browser_unchanged(pre, post) && act is Idle,
    }
}

/// The transition relation of the browse machine in sorting mode.
pub open spec fn step_sorting(pre: Browser, key: BrowseKey, post: Browser, act: BrowseAction) -> bool {
    match key {
        BrowseKey::Esc => {
            &&& post.input_mode == InputMode::Normal
            &&& recs(post.results@) == recs(pre.results@)
            &&& recs(post.filtered_results@) == recs(pre.results@)
            &&& keeps_edit(pre, post)
            &&& keeps_cursors(pre, post)
            &&& act is Idle
        },
        BrowseKey::Char(c) => {
            if c == 'I' {
                step_sorted(pre, post, SortKey::Id) && act is Idle
            } else if c == 'N' {
                step_sorted(pre, post, SortKey::SongName) && act is Idle
            } else if c == 'A' {
                step_sorted(pre, post, SortKey::Author) && act is Idle
            } else if c == 'D' {
                step_sorted(pre, post, SortKey::Date) && act is Idle
            } else if c == 'f' {
                &&& post.input_mode == InputMode::Sorting(SortMode::Filtering)
                &&& post.input@ == Seq::<char>::empty()
                &&& post.query@ == pre.query@
                &&& keeps_lists(pre, post)
                &&& keeps_cursors(pre, post)
                &&& act is Idle
            } else {
                browser_unchanged(pre, post) && act is Idle
            }
        },
        BrowseKey::Down => step_moved_down(pre, post) && act is Idle,
        BrowseKey::Up => step_moved_up(pre, post) && act is Idle,
        BrowseKey::Enter => step_open(pre, post, act),
        _ => browser_unchanged(pre, post) && act is Idle,
    }
}

/// After one sort key: the displayed view is re-sorted in place under the
/// criterion; everything else is unchanged.
pub open spec fn step_sorted(pre: Browser, post: Browser, k: SortKey) -> bool {
    &&& recs(post.results@) == recs(pre.results@)
    &&& recs(post.filtered_results@) == sort_by_key_spec(recs(pre.filtered_results@), k)
    &&& keeps_edit(pre, post)
    &&& keeps_cursors(pre, post)
    &&& post.input_mode == pre.input_mode
}

/// The transition relation of the browse machine in filtering mode.
pub open spec fn step_filtering(pre: Browser, key: BrowseKey, post: Browser, act: BrowseAction) -> bool {
    match key {
        BrowseKey::Esc => {
            &&& post.input_mode == InputMode::Sorting(SortMode::Normal)
            &&& recs(post.results@) == recs(pre.results@)
            &&& recs(post.filtered_results@) == recs(pre.results@)
            &&& keeps_edit(pre, post)
            &&& keeps_cursors(pre, post)
            &&& act is Idle
        },
        BrowseKey::Char(c) => {
            step_refiltered(pre, post, pre.input@.push(c)) && act is Idle
        },
        BrowseKey::Backspace => {
            step_refiltered(
                pre,
                post,
                if pre.input@.len() == 0 {
                    pre.input@
                } else {
                    pre.input@.drop_last()
                },
            ) && act is Idle
        },
        BrowseKey::Enter => {
            &&& post.input_mode == InputMode::Sorting(SortMode::Normal)
            &&& keeps_edit(pre, post)
            &&& keeps_lists(pre, post)
            &&& keeps_cursors(pre, post)
            &&& act is Idle
        },
        _ => browser_unchanged(pre, post) && act is Idle,
    }
}

/// After one edit of the filter buffer: the buffer holds `new_input` and
/// the displayed view is recomputed from the full set under the buffer's
/// lower-case form.
pub open spec fn step_refiltered(pre: Browser, post: Browser, new_input: Seq<char>) -> bool {
    &&& post.input@ == new_input
    &&& post.query@ == pre.query@
    &&& recs(post.results@) == recs(pre.results@)
    &&& recs(post.filtered_results@) == filtered_spec(recs(pre.results@), lower_of(new_input))
    &&& keeps_cursors(pre, post)
    &&& post.input_mode == pre.input_mode
}

/// The whole transition relation of the browse machine: which mode handles
/// the key decides the clause.
pub open spec fn browse_step(pre: Browser, key: BrowseKey, post: Browser, act: BrowseAction) -> bool {
    match pre.input_mode {
        InputMode::Normal => step_normal(pre, key, post, act),
        InputMode::Editing => step_editing(pre, key, post, act),
        InputMode::Sorting(SortMode::Normal) => step_sorting(pre, key, post, act),
        InputMode::Sorting(SortMode::Filtering) => step_filtering(pre, key, post, act),
    }
}

impl Default for Browser {
    /// A fresh browse machine: empty query, buffer and result sets, normal
    /// mode, no selection, page cursor 1.
    fn default() -> (r: Browser)
        ensures
            r.query@ == Seq::<char>::empty(),
            r.input@ == Seq::<char>::empty(),
            r.results@.len() == 0,
            r.filtered_results@.len() == 0,
            r.input_mode == InputMode::Normal,
            r.selected is None,
            r.page_index == 1,
    {
        Browser {
            query: String::new(),
            input: String::new(),
            results: Vec::new(),
            filtered_results: Vec::new(),
            input_mode: InputMode::Normal,
            selected: Option::None,
            page_index: 1,
        }
    }
}

impl Browser {
    /// Replaces both result sets with a fresh page of records.
    pub fn set_results(&mut self, new_results: Vec<MapRecord>)
        ensures
            recs(final(self).results@) == recs(new_results@),
            recs(final(self).filtered_results@) == recs(new_results@),
            keeps_edit(*old(self), *final(self)),
            keeps_cursors(*old(self), *final(self)),
            final(self).input_mode == old(self).input_mode,
    {
        self.filtered_results = clone_records(&new_results);
        self.results = new_results;
    }

    /// Appends a further page of records to both result sets.
    pub fn append_results(&mut self, new_results: Vec<MapRecord>)
        ensures
            recs(final(self).results@) == recs(old(self).results@) + recs(new_results@),
            recs(final(self).filtered_results@) == recs(old(self).filtered_results@) + recs(
                new_results@,
            ),
            keeps_edit(*old(self), *final(self)),
            keeps_cursors(*old(self), *final(self)),
            final(self).input_mode == old(self).input_mode,
    {
        let mut data = clone_records(&new_results);
        let mut incoming = new_results;
        let ghost new_views = recs(incoming@);
        self.results.append(&mut incoming);
        self.filtered_results.append(&mut data);
        proof {
            assert(recs(final(self).results@) =~= recs(old(self).results@) + new_views);
            assert(recs(final(self).filtered_results@) =~= recs(old(self).filtered_results@)
                + new_views);
        }
    }

    /// Moves the selection one row down, wrapping past the last row.
    pub fn next_item(&mut self)
        ensures
            step_moved_down(*old(self), *final(self)),
    {
        let i = next_selection(self.selected, self.filtered_results.len());
        self.selected = Option::Some(i);
    }

    /// Moves the selection one row up, wrapping past row 0.
    pub fn previous_item(&mut self)
        ensures
            step_moved_up(*old(self), *final(self)),
    {
        let i = prev_selection(self.selected, self.filtered_results.len());
        self.selected = Option::Some(i);
    }

    /// Applies the outcome of a fresh search: both sets replaced, page
    /// cursor reset to 1.
    pub fn apply_search_results(&mut self, results: Vec<MapRecord>)
        ensures
            recs(final(self).results@) == recs(results@),
            recs(final(self).filtered_results@) == recs(results@),
            final(self).page_index == 1,
            keeps_edit(*old(self), *final(self)),
            final(self).selected == old(self).selected,
            final(self).input_mode == old(self).input_mode,
    {
        self.set_results(results);
        self.page_index = 1;
    }

    /// Applies the outcome of a fetch-more: both sets extended, page cursor
    /// advanced.
    pub fn apply_more_results(&mut self, new_results: Vec<MapRecord>)
        requires
            old(self).page_index < u32::MAX,
        ensures
            recs(final(self).results@) == recs(old(self).results@) + recs(new_results@),
            recs(final(self).filtered_results@) == recs(old(self).filtered_results@) + recs(
                new_results@,
            ),
            final(self).page_index == old(self).page_index + 1,
            keeps_edit(*old(self), *final(self)),
            final(self).selected == old(self).selected,
            final(self).input_mode == old(self).input_mode,
    {
        self.append_results(new_results);
        self.page_index = self.page_index + 1;
    }

    /// Folds one keyboard event into the machine and says what the caller
    /// must do next.
    pub fn on_key(&mut self, key: BrowseKey) -> (act: BrowseAction)
        ensures
            browse_step(*old(self), key, *final(self), act),
    {
        match self.input_mode {
            InputMode::Normal => self.on_key_normal(key),
            InputMode::Editing => self.on_key_editing(key),
            InputMode::Sorting(SortMode::Normal) => self.on_key_sorting(key),
            InputMode::Sorting(SortMode::Filtering) => self.on_key_filtering(key),
        }
    }

    /// Handles one key in normal mode.
    fn on_key_normal(&mut self, key: BrowseKey) -> (act: BrowseAction)
        requires
            old(self).input_mode == InputMode::Normal,
        ensures
            step_normal(*old(self), key, *final(self), act),
    {
        match key {
            BrowseKey::Char(c) => {
                if c == 's' {
                    self.input_mode = InputMode::Editing;
                    self.input = String::new();
                    BrowseAction::Idle
                } else if c == 'q' {
                    BrowseAction::Quit
                } else if c == 'S' {
                    self.input_mode = InputMode::Sorting(SortMode::Normal);
                    self.input = String::new();
                    BrowseAction::Idle
                } else if c == 'F' {
                    if self.results.len() == 0 {
                        BrowseAction::Idle
                    } else {
                        BrowseAction::FetchMore { query: self.query.clone(), page: self.page_index }
                    }
                } else if c == 'c' {
                    self.set_results(Vec::new());
                    proof {
                        assert(recs(Seq::<MapRecord>::empty()) =~= Seq::<MapRecordView>::empty());
                    }
                    BrowseAction::Idle
                } else {
                    BrowseAction::Idle
                }
            },
            BrowseKey::Down => {
                self.next_item();
                BrowseAction::Idle
            },
            BrowseKey::Up => {
                self.previous_item();
                BrowseAction::Idle
            },
            BrowseKey::Enter => self.open_selected(),
            _ => BrowseAction::Idle,
        }
    }

    /// The "open" transition shared by normal and sorting mode.
    fn open_selected(&mut self) -> (act: BrowseAction)
        ensures
            step_open(*old(self), *final(self), act),
    {
        let len = self.filtered_results.len();
        if len == 0 {
            return BrowseAction::Idle;
        }
        let mut sel = match self.selected {
            Option::Some(i) => i,
            Option::None => 0,
        };
        if sel >= len {
            sel = len - 1;
        }
        let id = self.filtered_results[sel].id.clone();
        BrowseAction::OpenDetail { id }
    }

    /// Handles one key in editing mode.
    fn on_key_editing(&mut self, key: BrowseKey) -> (act: BrowseAction)
        requires
            old(self).input_mode == InputMode::Editing,
        ensures
            step_editing(*old(self), key, *final(self), act),
    {
        match key {
            BrowseKey::Enter => {
                self.query = self.input.clone();
                self.input_mode = InputMode::Normal;
                BrowseAction::Search { query: self.query.clone() }
            },
            BrowseKey::Char(c) => {
                push_char(&mut self.input, c);
                BrowseAction::Idle
            },
            BrowseKey::Backspace => {
                pop_char(&mut self.input);
                BrowseAction::Idle
            },
            BrowseKey::Esc => {
                self.input_mode = InputMode::Normal;
                BrowseAction::Idle
            },
            _ => BrowseAction::Idle,
        }
    }

    /// Handles one key in sorting mode.
    fn on_key_sorting(&mut self, key: BrowseKey) -> (act: BrowseAction)
        requires
            old(self).input_mode == InputMode::Sorting(SortMode::Normal),
        ensures
            step_sorting(*old(self), key, *final(self), act),
    {
        match key {
            BrowseKey::Esc => {
                self.input_mode = InputMode::Normal;
                self.filtered_results = clone_records(&self.results);
                BrowseAction::Idle
            },
            BrowseKey::Char(c) => {
                if c == 'I' {
                    sort_results(self, SortKey::Id);
                    BrowseAction::Idle
                } else if c == 'N' {
                    sort_results(self, SortKey::SongName);
                    BrowseAction::Idle
                } else if c == 'A' {
                    sort_results(self, SortKey::Author);
                    BrowseAction::Idle
                } else if c == 'D' {
                    sort_results(self, SortKey::Date);
                    BrowseAction::Idle
                } else if c == 'f' {
                    self.input_mode = InputMode::Sorting(SortMode::Filtering);
                    self.input = String::new();
                    BrowseAction::Idle
                } else {
                    BrowseAction::Idle
                }
            },
            BrowseKey::Down => {
                self.next_item();
                BrowseAction::Idle
            },
            BrowseKey::Up => {
                self.previous_item();
                BrowseAction::Idle
            },
            BrowseKey::Enter => self.open_selected(),
            _ => BrowseAction::Idle,
        }
    }

    /// Handles one key in filtering mode.
    fn on_key_filtering(&mut self, key: BrowseKey) -> (act: BrowseAction)
        requires
            old(self).input_mode == InputMode::Sorting(SortMode::Filtering),
        ensures
            step_filtering(*old(self), key, *final(self), act),
    {
        match key {
            BrowseKey::Esc => {
                self.input_mode = InputMode::Sorting(SortMode::Normal);
                self.filtered_results = clone_records(&self.results);
                BrowseAction::Idle
            },
            BrowseKey::Char(c) => {
                push_char(&mut self.input, c);
                let needle = self.input.clone();
                filter_results(self, needle.as_str());
                BrowseAction::Idle
            },
            BrowseKey::Backspace => {
                pop_char(&mut self.input);
                let needle = self.input.clone();
                filter_results(self, needle.as_str());
                BrowseAction::Idle
            },
            BrowseKey::Enter => {
                self.input_mode = InputMode::Sorting(SortMode::Normal);
                BrowseAction::Idle
            },
            _ => BrowseAction::Idle,
        }
    }
}

/// Builds the text one record is searched by.
fn build_search_line(m: &MapRecord) -> (r: String)
    ensures
        r@ == search_line(m@),
{
    let mut line = String::new();
    line.append(m.id.as_str());
    push_char(&mut line, ' ');
    line.append(m.metadata.song_name.as_str());
    push_char(&mut line, ' ');
    line.append(m.metadata.song_author_name.as_str());
    push_char(&mut line, ' ');
    line.append(m.metadata.level_author_name.as_str());
    push_char(&mut line, ' ');
    line.append(m.last_published_at.as_str());
    proof {
        assert(line@ =~= search_line(m@));
    }
    line
}

/// Re-sorts the displayed view in place under the criterion.
pub fn sort_results(browser: &mut Browser, criteria: SortKey)
    ensures
        step_sorted(*old(browser), *final(browser), criteria),
{
    let sorted = sorted_by_key(&browser.filtered_results, criteria);
    browser.filtered_results = sorted;
}

/// Recomputes the displayed view as the subsequence of the full result set
/// whose searchable text contains the filter as a case-insensitive
/// substring.
pub fn filter_results(browser: &mut Browser, filter: &str)
    ensures
        recs(final(browser).filtered_results@) == filtered_spec(
            recs(old(browser).results@),
            lower_of(filter@),
        ),
        recs(final(browser).results@) == recs(old(browser).results@),
        keeps_edit(*old(browser), *final(browser)),
        keeps_cursors(*old(browser), *final(browser)),
        final(browser).input_mode == old(browser).input_mode,
{
    let needle = lowercase(filter);
    let ghost nd = lower_of(filter@);
    let mut out: Vec<MapRecord> = Vec::new();
    let mut i: usize = 0;
    proof {
        assert(recs(out@) =~= filtered_spec(recs(browser.results@).take(0), nd));
    }
    while i < browser.results.len()
        invariant
            0 <= i <= browser.results.len(),
            needle@ == nd,
            recs(out@) == filtered_spec(recs(browser.results@).take(i as int), nd),
        decreases browser.results.len() - i,
    {
        let line = build_search_line(&browser.results[i]);
        let hay = lowercase(line.as_str());
        let ghost t0 = recs(browser.results@).take(i as int);
        let ghost t1 = recs(browser.results@).take(i + 1);
        if str_contains(hay.as_str(), needle.as_str()) {
            let kept = browser.results[i].clone();
            let ghost old_out = recs(out@);
            out.push(kept);
            proof {
                assert(recs(out@) =~= old_out.push(browser.results@[i as int]@));
            }
        }
        proof {
            reveal(Seq::filter);
            assert(t1.drop_last() =~= t0);
            assert(t1.last() == browser.results@[i as int]@);
            assert(recs(out@) =~= filtered_spec(t1, nd));
        }
        i = i + 1;
    }
    proof {
        assert(recs(browser.results@).take(browser.results@.len() as int) =~= recs(
            browser.results@,
        ));
    }
    browser.filtered_results = out;
}

} // verus!
