//! Data model of the catalog and leaderboard records.
//!
//! Records arrive from the two remote services; the library holds them as
//! plain values.  Fractional quantities coming from the services (beats per
//! minute, notes per second, note jump speed, star rating, performance
//! points) are held as integer hundredths, so that every computation on them
//! is exact.  Each record type that the list logic copies around has a view
//! struct over `Seq<char>`, and the contracts of the list operations are
//! stated over those views.

use vstd::prelude::*;

verus! {

/// Vote statistics of one map.
#[derive(Debug)]
pub struct Stats {
    pub downvotes: u32,
    pub upvotes: u32,
}

/// Song metadata of one map. `bpm` is in hundredths of a beat per minute;
/// `duration` is in seconds.
#[derive(Debug)]
pub struct Metadata {
    pub song_name: String,
    pub song_sub_name: String,
    pub song_author_name: String,
    pub level_author_name: String,
    pub bpm: u32,
    pub duration: u32,
}

/// Mathematical image of a `Metadata` value.
#[verifier::ext_equal]
pub struct MetadataView {
    pub song_name: Seq<char>,
    pub song_sub_name: Seq<char>,
    pub song_author_name: Seq<char>,
    pub level_author_name: Seq<char>,
    pub bpm: u32,
    pub duration: u32,
}

impl View for Metadata {
    type V = MetadataView;

    open spec fn view(&self) -> MetadataView {
        MetadataView {
            song_name: self.song_name@,
            song_sub_name: self.song_sub_name@,
            song_author_name: self.song_author_name@,
            level_author_name: self.level_author_name@,
            bpm: self.bpm,
            duration: self.duration,
        }
    }
}

/// One difficulty entry of a map version.  `njs` (note jump speed) and
/// `nps` (notes per second) are in hundredths.
#[derive(Debug)]
pub struct MapDifficulty {
    pub notes: u32,
    pub bombs: u32,
    pub characteristic: String,
    pub difficulty: String,
    pub njs: u32,
    pub nps: u32,
}

/// Mathematical image of a `MapDifficulty` value.
#[verifier::ext_equal]
pub struct MapDifficultyView {
    pub notes: u32,
    pub bombs: u32,
    pub characteristic: Seq<char>,
    pub difficulty: Seq<char>,
    pub njs: u32,
    pub nps: u32,
}

impl View for MapDifficulty {
    type V = MapDifficultyView;

    open spec fn view(&self) -> MapDifficultyView {
        MapDifficultyView {
            notes: self.notes,
            bombs: self.bombs,
            characteristic: self.characteristic@,
            difficulty: self.difficulty@,
            njs: self.njs,
            nps: self.nps,
        }
    }
}

/// One uploaded version of a map, with its difficulty list in display order.
#[derive(Debug)]
pub struct Version {
    pub download_url: String,
    pub preview_url: String,
    pub cover_url: String,
    pub diffs: Vec<MapDifficulty>,
    pub hash: String,
}

/// Mathematical image of a `Version` value.
#[verifier::ext_equal]
pub struct VersionView {
    pub download_url: Seq<char>,
    pub preview_url: Seq<char>,
    pub cover_url: Seq<char>,
    pub diffs: Seq<MapDifficultyView>,
    pub hash: Seq<char>,
}

impl View for Version {
    type V = VersionView;

    open spec fn view(&self) -> VersionView {
        VersionView {
            download_url: self.download_url@,
            preview_url: self.preview_url@,
            cover_url: self.cover_url@,
            diffs: self.diffs@.map_values(|d: MapDifficulty| d@),
            hash: self.hash@,
        }
    }
}

/// One catalog record.  `id` is the stable key; `last_published_at` is an
/// ISO-8601 timestamp and therefore lexicographically orderable.
#[derive(Debug)]
pub struct MapRecord {
    pub id: String,
    pub name: String,
    pub last_published_at: String,
    pub metadata: Metadata,
    pub stats: Stats,
    pub description: String,
    pub ranked: bool,
    pub qualified: bool,
    pub versions: Vec<Version>,
    pub automapper: bool,
}

/// Mathematical image of a `MapRecord` value.
#[verifier::ext_equal]
pub struct MapRecordView {
    pub id: Seq<char>,
    pub name: Seq<char>,
    pub last_published_at: Seq<char>,
    pub metadata: MetadataView,
    pub stats: Stats,
    pub description: Seq<char>,
    pub ranked: bool,
    pub qualified: bool,
    pub versions: Seq<VersionView>,
    pub automapper: bool,
}

impl View for MapRecord {
    type V = MapRecordView;

    open spec fn view(&self) -> MapRecordView {
        MapRecordView {
            id: self.id@,
            name: self.name@,
            last_published_at: self.last_published_at@,
            metadata: self.metadata@,
            stats: self.stats,
            description: self.description@,
            ranked: self.ranked,
            qualified: self.qualified,
            versions: self.versions@.map_values(|v: Version| v@),
            automapper: self.automapper,
        }
    }
}

/// The views of a sequence of records, in order.
pub open spec fn recs(s: Seq<MapRecord>) -> Seq<MapRecordView> {
    s.map_values(|m: MapRecord| m@)
}

/// A page of catalog records, as the search endpoint returns them.
#[derive(Debug)]
pub struct Maps {
    pub docs: Vec<MapRecord>,
}

/// The difficulty identity echoed by the leaderboard service.
#[derive(Debug)]
pub struct LeaderBoardDifficulty {
    pub difficulty: u8,
    pub game_mode: String,
}

/// Per-difficulty leaderboard identity.  `id` 0 is the sentinel for "no
/// competitive leaderboard exists for this difficulty"; `stars` is the star
/// rating in hundredths.
#[derive(Debug)]
pub struct LeaderBoardInfo {
    pub id: u32,
    pub max_score: u32,
    pub stars: u32,
    pub difficulty: LeaderBoardDifficulty,
}

/// The player identity attached to one score.
#[derive(Debug)]
pub struct PlayerInfo {
    pub name: String,
}

/// One row of a leaderboard page.  `pp` (performance points) is in
/// hundredths.
#[derive(Debug)]
pub struct Score {
    pub rank: u32,
    pub leaderboard_player_info: PlayerInfo,
    pub base_score: u32,
    pub pp: u32,
    pub bad_cuts: u32,
    pub missed_notes: u32,
}

impl Clone for Stats {
    fn clone(&self) -> (r: Self)
        ensures
            r == *self,
    {
        Stats { downvotes: self.downvotes, upvotes: self.upvotes }
    }
}

impl Clone for Metadata {
    fn clone(&self) -> (r: Self)
        ensures
            r == *self,
    {
        Metadata {
            song_name: self.song_name.clone(),
            song_sub_name: self.song_sub_name.clone(),
            song_author_name: self.song_author_name.clone(),
            level_author_name: self.level_author_name.clone(),
            bpm: self.bpm,
            duration: self.duration,
        }
    }
}

impl Clone for MapDifficulty {
    fn clone(&self) -> (r: Self)
        ensures
            r == *self,
    {
        MapDifficulty {
            notes: self.notes,
            bombs: self.bombs,
            characteristic: self.characteristic.clone(),
            difficulty: self.difficulty.clone(),
            njs: self.njs,
            nps: self.nps,
        }
    }
}

impl Clone for Version {
    fn clone(&self) -> (r: Self)
        ensures
            r@ == self@,
    {
        let diffs = self.diffs.clone();
        let r = Version {
            download_url: self.download_url.clone(),
            preview_url: self.preview_url.clone(),
            cover_url: self.cover_url.clone(),
            diffs,
            hash: self.hash.clone(),
        };
        proof {
            assert(r.diffs@ =~= self.diffs@);
            assert(r@ =~= self@);
        }
        r
    }
}

impl Clone for MapRecord {
    fn clone(&self) -> (r: Self)
        ensures
            r@ == self@,
    {
        let versions = self.versions.clone();
        let r = MapRecord {
            id: self.id.clone(),
            name: self.name.clone(),
            last_published_at: self.last_published_at.clone(),
            metadata: self.metadata.clone(),
            stats: self.stats.clone(),
            description: self.description.clone(),
            ranked: self.ranked,
            qualified: self.qualified,
            versions,
            automapper: self.automapper,
        };
        proof {
            assert(r.versions@.map_values(|v: Version| v@) =~= self.versions@.map_values(
                |v: Version| v@,
            ));
            assert(r@ =~= self@);
        }
        r
    }
}

impl Clone for LeaderBoardDifficulty {
    fn clone(&self) -> (r: Self)
        ensures
            r == *self,
    {
        LeaderBoardDifficulty {
            difficulty: self.difficulty,
            game_mode: self.game_mode.clone(),
        }
    }
}

impl Clone for LeaderBoardInfo {
    fn clone(&self) -> (r: Self)
        ensures
            r == *self,
    {
        LeaderBoardInfo {
            id: self.id,
            max_score: self.max_score,
            stars: self.stars,
            difficulty: self.difficulty.clone(),
        }
    }
}

impl Clone for PlayerInfo {
    fn clone(&self) -> (r: Self)
        ensures
            r == *self,
    {
        PlayerInfo { name: self.name.clone() }
    }
}

impl Clone for Score {
    fn clone(&self) -> (r: Self)
        ensures
            r == *self,
    {
        Score {
            rank: self.rank,
            leaderboard_player_info: self.leaderboard_player_info.clone(),
            base_score: self.base_score,
            pp: self.pp,
            bad_cuts: self.bad_cuts,
            missed_notes: self.missed_notes,
        }
    }
}

impl Score {
    /// Total misses of one score row: bad cuts plus missed notes, widened so
    /// that the sum cannot overflow.
    pub fn total_misses(&self) -> (r: u64)
        ensures
            r == self.bad_cuts + self.missed_notes,
    {
        (self.bad_cuts as u64) + (self.missed_notes as u64)
    }
}

/// Copies a whole result list.  The copy has the same views in the same
/// order as the original.
pub fn clone_records(v: &Vec<MapRecord>) -> (r: Vec<MapRecord>)
    ensures
        recs(r@) == recs(v@),
{
    let r = v.clone();
    proof {
        assert(recs(r@) =~= recs(v@));
    }
    r
}

} // verus!
