//! The recommendation store: single source of truth for the backlog of
//! recommended songs, shared between the form (writer-trigger) and the
//! list view (reader).

use vstd::prelude::*;

use crate::song::{Song, SongModel};

verus! {

/// The model of a list of song records.
pub open spec fn song_models(songs: Seq<Song>) -> Seq<SongModel> {
    songs.map_values(|s: Song| s@)
}

/// Ordered list of recommended songs, insertion order preserved. The
/// backing list is private: the only mutation this type exposes is
/// `append`, so every writer goes through it.
pub struct RecommendationStore {
    songs: Vec<Song>,
}

impl View for RecommendationStore {
    type V = Seq<SongModel>;

    closed spec fn view(&self) -> Seq<SongModel> {
        song_models(self.songs@)
    }
}

impl RecommendationStore {
    /// An empty backlog.
    pub fn new() -> (store: RecommendationStore)
        ensures
            store@ == Seq::<SongModel>::empty(),
    {
        let store = RecommendationStore { songs: Vec::new() };
        proof {
            assert(store@ =~= Seq::<SongModel>::empty());
        }
        store
    }

    /// Adds one entry at the end. Duplicate titles are permitted; there is
    /// no deletion or reordering operation.
    pub fn append(&mut self, song: Song)
        ensures
            final(self)@ == old(self)@.push(song@),
    {
        let ghost before = self.songs@;
        self.songs.push(song);
        proof {
            assert(self@ =~= old(self)@.push(song@));
        }
    }

    /// Number of entries.
    pub fn len(&self) -> (n: usize)
        ensures
            n == self@.len(),
    {
        self.songs.len()
    }

    /// Read access to the current snapshot. Reading never blocks and
    /// reflects the latest completed append; the reference is shared, so
    /// a reader cannot mutate the store through it.
    pub fn read(&self) -> (snapshot: &Vec<Song>)
        ensures
            song_models(snapshot@) == self@,
    {
        &self.songs
    }
}

} // verus!
