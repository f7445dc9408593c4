//! The song record: an immutable value describing one track.

use vstd::prelude::*;

verus! {

/// Mathematical model of a song record: its four fields as character
/// sequences.
#[verifier::ext_equal]
pub ghost struct SongModel {
    pub title: Seq<char>,
    pub artist: Seq<char>,
    pub album: Seq<char>,
    pub cover: Seq<char>,
}

/// One track. A song is never mutated after construction; "updating" a
/// list of songs means replacing the list.
#[derive(Debug)]
pub struct Song {
    pub song_title: String,
    pub artist_name: String,
    pub album_name: String,
    pub album_cover_url: String,
}

impl View for Song {
    type V = SongModel;

    open spec fn view(&self) -> SongModel {
        SongModel {
            title: self.song_title@,
            artist: self.artist_name@,
            album: self.album_name@,
            cover: self.album_cover_url@,
        }
    }
}

impl Song {
    pub fn new(
        song_title: String,
        artist_name: String,
        album_name: String,
        album_cover_url: String,
    ) -> (song: Song)
        ensures
            song@ == (SongModel {
                title: song_title@,
                artist: artist_name@,
                album: album_name@,
                cover: album_cover_url@,
            }),
    {
        Song { song_title, artist_name, album_name, album_cover_url }
    }
}

impl Clone for Song {
    fn clone(&self) -> (other: Song)
        ensures
            other@ == self@,
    {
        Song {
            song_title: self.song_title.clone(),
            artist_name: self.artist_name.clone(),
            album_name: self.album_name.clone(),
            album_cover_url: self.album_cover_url.clone(),
        }
    }
}

} // verus!
