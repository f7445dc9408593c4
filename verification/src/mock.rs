//! The hard-coded data behind the static views: the "now playing" card
//! and the recently-played scroller. No enrichment or lookup against a
//! real catalog exists; these are fixed values.

use vstd::prelude::*;

use crate::song::{Song, SongModel};
use crate::store::song_models;

verus! {

/// The track the "now playing" card shows.
pub open spec fn spec_now_playing() -> SongModel {
    SongModel {
        title: "Song Title"@,
        artist: "Artist"@,
        album: "Album"@,
        cover: "/images/300.png"@,
    }
}

/// The five tracks of the recently-played scroller, in display order.
pub open spec fn spec_recently_played() -> Seq<SongModel> {
    seq![
        SongModel {
            title: "Song One"@,
            artist: "Artist One"@,
            album: "Album One"@,
            cover: "/images/50.png"@,
        },
        SongModel {
            title: "Song Two"@,
            artist: "Artist Two"@,
            album: "Album Two"@,
            cover: "/images/50.png"@,
        },
        SongModel {
            title: "Song Three"@,
            artist: "Artist Three"@,
            album: "Album Three"@,
            cover: "/images/50.png"@,
        },
        SongModel {
            title: "Song Four"@,
            artist: "Artist Four"@,
            album: "Album Four"@,
            cover: "/images/50.png"@,
        },
        SongModel {
            title: "Song Five"@,
            artist: "Artist Five"@,
            album: "Album Five"@,
            cover: "/images/50.png"@,
        },
    ]
}

/// Builds the "now playing" track.
pub fn now_playing() -> (song: Song)
    ensures
        song@ == spec_now_playing(),
{
    Song::new(
        String::from_str("Song Title"),
        String::from_str("Artist"),
        String::from_str("Album"),
        String::from_str("/images/300.png"),
    )
}

/// Builds the recently-played list.
pub fn recently_played() -> (songs: Vec<Song>)
    ensures
        song_models(songs@) == spec_recently_played(),
{
    let mut songs: Vec<Song> = Vec::new();
    songs.push(Song::new(
        String::from_str("Song One"),
        String::from_str("Artist One"),
        String::from_str("Album One"),
        String::from_str("/images/50.png"),
    ));
    songs.push(Song::new(
        String::from_str("Song Two"),
        String::from_str("Artist Two"),
        String::from_str("Album Two"),
        String::from_str("/images/50.png"),
    ));
    songs.push(Song::new(
        String::from_str("Song Three"),
        String::from_str("Artist Three"),
        String::from_str("Album Three"),
        String::from_str("/images/50.png"),
    ));
    songs.push(Song::new(
        String::from_str("Song Four"),
        String::from_str("Artist Four"),
        String::from_str("Album Four"),
        String::from_str("/images/50.png"),
    ));
    songs.push(Song::new(
        String::from_str("Song Five"),
        String::from_str("Artist Five"),
        String::from_str("Album Five"),
        String::from_str("/images/50.png"),
    ));
    proof {
        assert(song_models(songs@) =~= spec_recently_played());
    }
    songs
}

} // verus!
