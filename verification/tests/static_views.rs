use music_dashboard::mock::{now_playing, recently_played};
use music_dashboard::render::{render_list, DeployMode};

#[test]
fn now_playing_is_the_fixed_mock_track() {
    let song = now_playing();
    assert_eq!(song.song_title, "Song Title");
    assert_eq!(song.artist_name, "Artist");
    assert_eq!(song.album_name, "Album");
    assert_eq!(song.album_cover_url, "/images/300.png");
}

#[test]
fn recently_played_holds_five_tracks_in_order() {
    let songs = recently_played();
    assert_eq!(songs.len(), 5);
    let names = ["One", "Two", "Three", "Four", "Five"];
    for (song, name) in songs.iter().zip(names) {
        assert_eq!(song.song_title, format!("Song {name}"));
        assert_eq!(song.artist_name, format!("Artist {name}"));
        assert_eq!(song.album_name, format!("Album {name}"));
        assert_eq!(song.album_cover_url, "/images/50.png");
    }
}

#[test]
fn recently_played_renders_like_any_snapshot() {
    let cards = render_list(DeployMode::SubPath, &recently_played());
    assert_eq!(cards.len(), 5);
    assert_eq!(cards[0].title, "Song One");
    assert_eq!(cards[0].byline, "Artist One - Album One");
    assert_eq!(cards[0].cover_src, "/leptos/images/50.png");
    assert_eq!(cards[4].title, "Song Five");
}
