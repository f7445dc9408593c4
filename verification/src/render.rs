//! The recommendation list view: renders a store snapshot as an ordered
//! list of cards (cover image, title, "artist - album" line).
//!
//! Rendering is a pure function of the snapshot and the deployment mode,
//! so it is idempotent by construction; it takes the snapshot by shared
//! reference and cannot mutate the store.

use vstd::prelude::*;

use crate::song::{Song, SongModel};
use crate::store::song_models;

verus! {

/// Build-time deployment switch for image URLs: under `SubPath` the app
/// is mounted under a sub-path and every asset URL is prefixed with that
/// mount segment; under `Root` the URL is used bare.
#[derive(Clone, Copy, Debug, PartialEq, Eq, Structural)]
pub enum DeployMode {
    SubPath,
    Root,
}

/// The mount segment put in front of asset URLs in `SubPath` mode.
pub open spec fn spec_mount_prefix(mode: DeployMode) -> Seq<char> {
    match mode {
        DeployMode::SubPath => "/leptos"@,
        DeployMode::Root => Seq::<char>::empty(),
    }
}

/// Resolves an asset URL against the deployment mode: a pure
/// string-prefixing decision.
pub fn resolve_asset_url(mode: DeployMode, url: &String) -> (resolved: String)
    ensures
        resolved@ == spec_mount_prefix(mode) + url@,
{
    match mode {
        DeployMode::SubPath => {
            let mut resolved = String::from_str("/leptos");
            resolved.append(url.as_str());
            resolved
        },
        DeployMode::Root => {
            let resolved = url.clone();
            proof {
                assert(resolved@ =~= Seq::<char>::empty() + url@);
            }
            resolved
        },
    }
}

/// Model of one rendered card.
#[verifier::ext_equal]
pub ghost struct CardModel {
    pub cover_src: Seq<char>,
    pub title: Seq<char>,
    pub byline: Seq<char>,
}

/// One card of the rendered list: the resolved cover image source, the
/// song title, and the "artist - album" line.
#[derive(Debug, PartialEq)]
pub struct Card {
    pub cover_src: String,
    pub title: String,
    pub byline: String,
}

impl View for Card {
    type V = CardModel;

    open spec fn view(&self) -> CardModel {
        CardModel { cover_src: self.cover_src@, title: self.title@, byline: self.byline@ }
    }
}

/// The model of a list of rendered cards.
pub open spec fn card_models(cards: Seq<Card>) -> Seq<CardModel> {
    cards.map_values(|c: Card| c@)
}

/// The byline under a card's title.
pub open spec fn spec_byline(artist: Seq<char>, album: Seq<char>) -> Seq<char> {
    artist + " - "@ + album
}

/// What one song renders to under a given deployment mode.
pub open spec fn spec_card(mode: DeployMode, song: SongModel) -> CardModel {
    CardModel {
        cover_src: spec_mount_prefix(mode) + song.cover,
        title: song.title,
        byline: spec_byline(song.artist, song.album),
    }
}

/// What a whole snapshot renders to: one card per song, in store order.
pub open spec fn spec_render_list(mode: DeployMode, snapshot: Seq<SongModel>) -> Seq<CardModel> {
    snapshot.map_values(|song: SongModel| spec_card(mode, song))
}

/// Renders one song record to a card.
pub fn render_card(mode: DeployMode, song: &Song) -> (card: Card)
    ensures
        card@ == spec_card(mode, song@),
{
    let cover_src = resolve_asset_url(mode, &song.album_cover_url);
    let title = song.song_title.clone();
    let mut byline = song.artist_name.clone();
    byline.append(" - ");
    byline.append(song.album_name.as_str());
    Card { cover_src, title, byline }
}

/// Renders a full store snapshot. Purely reactive: the host re-runs this
/// whenever the store changes; the same snapshot always yields the same
/// cards, and an empty snapshot yields an empty list (the surrounding
/// heading is the host's static chrome).
pub fn render_list(mode: DeployMode, snapshot: &Vec<Song>) -> (cards: Vec<Card>)
    ensures
        card_models(cards@) == spec_render_list(mode, song_models(snapshot@)),
{
    let mut cards: Vec<Card> = Vec::new();
    let n = snapshot.len();
    let mut i: usize = 0;
    while i < n
        invariant
            n == snapshot@.len(),
            i <= n,
            cards@.len() == i,
            forall|j: int| 0 <= j < i ==> #[trigger] cards@[j]@ == spec_card(
                mode,
                snapshot@[j]@,
            ),
        decreases n - i,
    {
        let card = render_card(mode, &snapshot[i]);
        cards.push(card);
        i += 1;
    }
    proof {
        assert(card_models(cards@) =~= spec_render_list(mode, song_models(snapshot@)));
    }
    cards
}

} // verus!
