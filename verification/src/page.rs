//! Page composition: owns the recommendation store and the form, wires
//! the single mutation path (the recommend handler), and models the
//! error boundary around the page's view tree.
//!
//! The host runtime owns the event loop and the real view tree; it calls
//! into this type on each discrete UI event (mount, draft edit, form
//! submit, a caught render fault) and renders whatever `current_view`
//! returns. The page is the only writer of the store: descendants reach
//! the store through shared references only.

use vstd::prelude::*;

use crate::form::RecommendationForm;
use crate::render::{
    card_models, spec_render_list, Card, DeployMode, render_list,
};
use crate::song::{Song, SongModel};
use crate::store::{song_models, RecommendationStore};
use crate::text::is_blank;

verus! {

/// The page is `Ready` (normal rendering) until a render fault is
/// observed, then `Faulted` (boundary fallback shown). The transition is
/// one-way: no retry or reset operation exists.
#[derive(Clone, Copy, Debug, PartialEq, Eq, Structural)]
pub enum PageState {
    Ready,
    Faulted,
}

/// The page-state transition: a render fault moves `Ready` to `Faulted`,
/// and `Faulted` is never left.
pub open spec fn spec_next_state(state: PageState, render_faulted: bool) -> PageState {
    if state is Faulted || render_faulted {
        PageState::Faulted
    } else {
        PageState::Ready
    }
}

/// The song record built for a recommended title: placeholder artist,
/// album and cover values; no catalog lookup exists in current scope.
pub open spec fn spec_recommended_song(title: Seq<char>) -> SongModel {
    SongModel {
        title: title,
        artist: "New Artist"@,
        album: "New Album"@,
        cover: "/images/50.png"@,
    }
}

/// The two mock entries the store is seeded with on mount.
pub open spec fn spec_initial_songs() -> Seq<SongModel> {
    seq![
        SongModel {
            title: "Mock Song One"@,
            artist: "Mock Artist One"@,
            album: "Mock Album One"@,
            cover: "/images/50.png"@,
        },
        SongModel {
            title: "Mock Song Two"@,
            artist: "Mock Artist Two"@,
            album: "Mock Album Two"@,
            cover: "/images/50.png"@,
        },
    ]
}

/// The heading of the boundary fallback.
pub open spec fn spec_fallback_heading() -> Seq<char> {
    "Uh oh! Something went wrong!"@
}

/// Mathematical model of the whole page.
#[verifier::ext_equal]
pub ghost struct PageModel {
    /// The store's snapshot.
    pub songs: Seq<SongModel>,
    /// The form's bound draft title.
    pub draft: Seq<char>,
    /// Ready or Faulted.
    pub state: PageState,
    /// The error messages caught by the boundary, empty while Ready.
    pub faults: Seq<Seq<char>>,
}

/// What the page shows: the normal content (the rendered recommendation
/// list) while `Ready`, or the boundary fallback once `Faulted`.
pub enum PageView {
    Content { cards: Vec<Card> },
    Fallback { heading: String, errors: Vec<String> },
}

/// The page component: the store, the form, and the boundary state.
pub struct Page {
    store: RecommendationStore,
    form: RecommendationForm,
    state: PageState,
    fault_messages: Vec<String>,
}

impl View for Page {
    type V = PageModel;

    closed spec fn view(&self) -> PageModel {
        PageModel {
            songs: self.store@,
            draft: self.form@,
            state: self.state,
            faults: self.fault_messages.deep_view(),
        }
    }
}

impl Page {
    /// Mounts the page: a store seeded with the two mock songs, an empty
    /// draft, and a `Ready` boundary.
    pub fn mount() -> (page: Page)
        ensures
            page@.songs == spec_initial_songs(),
            page@.draft == Seq::<char>::empty(),
            page@.state is Ready,
            page@.faults == Seq::<Seq<char>>::empty(),
    {
        let mut store = RecommendationStore::new();
        store.append(Song::new(
            String::from_str("Mock Song One"),
            String::from_str("Mock Artist One"),
            String::from_str("Mock Album One"),
            String::from_str("/images/50.png"),
        ));
        store.append(Song::new(
            String::from_str("Mock Song Two"),
            String::from_str("Mock Artist Two"),
            String::from_str("Mock Album Two"),
            String::from_str("/images/50.png"),
        ));
        let page = Page {
            store,
            form: RecommendationForm::new(),
            state: PageState::Ready,
            fault_messages: Vec::new(),
        };
        proof {
            assert(page@.songs =~= spec_initial_songs());
            assert(page@.faults =~= Seq::<Seq<char>>::empty());
        }
        page
    }

    /// The bidirectional input binding, forwarded to the form.
    pub fn set_draft(&mut self, text: String)
        ensures
            final(self)@.draft == text@,
            final(self)@.songs == old(self)@.songs,
            final(self)@.state == old(self)@.state,
            final(self)@.faults == old(self)@.faults,
    {
        self.form.set_draft(text);
    }

    /// The form's current draft value.
    pub fn draft(&self) -> (text: &String)
        ensures
            text@ == self@.draft,
    {
        self.form.draft()
    }

    /// The current boundary state.
    pub fn state(&self) -> (state: PageState)
        ensures
            state == self@.state,
    {
        self.state
    }

    /// Read access to the store's snapshot, as handed to descendants: a
    /// shared reference, through which no mutation is possible.
    pub fn recommendations(&self) -> (snapshot: &Vec<Song>)
        ensures
            song_models(snapshot@) == self@.songs,
    {
        self.store.read()
    }

    /// Number of entries in the backlog.
    pub fn recommendation_count(&self) -> (n: usize)
        ensures
            n == self@.songs.len(),
    {
        self.store.len()
    }

    /// The single mutation path: builds the song record for `title` with
    /// the placeholder fields and appends it to the store. Every
    /// successful submit funnels here; nothing else writes the store.
    pub fn handle_recommend(&mut self, title: String)
        ensures
            final(self)@.songs == old(self)@.songs.push(spec_recommended_song(title@)),
            final(self)@.draft == old(self)@.draft,
            final(self)@.state == old(self)@.state,
            final(self)@.faults == old(self)@.faults,
    {
        let song = Song::new(
            title,
            String::from_str("New Artist"),
            String::from_str("New Album"),
            String::from_str("/images/50.png"),
        );
        self.store.append(song);
    }

    /// A form-submit event: the form validates the control's live value
    /// and, when it is accepted, the recommend handler appends the new
    /// song and the draft is left empty. A missing control or a blank
    /// value changes nothing.
    pub fn submit(&mut self, control_value: Option<&String>) -> (accepted: bool)
        ensures
            final(self)@.state == old(self)@.state,
            final(self)@.faults == old(self)@.faults,
            control_value is None ==> !accepted && final(self)@.songs == old(self)@.songs
                && final(self)@.draft == old(self)@.draft,
            control_value matches Some(v) ==> (if is_blank(v@) {
                !accepted && final(self)@.songs == old(self)@.songs && final(self)@.draft
                    == old(self)@.draft
            } else {
                accepted && final(self)@.songs == old(self)@.songs.push(
                    spec_recommended_song(v@),
                ) && final(self)@.draft == Seq::<char>::empty()
            }),
    {
        let event = self.form.submit(control_value);
        match event {
            Some(title) => {
                self.handle_recommend(title);
                true
            },
            None => false,
        }
    }

    /// The error boundary's decision on one render pass: the host hands
    /// back `Ok` when the whole tree rendered, or the caught error
    /// messages when a descendant view raised. A fault is recorded and
    /// the state moves (one-way) to `Faulted`; the fault never
    /// propagates further than this page.
    pub fn apply_render_outcome(&mut self, outcome: Result<(), Vec<String>>)
        ensures
            final(self)@.state == spec_next_state(old(self)@.state, outcome is Err),
            outcome matches Err(errors) ==> final(self)@.faults == errors.deep_view(),
            outcome is Ok ==> final(self)@.faults == old(self)@.faults,
            final(self)@.songs == old(self)@.songs,
            final(self)@.draft == old(self)@.draft,
    {
        match outcome {
            Ok(()) => {},
            Err(errors) => {
                self.state = PageState::Faulted;
                self.fault_messages = errors;
            },
        }
    }

    /// What the page shows now: the rendered recommendation list while
    /// `Ready`, or the boundary fallback (heading plus the caught error
    /// messages) once `Faulted`.
    pub fn current_view(&self, mode: DeployMode) -> (view: PageView)
        ensures
            self@.state is Ready ==> (view matches PageView::Content { cards }
                && card_models(cards@) == spec_render_list(mode, self@.songs)),
            self@.state is Faulted ==> (view matches PageView::Fallback { heading, errors }
                && heading@ == spec_fallback_heading() && errors.deep_view() == self@.faults),
    {
        match self.state {
            PageState::Ready => {
                let cards = render_list(mode, self.store.read());
                PageView::Content { cards }
            },
            PageState::Faulted => {
                PageView::Fallback {
                    heading: String::from_str("Uh oh! Something went wrong!"),
                    errors: self.fault_messages.clone(),
                }
            },
        }
    }
}

} // verus!
