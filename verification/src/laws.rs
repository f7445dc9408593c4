//! The general laws of the recommendation workflow, stated and proved
//! over the same spec functions the executable contracts use.

use vstd::prelude::*;

use crate::page::{spec_next_state, spec_recommended_song, PageState};
use crate::render::{spec_render_list, CardModel, DeployMode};
use crate::song::SongModel;

verus! {

/// Rendering is idempotent: two renders of the same store snapshot under
/// the same deployment mode yield the same cards, in structure and
/// content.
pub proof fn lemma_render_idempotent(
    mode: DeployMode,
    snapshot: Seq<SongModel>,
    first: Seq<CardModel>,
    second: Seq<CardModel>,
)
    requires
        first == spec_render_list(mode, snapshot),
        second == spec_render_list(mode, snapshot),
    ensures
        first == second,
{
}

/// The store contents after a sequence of accepted titles is handled, in
/// order: each title appends its recommended song record.
pub open spec fn spec_submit_all(init: Seq<SongModel>, titles: Seq<Seq<char>>) -> Seq<SongModel>
    decreases titles.len(),
{
    if titles.len() == 0 {
        init
    } else {
        spec_submit_all(init.push(spec_recommended_song(titles.first())), titles.drop_first())
    }
}

/// One more accepted title extends the fold by one appended record:
/// exactly the push that `Page::handle_recommend` ensures for one
/// submit, so a run of submits computes this fold step by step.
pub proof fn lemma_submit_all_step(init: Seq<SongModel>, titles: Seq<Seq<char>>, title: Seq<char>)
    ensures
        spec_submit_all(init, titles.push(title)) == spec_submit_all(init, titles).push(
            spec_recommended_song(title),
        ),
    decreases titles.len(),
{
    let extended = titles.push(title);
    if titles.len() == 0 {
        assert(extended.first() == title);
        assert(extended.drop_first() =~= Seq::<Seq<char>>::empty());
        assert(spec_submit_all(init, extended) == spec_submit_all(
            init.push(spec_recommended_song(title)),
            extended.drop_first(),
        ));
        assert(spec_submit_all(init, extended) == init.push(spec_recommended_song(title)));
        assert(spec_submit_all(init, titles) == init);
    } else {
        let grown = init.push(spec_recommended_song(titles.first()));
        assert(extended.first() == titles.first());
        assert(extended.drop_first() =~= titles.drop_first().push(title));
        lemma_submit_all_step(grown, titles.drop_first(), title);
        assert(spec_submit_all(init, extended) == spec_submit_all(grown, extended.drop_first()));
        assert(spec_submit_all(init, titles) == spec_submit_all(grown, titles.drop_first()));
    }
}

/// Append monotonicity: after any sequence of N accepted titles the
/// store holds its initial entries unchanged, followed by the N new
/// entries in submission order, so its length grew by exactly N.
pub proof fn lemma_append_monotonic(init: Seq<SongModel>, titles: Seq<Seq<char>>)
    ensures
        spec_submit_all(init, titles).len() == init.len() + titles.len(),
        forall|j: int| 0 <= j < init.len() ==> spec_submit_all(init, titles)[j] == init[j],
        forall|j: int| 0 <= j < titles.len() ==> spec_submit_all(init, titles)[init.len() + j]
            == spec_recommended_song(titles[j]),
    decreases titles.len(),
{
    if titles.len() == 0 {
    } else {
        let grown = init.push(spec_recommended_song(titles.first()));
        let rest = titles.drop_first();
        lemma_append_monotonic(grown, rest);
        let result = spec_submit_all(init, titles);
        assert forall|j: int| 0 <= j < init.len() implies result[j] == init[j] by {
            assert(result[j] == grown[j]);
        }
        assert forall|j: int| 0 <= j < titles.len() implies result[init.len() + j]
            == spec_recommended_song(titles[j]) by {
            if j == 0 {
                assert(result[init.len() as int] == grown[init.len() as int]);
            } else {
                assert(result[grown.len() + (j - 1)] == spec_recommended_song(rest[j - 1]));
            }
        }
    }
}

/// The `Faulted` state is absorbing: whatever a later render pass
/// reports, a page that has faulted stays faulted; no reset transition
/// exists.
pub proof fn lemma_fault_is_permanent(render_faulted: bool)
    ensures
        spec_next_state(PageState::Faulted, render_faulted) is Faulted,
{
}

/// A `Ready` page faults exactly when a render pass reports a fault.
pub proof fn lemma_ready_transition(render_faulted: bool)
    ensures
        spec_next_state(PageState::Ready, render_faulted) is Faulted <==> render_faulted,
{
}

} // verus!
