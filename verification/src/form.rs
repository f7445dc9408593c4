//! The recommendation form: collects one line of free text and converts
//! it into a recommend event.
//!
//! The form is decoupled from the store: `submit` hands the accepted
//! title back to the caller, which forwards it to whatever consumer it
//! wires in. At submit time the form reads the live control value passed
//! in by the host, not its own bound draft, so a draft that lags behind
//! the control within one event tick cannot leak a stale title.

use vstd::prelude::*;

use crate::text::is_blank;

verus! {

/// Form state: the single draft title, bound bidirectionally to the
/// input control. Its model is the draft's character sequence.
pub struct RecommendationForm {
    draft_title: String,
}

impl View for RecommendationForm {
    type V = Seq<char>;

    closed spec fn view(&self) -> Seq<char> {
        self.draft_title@
    }
}

impl RecommendationForm {
    /// A fresh form with an empty draft.
    pub fn new() -> (form: RecommendationForm)
        ensures
            form@ == Seq::<char>::empty(),
    {
        RecommendationForm { draft_title: String::new() }
    }

    /// The bidirectional binding: the host calls this whenever the input
    /// control's value changes.
    pub fn set_draft(&mut self, text: String)
        ensures
            final(self)@ == text@,
    {
        self.draft_title = text;
    }

    /// The current draft value.
    pub fn draft(&self) -> (text: &String)
        ensures
            text@ == self@,
    {
        &self.draft_title
    }

    /// Handles a form-submit event. `control_value` is the input
    /// control's live value, or `None` when the control is not mounted;
    /// an unmounted control makes the submit a no-op rather than a fault.
    /// A blank value (empty or whitespace only) is rejected silently:
    /// no event is emitted and the draft keeps its value. A valid value
    /// is returned as the recommend event and the draft is reset to the
    /// empty string.
    pub fn submit(&mut self, control_value: Option<&String>) -> (event: Option<String>)
        ensures
            control_value is None ==> event is None && final(self)@ == old(self)@,
            control_value matches Some(v) ==> (if is_blank(v@) {
                event is None && final(self)@ == old(self)@
            } else {
                (event matches Some(title) && title@ == v@) && final(self)@
                    == Seq::<char>::empty()
            }),
    {
        match control_value {
            None => None,
            Some(value) => {
                if crate::text::title_is_valid(value) {
                    let title = value.clone();
                    self.draft_title = String::new();
                    Some(title)
                } else {
                    None
                }
            },
        }
    }
}

} // verus!
