use vstd::prelude::*;

verus! {

/// What a slot holding `s` holds after showing `text`: the new text, and
/// nothing else.
pub open spec fn show_step(s: Option<String>, text: String) -> Option<String> {
    Some(text)
}

/// What a slot holding `s` holds after showing each of `texts` in order.
pub open spec fn after_shows(s: Option<String>, texts: Seq<String>) -> Option<String>
    decreases texts.len(),
{
    if texts.len() == 0 {
        s
    } else {
        show_step(after_shows(s, texts.drop_last()), texts.last())
    }
}

/// The single transient-notification slot of the overlay.
///
/// It holds at most one notification. Showing a new one takes the old one out
/// and hands it back to be destroyed before the new one is installed.
pub struct NotificationSlot {
    current: Option<String>,
}

impl NotificationSlot {
    /// The text of the notification on display, if any.
    pub closed spec fn shown(&self) -> Option<String> {
        self.current
    }

    /// An empty slot.
    pub fn new() -> (r: Self)
        ensures
            r.shown() is None,
    {
        NotificationSlot { current: None }
    }

    /// The text of the notification on display, if any.
    pub fn text(&self) -> (r: Option<String>)
        ensures
            r == self.shown(),
    {
        match &self.current {
            Some(t) => Some(t.clone()),
            None => None,
        }
    }

    /// Replaces the notification on display with one showing `text`, and
    /// returns the one it displaced.
    pub fn show(&mut self, text: String) -> (displaced: Option<String>)
        ensures
            final(self).shown() == show_step(old(self).shown(), text),
            displaced == old(self).shown(),
    {
        let displaced = self.current.take();
        self.current = Some(text);
        displaced
    }
}

/// After any non-empty run of `show` calls the slot holds exactly one
/// notification, and it is the one of the most recent call.
pub proof fn lemma_slot_keeps_latest(s: Option<String>, texts: Seq<String>)
    requires
        texts.len() > 0,
    ensures
        after_shows(s, texts) == Some(texts.last()),
{
}

/// A run of `show` calls that is empty leaves the slot as it was.
pub proof fn lemma_slot_unchanged_without_show(s: Option<String>, texts: Seq<String>)
    requires
        texts.len() == 0,
    ensures
        after_shows(s, texts) == s,
{
}

} // verus!
