//! Keeping one message per chat as the bot's screen: edit it in place when
//! there is one, and send a fresh message when there is none or the edit
//! failed. The platform calls themselves are made by the caller, which hands
//! each answer back.

use vstd::prelude::*;
use crate::document::{Document, MessageRef};

verus! {

/// The next call to make to bring a screen up.
#[derive(Clone, Copy, PartialEq, Eq, Structural, Debug)]
pub enum DisplayStep {
    /// Edit this message in place.
    Edit(MessageRef),
    /// Send a new message.
    Send,
}

/// The platform's answer to an edit.
#[derive(Clone, Copy, PartialEq, Eq, Structural, Debug)]
pub enum EditOutcome {
    /// The edit went through; the message may have a new reference.
    Edited(MessageRef),
    /// The message already showed exactly this content: a success.
    Unchanged,
    /// Any other failure: the message is gone or unreachable.
    Failed,
}

pub open spec fn first_step(active: Option<MessageRef>) -> DisplayStep {
    match active {
        Some(m) => DisplayStep::Edit(m),
        None => DisplayStep::Send,
    }
}

/// The screen's reference once an edit was answered with `outcome`.
pub open spec fn after_edit(active: Option<MessageRef>, outcome: EditOutcome) -> Option<
    MessageRef,
> {
    match outcome {
        EditOutcome::Edited(m) => Some(m),
        _ => active,
    }
}

/// Whether a new message must be sent: there was no screen, or its edit failed.
pub open spec fn sends_new(active: Option<MessageRef>, edit: EditOutcome) -> bool {
    active is None || edit is Failed
}

/// The screen's reference after one reconciliation, given the platform's
/// answer to the edit (when one is made) and the message that a send creates
/// (when one is needed).
pub open spec fn reconciled(
    active: Option<MessageRef>,
    edit: EditOutcome,
    sent: MessageRef,
) -> Option<MessageRef> {
    if sends_new(active, edit) {
        Some(sent)
    } else {
        after_edit(active, edit)
    }
}

/// Showing the same screen twice: after the first reconciliation there is a
/// screen; the second edits it, the platform finds its content unchanged, no
/// message is sent and the reference stays as it was.
pub proof fn lemma_reconcile_idempotent(
    active: Option<MessageRef>,
    first_edit: EditOutcome,
    first_sent: MessageRef,
    second_sent: MessageRef,
)
    ensures
        ({
            let h = reconciled(active, first_edit, first_sent);
            &&& h is Some
            &&& first_step(h) == DisplayStep::Edit(h->0)
            &&& !sends_new(h, EditOutcome::Unchanged)
            &&& reconciled(h, EditOutcome::Unchanged, second_sent) == h
        }),
{
}

impl Document {
    /// Edit the current screen if there is one, else send a new message.
    pub fn display_step(&self) -> (r: DisplayStep)
        ensures
            r == first_step(self.active_message),
    {
        match self.active_message {
            Some(m) => DisplayStep::Edit(m),
            None => DisplayStep::Send,
        }
    }

    /// Takes in the platform's answer to an edit; `true` when a new message
    /// must now be sent.
    pub fn record_edit(&mut self, outcome: EditOutcome) -> (send: bool)
        ensures
            send == (outcome is Failed),
            final(self)@ == old(self)@.with_active(after_edit(old(self).active_message, outcome)),
    {
        match outcome {
            EditOutcome::Edited(m) => {
                self.active_message = Some(m);
                false
            },
            EditOutcome::Unchanged => false,
            EditOutcome::Failed => true,
        }
    }

    /// Takes in the message that a send created: it is the screen now.
    pub fn record_sent(&mut self, m: MessageRef)
        ensures
            final(self)@ == old(self)@.with_active(Some(m)),
    {
        self.active_message = Some(m);
    }
}

}
