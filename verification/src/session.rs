//! One form, the requests it has started, the mailbox between them and the
//! settings it has handed out, taken together: why at most one outcome is
//! ever awaited, and why the settings in effect are always the ones that
//! were loaded or saved.
//!
//! Nothing here runs. It is a model of how the pieces are used (every
//! event goes through [`Form::handle`](crate::form::Form::handle), every
//! request that was sent delivers one outcome, the form drains the mailbox
//! once per frame) and the proof of what follows from that use.

use crate::form::{prefilled_url, FormView, Phase, UiActionView, UiEvent};
use crate::settings::SettingsView;
use crate::outcome::OutcomeView;
use crate::request::filled;
use vstd::prelude::*;

verus! {

/// The form together with what is under way for it.
pub struct Session {
    /// The form.
    pub form: FormView,
    /// How many requests were sent and have not delivered their outcome yet.
    pub in_flight: nat,
    /// What waits in the mailbox.
    pub slot: Option<OutcomeView>,
    /// The settings that the session started from or, after a Save, those
    /// that were last handed out to be written.
    pub written: SettingsView,
}

/// What can happen to a session.
pub enum Happening {
    /// The user did something other than editing a field.
    Ui(UiEvent),
    /// The user edited input fields, among them those of the settings
    /// panel, which gave this form.
    Edited(FormView),
    /// A request that was in flight ended and delivered its outcome.
    Delivered(OutcomeView),
    /// A frame began and the form drained the mailbox.
    Frame,
}

impl Session {
    /// A session that begins with this form and nothing under way.
    pub open spec fn start(form: FormView) -> Session {
        Session { form, in_flight: 0, slot: None, written: form.settings() }
    }

    /// How many outcomes are still owed to the form: those of the requests
    /// in flight, and the one that waits in the mailbox.
    pub open spec fn outstanding(self) -> nat {
        self.in_flight + if self.slot is Some {
            1nat
        } else {
            0nat
        }
    }

    /// The form is loading exactly while one outcome is owed to it, and never
    /// more than one is.
    pub open spec fn orderly(self) -> bool {
        self.outstanding() == if self.form.loading {
            1nat
        } else {
            0nat
        }
    }

    /// The settings in effect are the ones that were loaded or last saved:
    /// nothing that was only typed is in effect.
    pub open spec fn in_step(self) -> bool {
        self.form.settings() == self.written
    }

    /// Whether a happening is possible: an outcome can only be delivered by a
    /// request that is in flight, and an edit leaves alone what the form
    /// shows, whether it is loading, whether the panel is open, and the
    /// settings in effect.
    pub open spec fn admits(self, happening: Happening) -> bool {
        match happening {
            Happening::Delivered(_) => self.in_flight > 0,
            Happening::Edited(form) => {
                &&& form.loading == self.form.loading
                &&& form.result == self.form.result
                &&& form.error == self.form.error
                &&& form.failed == self.form.failed
                &&& form.show_settings == self.form.show_settings
                &&& form.api_key == self.form.api_key
                &&& form.domain == self.form.domain
            },
            _ => true,
        }
    }

    /// The session after a happening.
    pub open spec fn next(self, happening: Happening) -> Session {
        match happening {
            Happening::Ui(event) => Session {
                form: self.form.after(event),
                in_flight: if self.form.action(event) is Send {
                    self.in_flight + 1
                } else {
                    self.in_flight
                },
                slot: self.slot,
                written: match self.form.action(event) {
                    UiActionView::Persist(settings) => settings,
                    _ => self.written,
                },
            },
            Happening::Edited(form) => Session { form, ..self },
            Happening::Delivered(outcome) => Session {
                in_flight: (self.in_flight - 1) as nat,
                slot: Some(outcome),
                ..self
            },
            Happening::Frame => match self.slot {
                Some(outcome) => Session {
                    form: self.form.recorded(outcome),
                    slot: None,
                    ..self
                },
                None => self,
            },
        }
    }
}

/// A session that begins with a new form is orderly, in step and idle,
/// whatever settings and clipboard text the form was made from; the settings
/// in effect are the loaded ones, or empty ones where none were loaded.
pub proof fn start_is_orderly(settings: Option<SettingsView>, clipboard: Option<Seq<char>>)
    ensures
        ({
            let form = FormView::initial(
                SettingsView::or_empty(settings),
                prefilled_url(clipboard),
            );
            &&& Session::start(form).orderly()
            &&& Session::start(form).in_step()
            &&& Session::start(form).written == SettingsView::or_empty(settings)
            &&& form.phase() == Phase::Idle
        }),
{
}

/// Whatever happens, an orderly session stays orderly: at most one outcome
/// is owed at any time, and the form is loading exactly while one is.
pub proof fn orderly_is_kept(session: Session, happening: Happening)
    requires
        session.orderly(),
        session.admits(happening),
    ensures
        session.next(happening).orderly(),
{
}

/// In an orderly session a delivery finds the mailbox empty, so no outcome
/// is ever replaced before the form has seen it; and a request is sent only
/// while none is owed.
pub proof fn nothing_is_overwritten(session: Session, happening: Happening)
    requires
        session.orderly(),
        session.admits(happening),
    ensures
        happening is Delivered ==> session.slot is None,
        happening is Ui && session.form.action(happening->Ui_0) is Send ==> session.outstanding()
            == 0,
{
}

/// Whatever happens in a session, the settings in effect change only when
/// the user presses Save: not by typing, not by Cancel, not by a submission
/// or its outcome.
pub proof fn settings_outlive_all_but_save(session: Session, happening: Happening)
    requires
        session.admits(happening),
        happening != Happening::Ui(UiEvent::SaveSettings),
    ensures
        session.next(happening).form.settings() == session.form.settings(),
        session.next(happening).written == session.written,
{
}

/// Whatever happens, a session that is in step stays in step: the settings
/// that requests are made from are at all times the ones that the session
/// started from or that Save last handed out to be written.
pub proof fn in_step_is_kept(session: Session, happening: Happening)
    requires
        session.in_step(),
        session.admits(happening),
    ensures
        session.next(happening).in_step(),
        happening is Ui && session.form.action(happening->Ui_0) is Send ==> {
            &&& session.form.dispatch().authorization == session.written.api_key
            &&& session.form.dispatch().request.domain == filled(session.written.domain)
        },
{
}

/// In an orderly session the phase changes in two ways only: a valid
/// submission takes a form that awaits nothing to `Submitting`, and the
/// frame that finds the outcome takes it from `Submitting` to `Success` or
/// to `Failed`. A refused submission, typing, and the settings panel leave
/// the phase alone.
pub proof fn phase_moves_with_submissions_only(session: Session, happening: Happening)
    requires
        session.orderly(),
        session.admits(happening),
        session.next(happening).form.phase() != session.form.phase(),
    ensures
        session.next(happening).form.phase() == Phase::Submitting ==> {
            &&& happening == Happening::Ui(UiEvent::Submit)
            &&& session.form.missing() is None
            &&& session.outstanding() == 0
        },
        session.next(happening).form.phase() != Phase::Submitting ==> {
            &&& happening is Frame
            &&& session.form.phase() == Phase::Submitting
            &&& session.next(happening).form.phase() != Phase::Idle
        },
{
}

} // verus!
