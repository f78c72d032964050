//! The form: what the user has entered, what is shown, and what each user
//! action does to it.

use crate::outcome::{
    error_message, validation_message, LinkResult, LinkResultView, Outcome, OutcomeSlot,
    OutcomeView, ValidationError,
};
use crate::request::{
    endpoint, endpoint_text, filled, fixed_tags, non_empty, only_if_set, tag_list, ticked,
    Dispatch, DispatchView, LinkRequest, LinkRequestView, RedirectType,
};
use crate::settings::{Settings, SettingsView};
use crate::bridge::{outcome_after_link, step_after_send, StepView};
use crate::status::is_success_code;
use crate::text::{decimal_i32, parse_i32, starts_with};
use vstd::prelude::*;
use vstd::string::*;

verus! {

/// Where a form stands between submissions. Only a submission that was
/// sent moves a form from one phase to another: a refused one starts
/// nothing, so the form stays in the phase it was in, whatever message it
/// then shows. A new submission is taken up in every phase but
/// `Submitting`; from `Success` and `Failed` it is what ends them.
#[derive(Clone, Copy, Debug, PartialEq, Eq)]
pub enum Phase {
    /// Nothing is in flight, and no submission that was sent has ended since
    /// the form was made.
    Idle,
    /// A request is in flight.
    Submitting,
    /// Nothing is in flight, and the last submission that was sent ended in
    /// the link that is shown.
    Success,
    /// Nothing is in flight, and the last submission that was sent ended in
    /// an error.
    Failed,
}

/// Something the user did to the form, other than editing a field.
#[derive(Clone, Copy, Debug, PartialEq, Eq)]
pub enum UiEvent {
    /// Asked for the short link, by the button or the Enter key.
    Submit,
    /// Opened the settings panel.
    OpenSettings,
    /// Pressed Save in the settings panel.
    SaveSettings,
    /// Pressed Cancel in the settings panel.
    CancelSettings,
    /// Asked for the short address to be copied.
    CopyShortUrl,
    /// Pressed Escape.
    Escape,
}

/// What the caller has to do after an event.
#[derive(Clone, Debug, PartialEq, Eq)]
pub enum UiAction {
    /// Nothing.
    Nothing,
    /// Perform this POST off the user-interface thread, deliver its outcome
    /// to the mailbox, then ask for a redraw.
    Send(Dispatch),
    /// Write these settings to the settings file.
    Persist(Settings),
    /// Put this text on the clipboard.
    CopyText(String),
    /// Close the window.
    Close,
}

/// [`UiAction`] as plain text and numbers.
pub enum UiActionView {
    Nothing,
    Send(DispatchView),
    Persist(SettingsView),
    CopyText(Seq<char>),
    Close,
}

impl View for UiAction {
    type V = UiActionView;

    open spec fn view(&self) -> UiActionView {
        match self {
            UiAction::Nothing => UiActionView::Nothing,
            UiAction::Send(dispatch) => UiActionView::Send(dispatch@),
            UiAction::Persist(settings) => UiActionView::Persist(settings@),
            UiAction::CopyText(text) => UiActionView::CopyText(text@),
            UiAction::Close => UiActionView::Close,
        }
    }
}

/// The state of the form.
///
/// `api_key` and `domain` are the settings in effect: every request is made
/// from them, and only Save in the settings panel changes them. What the
/// user types into the panel goes to `draft_api_key` and `draft_domain`. The
/// drafts and the other input fields are the user's to edit at any time;
/// `result`, `error`, `failed` and `loading` are where the methods report
/// what became of a submission.
#[derive(Clone, Debug, PartialEq, Eq)]
pub struct Form {
    /// The API key in effect.
    pub api_key: String,
    /// The default domain in effect; empty where none is set.
    pub domain: String,
    /// The API key as typed into the settings panel.
    pub draft_api_key: String,
    /// The domain as typed into the settings panel.
    pub draft_domain: String,
    pub original_url: String,
    pub custom_path: String,
    pub cloaking: bool,
    pub password: String,
    pub password_contact: bool,
    pub clicks_limit: String,
    pub redirect_type: RedirectType,
    /// The link that the last submission ended in, while it is shown.
    pub result: Option<LinkResult>,
    /// The message that is shown: that of a refusal, or of the error that a
    /// submission ended in.
    pub error: Option<String>,
    /// Whether the last submission that was sent ended in an error.
    pub failed: bool,
    /// Whether a request is in flight.
    pub loading: bool,
    /// Whether the settings panel is open.
    pub show_settings: bool,
}

/// [`Form`] as plain text.
pub struct FormView {
    pub api_key: Seq<char>,
    pub domain: Seq<char>,
    pub draft_api_key: Seq<char>,
    pub draft_domain: Seq<char>,
    pub original_url: Seq<char>,
    pub custom_path: Seq<char>,
    pub cloaking: bool,
    pub password: Seq<char>,
    pub password_contact: bool,
    pub clicks_limit: Seq<char>,
    pub redirect_type: RedirectType,
    pub result: Option<LinkResultView>,
    pub error: Option<Seq<char>>,
    pub failed: bool,
    pub loading: bool,
    pub show_settings: bool,
}

/// The view of an optional link.
pub open spec fn link_view(link: Option<LinkResult>) -> Option<LinkResultView> {
    match link {
        Some(l) => Some(l@),
        None => None,
    }
}

impl View for Form {
    type V = FormView;

    open spec fn view(&self) -> FormView {
        FormView {
            api_key: self.api_key@,
            domain: self.domain@,
            draft_api_key: self.draft_api_key@,
            draft_domain: self.draft_domain@,
            original_url: self.original_url@,
            custom_path: self.custom_path@,
            cloaking: self.cloaking,
            password: self.password@,
            password_contact: self.password_contact,
            clicks_limit: self.clicks_limit@,
            redirect_type: self.redirect_type,
            result: link_view(self.result),
            error: self.error.deep_view(),
            failed: self.failed,
            loading: self.loading,
            show_settings: self.show_settings,
        }
    }
}

/// Whether a text looks like a web address: it begins with `http://` or
/// `https://`.
pub open spec fn looks_like_url(text: Seq<char>) -> bool {
    "http://"@.is_prefix_of(text) || "https://"@.is_prefix_of(text)
}

/// What the address field starts with, given the clipboard's text if it has
/// any: that text where it looks like a web address, else nothing.
pub open spec fn prefilled_url(clipboard: Option<Seq<char>>) -> Seq<char> {
    match clipboard {
        Some(text) => if looks_like_url(text) {
            text
        } else {
            Seq::empty()
        },
        None => Seq::empty(),
    }
}

/// Chooses the initial content of the address field from the clipboard's
/// text, `None` where the clipboard holds no text or cannot be read.
pub fn prefill_url(clipboard: Option<String>) -> (r: String)
    ensures
        r@ == prefilled_url(clipboard.deep_view()),
{
    match clipboard {
        Some(text) => {
            if starts_with(text.as_str(), "http://") || starts_with(text.as_str(), "https://") {
                text
            } else {
                String::new()
            }
        },
        None => String::new(),
    }
}

impl FormView {
    /// The form that a session starts with.
    pub open spec fn initial(settings: SettingsView, original_url: Seq<char>) -> FormView {
        FormView {
            api_key: settings.api_key,
            domain: settings.domain,
            draft_api_key: Seq::empty(),
            draft_domain: Seq::empty(),
            original_url,
            custom_path: Seq::empty(),
            cloaking: false,
            password: Seq::empty(),
            password_contact: false,
            clicks_limit: Seq::empty(),
            redirect_type: RedirectType::MovedPermanently,
            result: None,
            error: None,
            failed: false,
            loading: false,
            show_settings: false,
        }
    }

    /// The required field that is missing, the API key before the address;
    /// `None` where both are there.
    pub open spec fn missing(self) -> Option<ValidationError> {
        if self.api_key.len() == 0 {
            Some(ValidationError::MissingApiKey)
        } else if self.original_url.len() == 0 {
            Some(ValidationError::MissingUrl)
        } else {
            None
        }
    }

    /// The request body that the fields stand for.
    pub open spec fn request(self) -> LinkRequestView {
        LinkRequestView {
            original_url: self.original_url,
            path: filled(self.custom_path),
            domain: filled(self.domain),
            cloaking: ticked(self.cloaking),
            password: filled(self.password),
            password_contact: ticked(self.password_contact),
            allow_duplicates: false,
            clicks_limit: decimal_i32(self.clicks_limit),
            redirect_type: Some(self.redirect_type.number()),
            tags: Some(fixed_tags()),
        }
    }

    /// The POST that a valid submission asks for.
    pub open spec fn dispatch(self) -> DispatchView {
        DispatchView {
            endpoint: endpoint_text(),
            authorization: self.api_key,
            request: self.request(),
        }
    }

    /// The form after a submission that lacks a field: the message is shown,
    /// nothing else changes.
    pub open spec fn refused(self, missing: ValidationError) -> FormView {
        FormView { error: Some(validation_message(missing)), ..self }
    }

    /// The form after a valid submission: loading, with no link and no error
    /// shown.
    pub open spec fn submitted(self) -> FormView {
        FormView { loading: true, error: None, result: None, failed: false, ..self }
    }

    /// The form after an outcome was recorded: no longer loading, showing
    /// the link or the error's message, never both.
    pub open spec fn recorded(self, outcome: OutcomeView) -> FormView {
        match outcome {
            OutcomeView::Success(link) => FormView {
                result: Some(link),
                error: None,
                failed: false,
                loading: false,
                ..self
            },
            OutcomeView::Failure(error) => FormView {
                result: None,
                error: Some(error_message(error)),
                failed: true,
                loading: false,
                ..self
            },
        }
    }

    /// The settings in effect: those that requests are made from.
    pub open spec fn settings(self) -> SettingsView {
        SettingsView { api_key: self.api_key, domain: self.domain }
    }

    /// The settings as typed into the settings panel.
    pub open spec fn draft(self) -> SettingsView {
        SettingsView { api_key: self.draft_api_key, domain: self.draft_domain }
    }

    /// The form once the settings panel was opened: the drafts start from
    /// the settings in effect.
    pub open spec fn opened(self) -> FormView {
        FormView {
            draft_api_key: self.api_key,
            draft_domain: self.domain,
            show_settings: true,
            ..self
        }
    }

    /// The form once the settings panel was closed by Save: the drafts have
    /// become the settings in effect.
    pub open spec fn saved(self) -> FormView {
        FormView {
            api_key: self.draft_api_key,
            domain: self.draft_domain,
            draft_api_key: Seq::empty(),
            draft_domain: Seq::empty(),
            show_settings: false,
            ..self
        }
    }

    /// The form once the settings panel was closed by Cancel: the drafts are
    /// gone, the settings in effect are what they were.
    pub open spec fn cancelled(self) -> FormView {
        FormView {
            draft_api_key: Seq::empty(),
            draft_domain: Seq::empty(),
            show_settings: false,
            ..self
        }
    }

    /// The form after an event. A submission is looked at only while nothing
    /// is in flight. Opening the panel that is open already keeps what was
    /// typed into it, and Save does something only while the panel is open.
    pub open spec fn after(self, event: UiEvent) -> FormView {
        match event {
            UiEvent::Submit => if self.loading {
                self
            } else {
                match self.missing() {
                    Some(missing) => self.refused(missing),
                    None => self.submitted(),
                }
            },
            UiEvent::OpenSettings => if self.show_settings {
                self
            } else {
                self.opened()
            },
            UiEvent::SaveSettings => if self.show_settings {
                self.saved()
            } else {
                self
            },
            UiEvent::CancelSettings => self.cancelled(),
            UiEvent::CopyShortUrl => self,
            UiEvent::Escape => self,
        }
    }

    /// What the caller has to do after an event. Only a valid submission
    /// made while nothing is in flight asks for a request to be sent, and
    /// only Save in the open settings panel asks for settings to be written:
    /// those typed into the panel.
    pub open spec fn action(self, event: UiEvent) -> UiActionView {
        match event {
            UiEvent::Submit => if !self.loading && self.missing() is None {
                UiActionView::Send(self.dispatch())
            } else {
                UiActionView::Nothing
            },
            UiEvent::OpenSettings => UiActionView::Nothing,
            UiEvent::SaveSettings => if self.show_settings {
                UiActionView::Persist(self.draft())
            } else {
                UiActionView::Nothing
            },
            UiEvent::CancelSettings => UiActionView::Nothing,
            UiEvent::CopyShortUrl => match self.result {
                Some(link) => UiActionView::CopyText(link.short_url),
                None => UiActionView::Nothing,
            },
            UiEvent::Escape => UiActionView::Close,
        }
    }

    /// Where the form stands.
    pub open spec fn phase(self) -> Phase {
        if self.loading {
            Phase::Submitting
        } else if self.result is Some {
            Phase::Success
        } else if self.failed {
            Phase::Failed
        } else {
            Phase::Idle
        }
    }
}

impl Form {
    /// The form at the start of a session: the loaded settings, or empty
    /// ones; the address field filled from the clipboard where its text
    /// looks like a web address; everything else at its default.
    pub fn new(settings: Option<Settings>, clipboard: Option<String>) -> (r: Form)
        ensures
            r@ == FormView::initial(
                SettingsView::or_empty(
                    match settings {
                        Some(s) => Some(s@),
                        None => None,
                    },
                ),
                prefilled_url(clipboard.deep_view()),
            ),
    {
        let (api_key, domain): (String, String) = match settings {
            Some(s) => (s.api_key, s.domain),
            None => (String::new(), String::new()),
        };
        Form {
            api_key,
            domain,
            draft_api_key: String::new(),
            draft_domain: String::new(),
            original_url: prefill_url(clipboard),
            custom_path: String::new(),
            cloaking: false,
            password: String::new(),
            password_contact: false,
            clicks_limit: String::new(),
            redirect_type: RedirectType::MovedPermanently,
            result: None,
            error: None,
            failed: false,
            loading: false,
            show_settings: false,
        }
    }

    /// The request body that the fields stand for: empty text fields and
    /// unticked boxes are left out, the click limit is there only where the
    /// field holds a decimal `i32`, duplicates are never allowed, and the
    /// redirect type and the fixed tag are always there.
    pub fn build_request(&self) -> (r: LinkRequest)
        ensures
            r@ == self@.request(),
    {
        LinkRequest {
            original_url: self.original_url.clone(),
            path: non_empty(&self.custom_path),
            domain: non_empty(&self.domain),
            cloaking: only_if_set(self.cloaking),
            password: non_empty(&self.password),
            password_contact: only_if_set(self.password_contact),
            allow_duplicates: false,
            clicks_limit: parse_i32(self.clicks_limit.as_str()),
            redirect_type: Some(self.redirect_type.code()),
            tags: Some(tag_list()),
        }
    }

    /// Submits the form. Where the API key or the address is empty, the
    /// submission is refused: the message is shown, nothing else changes and
    /// nothing is to be sent. Otherwise the form starts loading, drops the
    /// link and the error it showed, and hands back the one POST to perform.
    pub fn create_short_link(&mut self) -> (r: Result<Dispatch, ValidationError>)
        ensures
            match r {
                Ok(dispatch) => {
                    &&& old(self)@.missing() is None
                    &&& dispatch@ == old(self)@.dispatch()
                    &&& final(self)@ == old(self)@.submitted()
                },
                Err(missing) => {
                    &&& old(self)@.missing() == Some(missing)
                    &&& final(self)@ == old(self)@.refused(missing)
                },
            },
    {
        if self.api_key.as_str().is_empty() {
            self.error = Some(ValidationError::MissingApiKey.message());
            return Err(ValidationError::MissingApiKey);
        }
        if self.original_url.as_str().is_empty() {
            self.error = Some(ValidationError::MissingUrl.message());
            return Err(ValidationError::MissingUrl);
        }
        let dispatch = Dispatch {
            endpoint: String::from_str(endpoint()),
            authorization: self.api_key.clone(),
            request: self.build_request(),
        };
        self.loading = true;
        self.error = None;
        self.result = None;
        self.failed = false;
        Ok(dispatch)
    }

    /// Records how a submission ended: the form stops loading and shows the
    /// link, or the error's message.
    pub fn record(&mut self, outcome: Outcome)
        ensures
            final(self)@ == old(self)@.recorded(outcome@),
    {
        match outcome {
            Outcome::Success(link) => {
                self.result = Some(link);
                self.error = None;
                self.failed = false;
            },
            Outcome::Failure(error) => {
                self.result = None;
                self.error = Some(error.message());
                self.failed = true;
            },
        }
        self.loading = false;
    }

    /// Takes the waiting outcome out of the mailbox, if there is one, and
    /// records it. Tells whether there was one.
    pub fn drain(&mut self, slot: &mut OutcomeSlot) -> (r: bool)
        ensures
            final(slot)@ is None,
            r == (old(slot)@ is Some),
            final(self)@ == match old(slot)@ {
                Some(outcome) => old(self)@.recorded(outcome),
                None => old(self)@,
            },
    {
        match slot.take() {
            Some(outcome) => {
                self.record(outcome);
                true
            },
            None => false,
        }
    }

    /// Opens the settings panel on the settings in effect: the drafts start
    /// as copies of them.
    pub fn open_settings(&mut self)
        ensures
            final(self)@ == old(self)@.opened(),
    {
        self.draft_api_key = self.api_key.clone();
        self.draft_domain = self.domain.clone();
        self.show_settings = true;
    }

    /// Closes the settings panel and puts what was typed into it in effect.
    /// Hands back the new settings, for the caller to write them down.
    pub fn save_settings(&mut self) -> (r: Settings)
        ensures
            final(self)@ == old(self)@.saved(),
            r@ == old(self)@.draft(),
            r@ == final(self)@.settings(),
    {
        self.api_key = self.draft_api_key.clone();
        self.domain = self.draft_domain.clone();
        self.draft_api_key = String::new();
        self.draft_domain = String::new();
        self.show_settings = false;
        self.settings()
    }

    /// Closes the settings panel and forgets what was typed into it. The
    /// settings in effect stay as they were.
    pub fn cancel_settings(&mut self)
        ensures
            final(self)@ == old(self)@.cancelled(),
    {
        self.draft_api_key = String::new();
        self.draft_domain = String::new();
        self.show_settings = false;
    }

    /// Applies an event to the form and tells the caller what to do. While
    /// a request is in flight a submission is ignored, so that at most one
    /// outcome is ever awaited. The settings in effect change on Save alone.
    pub fn handle(&mut self, event: UiEvent) -> (r: UiAction)
        ensures
            final(self)@ == old(self)@.after(event),
            r@ == old(self)@.action(event),
    {
        match event {
            UiEvent::Submit => {
                if self.loading {
                    UiAction::Nothing
                } else {
                    match self.create_short_link() {
                        Ok(dispatch) => UiAction::Send(dispatch),
                        Err(_) => UiAction::Nothing,
                    }
                }
            },
            UiEvent::OpenSettings => {
                if !self.show_settings {
                    self.open_settings();
                }
                UiAction::Nothing
            },
            UiEvent::SaveSettings => {
                if self.show_settings {
                    let settings = self.save_settings();
                    UiAction::Persist(settings)
                } else {
                    UiAction::Nothing
                }
            },
            UiEvent::CancelSettings => {
                self.cancel_settings();
                UiAction::Nothing
            },
            UiEvent::CopyShortUrl => match &self.result {
                Some(link) => UiAction::CopyText(link.short_url.clone()),
                None => UiAction::Nothing,
            },
            UiEvent::Escape => UiAction::Close,
        }
    }

    /// The settings in effect: those that requests are made from.
    pub fn settings(&self) -> (r: Settings)
        ensures
            r@ == self@.settings(),
    {
        Settings { api_key: self.api_key.clone(), domain: self.domain.clone() }
    }

    /// Where the form stands.
    pub fn phase(&self) -> (r: Phase)
        ensures
            r == self@.phase(),
    {
        if self.loading {
            Phase::Submitting
        } else if self.result.is_some() {
            Phase::Success
        } else if self.failed {
            Phase::Failed
        } else {
            Phase::Idle
        }
    }
}

/// A submission with an empty API key or an empty address is refused on the
/// spot: nothing is to be sent, the loading flag and the phase keep their
/// values and, unless a request is in flight, the message for the missing
/// field is shown.
pub proof fn missing_field_sends_nothing(form: FormView)
    requires
        form.api_key.len() == 0 || form.original_url.len() == 0,
    ensures
        form.missing() is Some,
        form.action(UiEvent::Submit) == UiActionView::Nothing,
        form.after(UiEvent::Submit).loading == form.loading,
        form.after(UiEvent::Submit).result == form.result,
        form.after(UiEvent::Submit).phase() == form.phase(),
        !form.loading ==> form.after(UiEvent::Submit).error == Some(
            validation_message(form.missing()->0),
        ),
{
}

/// While a request is in flight a submission changes nothing and sends
/// nothing, so a request is only ever started from a form that awaits none.
pub proof fn busy_form_ignores_submission(form: FormView)
    requires
        form.loading,
    ensures
        form.after(UiEvent::Submit) == form,
        form.action(UiEvent::Submit) == UiActionView::Nothing,
{
}

/// The loading flag is set right after a valid submission and cleared once
/// its outcome is recorded, whatever the outcome is.
pub proof fn loading_spans_submission(form: FormView, outcome: OutcomeView)
    requires
        form.missing() is None,
    ensures
        form.submitted().loading,
        !form.loading ==> form.after(UiEvent::Submit).loading,
        !form.submitted().recorded(outcome).loading,
        !form.recorded(outcome).loading,
{
}

/// A 2xx answer whose body parses makes the form show exactly the parsed
/// link, both addresses unchanged, and no error.
pub proof fn success_shows_parsed_link(form: FormView, code: u16, link: LinkResultView)
    requires
        is_success_code(code),
    ensures
        step_after_send(Ok(code)) == StepView::ReadLink,
        form.recorded(outcome_after_link(Ok(link))).result == Some(link),
        form.recorded(outcome_after_link(Ok(link))).error is None,
{
}

/// The settings in effect change through Save alone: no other event touches
/// the API key or the domain that requests are made from.
pub proof fn settings_change_only_through_save(form: FormView, event: UiEvent)
    requires
        event != UiEvent::SaveSettings,
    ensures
        form.after(event).settings() == form.settings(),
{
}

/// Recording how a submission ended leaves the settings in effect alone.
pub proof fn outcome_leaves_settings(form: FormView, outcome: OutcomeView)
    ensures
        form.recorded(outcome).settings() == form.settings(),
{
}

/// Only Save asks for settings to be written, and only while the panel is
/// open: what it hands out is what was typed into the panel, and that is
/// what is in effect from then on. While the panel is closed Save changes
/// nothing.
pub proof fn save_puts_draft_in_effect(form: FormView, event: UiEvent)
    ensures
        form.action(event) is Persist <==> event == UiEvent::SaveSettings && form.show_settings,
        form.action(event) is Persist ==> {
            &&& form.action(event) == UiActionView::Persist(form.draft())
            &&& form.after(event).settings() == form.draft()
            &&& !form.after(event).show_settings
        },
        !form.show_settings ==> form.after(UiEvent::SaveSettings) == form,
{
}

/// Typing into the settings panel does not reach the requests until Save.
/// Once the panel was opened and filled with any key and domain, a
/// submission still sends what it would have sent before. Closed by Cancel,
/// the form has the settings from before and no drafts: it is the form from
/// before the panel was opened, if that one had no drafts. Closed by Save,
/// the typed key is the one that goes out.
pub proof fn cancel_forgets_what_was_typed(form: FormView, key: Seq<char>, domain: Seq<char>)
    ensures
        ({
            let typed = FormView {
                draft_api_key: key,
                draft_domain: domain,
                ..form.after(UiEvent::OpenSettings)
            };
            let cancelled = typed.after(UiEvent::CancelSettings);
            let saved = typed.after(UiEvent::SaveSettings);
            &&& typed.settings() == form.settings()
            &&& typed.dispatch() == form.dispatch()
            &&& typed.action(UiEvent::Submit) == form.action(UiEvent::Submit)
            &&& cancelled.settings() == form.settings()
            &&& cancelled.dispatch() == form.dispatch()
            &&& cancelled.draft() == SettingsView::empty()
            &&& !cancelled.show_settings
            &&& typed.action(UiEvent::CancelSettings) == UiActionView::Nothing
            &&& !form.show_settings && form.draft() == SettingsView::empty() ==> cancelled == form
            &&& saved.settings() == (SettingsView { api_key: key, domain })
            &&& saved.dispatch().authorization == key
        }),
{
}

/// What Save hands out is what a later session starts with once it is handed
/// back in: the key and the domain come back unchanged, and they are the
/// ones that Save put in effect.
pub proof fn saved_settings_come_back(form: FormView, clipboard: Option<Seq<char>>)
    ensures
        form.show_settings ==> form.action(UiEvent::SaveSettings) == UiActionView::Persist(
            form.draft(),
        ),
        form.saved().settings() == form.draft(),
        FormView::initial(
            SettingsView::or_empty(Some(form.draft())),
            prefilled_url(clipboard),
        ).settings() == form.draft(),
{
}

/// The phases follow one another as a submission goes: a valid submission
/// made while nothing is in flight leads to `Submitting`, and a recorded
/// outcome leads to `Success` or to `Failed`. No other event changes the
/// phase; a refused submission in particular leaves it as it was.
pub proof fn phases_follow_submission(form: FormView, event: UiEvent, outcome: OutcomeView)
    ensures
        form.after(event).phase() == if event == UiEvent::Submit && !form.loading
            && form.missing() is None {
            Phase::Submitting
        } else {
            form.phase()
        },
        form.recorded(outcome).phase() == match outcome {
            OutcomeView::Success(_) => Phase::Success,
            OutcomeView::Failure(_) => Phase::Failed,
        },
{
}

} // verus!
