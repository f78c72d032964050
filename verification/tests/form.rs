use shortyio::bridge::{after_link, after_text};
use shortyio::form::{prefill_url, Form, Phase, UiAction, UiEvent};
use shortyio::outcome::{BridgeError, LinkResult, Outcome, OutcomeSlot, ValidationError};
use shortyio::request::RedirectType;
use shortyio::settings::Settings;
use shortyio::status::HttpStatus;

fn settings(api_key: &str, domain: &str) -> Settings {
    Settings { api_key: api_key.to_string(), domain: domain.to_string() }
}

fn ready_form() -> Form {
    Form::new(Some(settings("key-1", "")), Some("https://example.com/x".to_string()))
}

fn link(short: &str, original: &str) -> LinkResult {
    LinkResult { short_url: short.to_string(), original_url: original.to_string() }
}

#[test]
fn clipboard_with_https_address_fills_the_field() {
    assert_eq!(prefill_url(Some("https://example.com/x".to_string())), "https://example.com/x");
}

#[test]
fn clipboard_with_http_address_fills_the_field() {
    assert_eq!(prefill_url(Some("http://example.com".to_string())), "http://example.com");
    assert_eq!(prefill_url(Some("http://".to_string())), "http://");
}

#[test]
fn clipboard_with_other_text_leaves_the_field_empty() {
    assert_eq!(prefill_url(Some("not a url".to_string())), "");
    assert_eq!(prefill_url(Some("".to_string())), "");
    assert_eq!(prefill_url(Some(" https://example.com".to_string())), "");
    assert_eq!(prefill_url(Some("HTTPS://example.com".to_string())), "");
    assert_eq!(prefill_url(Some("ftp://example.com".to_string())), "");
    assert_eq!(prefill_url(Some("http:/".to_string())), "");
}

#[test]
fn unreadable_clipboard_leaves_the_field_empty() {
    assert_eq!(prefill_url(None), "");
}

#[test]
fn new_form_starts_from_defaults() {
    let form = Form::new(None, None);
    assert_eq!(
        form,
        Form {
            api_key: String::new(),
            domain: String::new(),
            draft_api_key: String::new(),
            draft_domain: String::new(),
            original_url: String::new(),
            custom_path: String::new(),
            cloaking: false,
            password: String::new(),
            password_contact: false,
            clicks_limit: String::new(),
            redirect_type: RedirectType::MovedPermanently,
            result: None,
            error: None,
            failed: false,
            loading: false,
            show_settings: false,
        }
    );
    assert_eq!(form.phase(), Phase::Idle);
}

#[test]
fn new_form_takes_settings_and_clipboard() {
    let form = Form::new(Some(settings("k", "d")), Some("https://example.com/x".to_string()));
    assert_eq!(form.api_key, "k");
    assert_eq!(form.domain, "d");
    assert_eq!(form.original_url, "https://example.com/x");
    let form = Form::new(Some(settings("k", "d")), Some("not a url".to_string()));
    assert_eq!(form.original_url, "");
}

#[test]
fn settings_come_back_as_they_went_in() {
    let mut form = Form::new(None, None);
    form.handle(UiEvent::OpenSettings);
    form.draft_api_key = "k".to_string();
    form.draft_domain = "d".to_string();
    let saved = match form.handle(UiEvent::SaveSettings) {
        UiAction::Persist(saved) => saved,
        other => panic!("expected settings to write, got {:?}", other),
    };
    assert_eq!(saved, Settings { api_key: "k".to_string(), domain: "d".to_string() });
    let again = Form::new(Some(saved), None);
    assert_eq!(again.settings(), Settings { api_key: "k".to_string(), domain: "d".to_string() });
    assert_eq!(again.api_key, "k");
    assert_eq!(again.domain, "d");
}

#[test]
fn empty_api_key_is_refused() {
    let mut form = Form::new(None, Some("https://example.com/x".to_string()));
    let before = form.clone();
    assert_eq!(form.create_short_link(), Err(ValidationError::MissingApiKey));
    assert_eq!(
        form.error.as_deref(),
        Some("API key is required. Click settings (⚙) to configure.")
    );
    assert!(!form.loading);
    form.error = None;
    assert_eq!(form, before);
}

#[test]
fn empty_url_is_refused() {
    let mut form = Form::new(Some(settings("k", "")), None);
    let before = form.clone();
    assert_eq!(form.create_short_link(), Err(ValidationError::MissingUrl));
    assert_eq!(form.error.as_deref(), Some("Original URL is required"));
    assert!(!form.loading);
    form.error = None;
    assert_eq!(form, before);
}

#[test]
fn empty_api_key_is_reported_before_empty_url() {
    let mut form = Form::new(None, None);
    assert_eq!(form.create_short_link(), Err(ValidationError::MissingApiKey));
}

#[test]
fn refusal_keeps_the_link_that_was_shown() {
    let mut form = ready_form();
    form.record(Outcome::Success(link("https://s.io/a", "https://example.com/x")));
    form.original_url.clear();
    assert_eq!(form.handle(UiEvent::Submit), UiAction::Nothing);
    assert_eq!(form.result, Some(link("https://s.io/a", "https://example.com/x")));
    assert_eq!(form.error.as_deref(), Some("Original URL is required"));
    assert!(!form.loading);
}

#[test]
fn valid_submission_starts_loading_and_clears_what_was_shown() {
    let mut form = ready_form();
    form.error = Some("old".to_string());
    form.result = Some(link("a", "b"));
    let dispatch = form.create_short_link().unwrap();
    assert!(form.loading);
    assert_eq!(form.error, None);
    assert_eq!(form.result, None);
    assert_eq!(form.phase(), Phase::Submitting);
    assert_eq!(dispatch.endpoint, "https://api.short.io/links");
    assert_eq!(dispatch.authorization, "key-1");
    assert_eq!(dispatch.request, form.build_request());
}

#[test]
fn loading_ends_when_the_outcome_is_recorded() {
    let status = HttpStatus::new(500).unwrap();
    let outcomes = vec![
        Outcome::Success(link("https://s.io/a", "https://example.com/x")),
        Outcome::Failure(BridgeError::Transport { message: "timed out".to_string() }),
        Outcome::Failure(BridgeError::Api { status, body: "oops".to_string() }),
        Outcome::Failure(BridgeError::Decode { message: "eof".to_string() }),
    ];
    for outcome in outcomes {
        let mut form = ready_form();
        assert!(form.create_short_link().is_ok());
        assert!(form.loading);
        form.record(outcome);
        assert!(!form.loading);
    }
}

#[test]
fn success_shows_the_parsed_link() {
    let mut form = ready_form();
    assert!(form.create_short_link().is_ok());
    form.record(after_link(Ok(link("https://s.io/abc", "https://example.com/x"))));
    let shown = form.result.clone().unwrap();
    assert!(!form.failed);
    assert_eq!(shown.short_url, "https://s.io/abc");
    assert_eq!(shown.original_url, "https://example.com/x");
    assert_eq!(form.error, None);
    assert_eq!(form.phase(), Phase::Success);
}

#[test]
fn failure_shows_the_message_and_no_link() {
    let mut form = ready_form();
    form.result = Some(link("a", "b"));
    form.loading = true;
    form.record(after_text(HttpStatus::new(404).unwrap(), Some("{\"error\":\"x\"}".to_string())));
    assert!(form.failed);
    assert_eq!(form.result, None);
    assert_eq!(form.error.as_deref(), Some("API error 404 Not Found: {\"error\":\"x\"}"));
    assert_eq!(form.phase(), Phase::Failed);
}

#[test]
fn form_stays_usable_after_a_failure() {
    let mut form = ready_form();
    assert!(matches!(form.handle(UiEvent::Submit), UiAction::Send(_)));
    form.record(Outcome::Failure(BridgeError::Transport { message: "down".to_string() }));
    assert!(matches!(form.handle(UiEvent::Submit), UiAction::Send(_)));
    assert!(form.loading);
    assert_eq!(form.error, None);
}

#[test]
fn submit_is_ignored_while_loading() {
    let mut form = ready_form();
    let first = form.handle(UiEvent::Submit);
    assert!(matches!(first, UiAction::Send(_)));
    let during = form.clone();
    assert_eq!(form.handle(UiEvent::Submit), UiAction::Nothing);
    assert_eq!(form, during);
    form.api_key.clear();
    let during = form.clone();
    assert_eq!(form.handle(UiEvent::Submit), UiAction::Nothing);
    assert_eq!(form, during);
}

#[test]
fn submit_sends_what_create_short_link_builds() {
    let mut by_event = ready_form();
    let mut direct = ready_form();
    let action = by_event.handle(UiEvent::Submit);
    let dispatch = direct.create_short_link().unwrap();
    assert_eq!(action, UiAction::Send(dispatch));
    assert_eq!(by_event, direct);
}

#[test]
fn submit_with_missing_field_sends_nothing() {
    let mut form = Form::new(None, None);
    assert_eq!(form.handle(UiEvent::Submit), UiAction::Nothing);
    assert!(!form.loading);
    assert!(!form.failed);
    assert!(form.error.is_some());
}

#[test]
fn refusal_leaves_the_phase_as_it_was() {
    let mut form = Form::new(None, None);
    assert_eq!(form.handle(UiEvent::Submit), UiAction::Nothing);
    assert_eq!(form.phase(), Phase::Idle);

    let mut form = ready_form();
    form.record(Outcome::Success(link("https://s.io/a", "https://example.com/x")));
    form.original_url.clear();
    assert_eq!(form.handle(UiEvent::Submit), UiAction::Nothing);
    assert_eq!(form.phase(), Phase::Success);

    let mut form = ready_form();
    form.record(Outcome::Failure(BridgeError::Transport { message: "down".to_string() }));
    form.original_url.clear();
    assert_eq!(form.handle(UiEvent::Submit), UiAction::Nothing);
    assert_eq!(form.error.as_deref(), Some("Original URL is required"));
    assert_eq!(form.phase(), Phase::Failed);
}

#[test]
fn settings_panel_opens_and_closes() {
    let mut form = ready_form();
    let before = form.clone();
    assert_eq!(form.handle(UiEvent::OpenSettings), UiAction::Nothing);
    assert!(form.show_settings);
    assert_eq!(form.handle(UiEvent::CancelSettings), UiAction::Nothing);
    assert!(!form.show_settings);
    assert_eq!(form, before);
}

#[test]
fn panel_opens_on_the_settings_in_effect() {
    let mut form = Form::new(Some(settings("key-1", "go.example.com")), None);
    assert_eq!(form.draft_api_key, "");
    assert_eq!(form.draft_domain, "");
    form.handle(UiEvent::OpenSettings);
    assert_eq!(form.draft_api_key, "key-1");
    assert_eq!(form.draft_domain, "go.example.com");
    assert_eq!(form.settings(), settings("key-1", "go.example.com"));
}

#[test]
fn opening_an_open_panel_keeps_what_was_typed() {
    let mut form = ready_form();
    form.handle(UiEvent::OpenSettings);
    form.draft_api_key = "typed".to_string();
    let during = form.clone();
    assert_eq!(form.handle(UiEvent::OpenSettings), UiAction::Nothing);
    assert_eq!(form, during);
}

#[test]
fn cancel_forgets_what_was_typed() {
    let mut form = Form::new(
        Some(settings("key-1", "go.example.com")),
        Some("https://example.com/x".to_string()),
    );
    let before = form.clone();
    form.handle(UiEvent::OpenSettings);
    form.draft_api_key = "typed-key".to_string();
    form.draft_domain = "typed.example.com".to_string();
    assert_eq!(form.settings(), settings("key-1", "go.example.com"));
    assert_eq!(form.handle(UiEvent::CancelSettings), UiAction::Nothing);
    assert!(!form.show_settings);
    assert_eq!(form.api_key, "key-1");
    assert_eq!(form.domain, "go.example.com");
    assert_eq!(form.draft_api_key, "");
    assert_eq!(form.draft_domain, "");
    assert_eq!(form, before);

    let dispatch = form.create_short_link().unwrap();
    assert_eq!(dispatch.authorization, "key-1");
    assert_eq!(dispatch.request.domain.as_deref(), Some("go.example.com"));
}

#[test]
fn typing_in_the_panel_does_not_reach_a_request() {
    let mut form = ready_form();
    form.handle(UiEvent::OpenSettings);
    form.draft_api_key = "typed-key".to_string();
    form.draft_domain = "typed.example.com".to_string();
    match form.handle(UiEvent::Submit) {
        UiAction::Send(dispatch) => {
            assert_eq!(dispatch.authorization, "key-1");
            assert_eq!(dispatch.request.domain, None);
        }
        other => panic!("expected a request, got {:?}", other),
    }
}

#[test]
fn typed_key_alone_does_not_make_a_form_valid() {
    let mut form = Form::new(None, Some("https://example.com/x".to_string()));
    form.handle(UiEvent::OpenSettings);
    form.draft_api_key = "typed-key".to_string();
    assert_eq!(form.handle(UiEvent::Submit), UiAction::Nothing);
    form.handle(UiEvent::CancelSettings);
    assert_eq!(form.create_short_link(), Err(ValidationError::MissingApiKey));
}

#[test]
fn save_puts_what_was_typed_in_effect() {
    let mut form = ready_form();
    form.handle(UiEvent::OpenSettings);
    form.draft_api_key = "k".to_string();
    form.draft_domain = "d".to_string();
    assert_eq!(form.handle(UiEvent::SaveSettings), UiAction::Persist(settings("k", "d")));
    assert!(!form.show_settings);
    assert_eq!(form.api_key, "k");
    assert_eq!(form.domain, "d");
    assert_eq!(form.draft_api_key, "");
    assert_eq!(form.draft_domain, "");
    assert_eq!(form.settings(), settings("k", "d"));

    let dispatch = form.create_short_link().unwrap();
    assert_eq!(dispatch.authorization, "k");
    assert_eq!(dispatch.request.domain.as_deref(), Some("d"));
}

#[test]
fn save_without_typing_hands_out_the_settings_in_effect() {
    let mut form = Form::new(Some(settings("key-1", "go.example.com")), None);
    form.handle(UiEvent::OpenSettings);
    assert_eq!(
        form.handle(UiEvent::SaveSettings),
        UiAction::Persist(settings("key-1", "go.example.com"))
    );
    assert_eq!(form.settings(), settings("key-1", "go.example.com"));
}

#[test]
fn save_can_empty_the_settings() {
    let mut form = ready_form();
    form.handle(UiEvent::OpenSettings);
    form.draft_api_key.clear();
    assert_eq!(form.handle(UiEvent::SaveSettings), UiAction::Persist(settings("", "")));
    assert_eq!(form.create_short_link(), Err(ValidationError::MissingApiKey));
}

#[test]
fn save_does_nothing_while_the_panel_is_closed() {
    let mut form = ready_form();
    form.draft_api_key = "stray".to_string();
    let before = form.clone();
    assert_eq!(form.handle(UiEvent::SaveSettings), UiAction::Nothing);
    assert_eq!(form, before);
    assert_eq!(form.api_key, "key-1");
}

#[test]
fn only_save_changes_the_settings_in_effect() {
    let events = [
        UiEvent::Submit,
        UiEvent::OpenSettings,
        UiEvent::CancelSettings,
        UiEvent::CopyShortUrl,
        UiEvent::Escape,
    ];
    for open in [false, true] {
        for event in events {
            let mut form = Form::new(Some(settings("key-1", "go.example.com")), None);
            if open {
                form.handle(UiEvent::OpenSettings);
            }
            form.draft_api_key = "typed-key".to_string();
            form.draft_domain = "typed.example.com".to_string();
            form.handle(event);
            assert_eq!(form.settings(), settings("key-1", "go.example.com"), "{:?}", event);
        }
    }
    let mut form = Form::new(Some(settings("key-1", "go.example.com")), None);
    form.record(Outcome::Failure(BridgeError::Decode { message: "bad".to_string() }));
    form.record(Outcome::Success(link("s", "o")));
    assert_eq!(form.settings(), settings("key-1", "go.example.com"));
}

#[test]
fn settings_methods_do_what_the_events_do() {
    let mut by_event = Form::new(Some(settings("key-1", "d1")), None);
    let mut direct = by_event.clone();
    by_event.handle(UiEvent::OpenSettings);
    direct.open_settings();
    assert_eq!(by_event, direct);

    by_event.draft_domain = "d2".to_string();
    direct.draft_domain = "d2".to_string();
    let mut cancelled = direct.clone();
    cancelled.cancel_settings();
    assert_eq!(cancelled, Form::new(Some(settings("key-1", "d1")), None));

    let action = by_event.handle(UiEvent::SaveSettings);
    let saved = direct.save_settings();
    assert_eq!(action, UiAction::Persist(saved.clone()));
    assert_eq!(saved, settings("key-1", "d2"));
    assert_eq!(by_event, direct);
}

#[test]
fn copy_hands_out_the_short_address() {
    let mut form = ready_form();
    assert_eq!(form.handle(UiEvent::CopyShortUrl), UiAction::Nothing);
    form.record(Outcome::Success(link("https://s.io/a", "https://example.com/x")));
    let before = form.clone();
    assert_eq!(form.handle(UiEvent::CopyShortUrl), UiAction::CopyText("https://s.io/a".to_string()));
    assert_eq!(form, before);
}

#[test]
fn escape_closes_the_window() {
    let mut form = ready_form();
    let before = form.clone();
    assert_eq!(form.handle(UiEvent::Escape), UiAction::Close);
    assert_eq!(form, before);
}

#[test]
fn drain_records_the_waiting_outcome_once() {
    let mut form = ready_form();
    let mut slot = OutcomeSlot::new();
    assert!(form.create_short_link().is_ok());
    assert!(!form.drain(&mut slot));
    assert!(form.loading);
    slot.deliver(Outcome::Success(link("https://s.io/a", "https://example.com/x")));
    assert!(slot.is_pending());
    assert!(form.drain(&mut slot));
    assert!(!slot.is_pending());
    assert!(!form.loading);
    assert_eq!(form.result, Some(link("https://s.io/a", "https://example.com/x")));
    let after = form.clone();
    assert!(!form.drain(&mut slot));
    assert_eq!(form, after);
}

#[test]
fn phase_goes_from_idle_through_submitting_to_an_end() {
    let mut form = ready_form();
    assert_eq!(form.phase(), Phase::Idle);
    form.handle(UiEvent::Submit);
    assert_eq!(form.phase(), Phase::Submitting);
    form.record(Outcome::Failure(BridgeError::Decode { message: "bad".to_string() }));
    assert_eq!(form.phase(), Phase::Failed);
    form.handle(UiEvent::Submit);
    assert_eq!(form.phase(), Phase::Submitting);
    form.record(Outcome::Success(link("s", "o")));
    assert_eq!(form.phase(), Phase::Success);
}
