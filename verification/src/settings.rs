//! The two settings that outlive a session.

use vstd::prelude::*;

verus! {

/// The persisted settings: the API key and the default domain. An empty
/// domain means that none is set.
#[derive(Clone, Debug, PartialEq, Eq)]
pub struct Settings {
    pub api_key: String,
    pub domain: String,
}

/// [`Settings`] as plain text.
pub struct SettingsView {
    pub api_key: Seq<char>,
    pub domain: Seq<char>,
}

impl View for Settings {
    type V = SettingsView;

    open spec fn view(&self) -> SettingsView {
        SettingsView { api_key: self.api_key@, domain: self.domain@ }
    }
}

impl SettingsView {
    /// What a form starts from when nothing could be loaded.
    pub open spec fn empty() -> SettingsView {
        SettingsView { api_key: Seq::empty(), domain: Seq::empty() }
    }

    /// The settings to start from: the loaded ones, or empty ones.
    pub open spec fn or_empty(loaded: Option<SettingsView>) -> SettingsView {
        match loaded {
            Some(settings) => settings,
            None => SettingsView::empty(),
        }
    }
}

} // verus!
