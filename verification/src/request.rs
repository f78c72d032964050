//! The request that a submission turns into.

use vstd::prelude::*;
use vstd::string::*;

verus! {

/// The status with which a short link redirects.
#[derive(Clone, Copy, Debug, PartialEq, Eq)]
pub enum RedirectType {
    /// 301, the default.
    MovedPermanently,
    /// 302.
    Found,
    /// 307.
    TemporaryRedirect,
    /// 308.
    PermanentRedirect,
}

impl RedirectType {
    /// The status number on the wire.
    pub open spec fn number(self) -> i32 {
        match self {
            RedirectType::MovedPermanently => 301,
            RedirectType::Found => 302,
            RedirectType::TemporaryRedirect => 307,
            RedirectType::PermanentRedirect => 308,
        }
    }

    /// The status number on the wire.
    pub fn code(self) -> (r: i32)
        ensures
            r == self.number(),
    {
        match self {
            RedirectType::MovedPermanently => 301,
            RedirectType::Found => 302,
            RedirectType::TemporaryRedirect => 307,
            RedirectType::PermanentRedirect => 308,
        }
    }

    /// The redirect type with this status number, if it is one of the four.
    pub fn from_code(code: i32) -> (r: Option<RedirectType>)
        ensures
            r is Some <==> code == 301 || code == 302 || code == 307 || code == 308,
            r is Some ==> r->0.number() == code,
    {
        if code == 301 {
            Some(RedirectType::MovedPermanently)
        } else if code == 302 {
            Some(RedirectType::Found)
        } else if code == 307 {
            Some(RedirectType::TemporaryRedirect)
        } else if code == 308 {
            Some(RedirectType::PermanentRedirect)
        } else {
            None
        }
    }
}

impl Default for RedirectType {
    fn default() -> (r: RedirectType)
        ensures
            r == RedirectType::MovedPermanently,
    {
        RedirectType::MovedPermanently
    }
}

/// The body of a request to create a short link. A field that is `None` is
/// left out of the body.
#[derive(Clone, Debug, PartialEq, Eq)]
pub struct LinkRequest {
    pub original_url: String,
    pub path: Option<String>,
    pub domain: Option<String>,
    pub cloaking: Option<bool>,
    pub password: Option<String>,
    pub password_contact: Option<bool>,
    pub allow_duplicates: bool,
    pub clicks_limit: Option<i32>,
    pub redirect_type: Option<i32>,
    pub tags: Option<Vec<String>>,
}

/// [`LinkRequest`] as plain text and numbers.
pub struct LinkRequestView {
    pub original_url: Seq<char>,
    pub path: Option<Seq<char>>,
    pub domain: Option<Seq<char>>,
    pub cloaking: Option<bool>,
    pub password: Option<Seq<char>>,
    pub password_contact: Option<bool>,
    pub allow_duplicates: bool,
    pub clicks_limit: Option<i32>,
    pub redirect_type: Option<i32>,
    pub tags: Option<Seq<Seq<char>>>,
}

impl View for LinkRequest {
    type V = LinkRequestView;

    open spec fn view(&self) -> LinkRequestView {
        LinkRequestView {
            original_url: self.original_url@,
            path: self.path.deep_view(),
            domain: self.domain.deep_view(),
            cloaking: self.cloaking,
            password: self.password.deep_view(),
            password_contact: self.password_contact,
            allow_duplicates: self.allow_duplicates,
            clicks_limit: self.clicks_limit,
            redirect_type: self.redirect_type,
            tags: self.tags.deep_view(),
        }
    }
}

/// The one tag that every request carries.
pub open spec fn fixed_tags() -> Seq<Seq<char>> {
    seq!["shortyio"@]
}

/// A text field as an optional value: an empty field stands for none.
pub open spec fn filled(field: Seq<char>) -> Option<Seq<char>> {
    if field.len() == 0 {
        None
    } else {
        Some(field)
    }
}

/// A checkbox as an optional flag: only a ticked box is sent.
pub open spec fn ticked(flag: bool) -> Option<bool> {
    if flag {
        Some(true)
    } else {
        None
    }
}

/// Turns a text field into an optional value: `None` for an empty field,
/// else the text itself.
pub fn non_empty(field: &String) -> (r: Option<String>)
    ensures
        r.deep_view() == filled(field@),
{
    if field.as_str().is_empty() {
        None
    } else {
        Some(field.clone())
    }
}

/// Turns a checkbox into an optional flag: `Some(true)` if ticked, else
/// `None`.
pub fn only_if_set(flag: bool) -> (r: Option<bool>)
    ensures
        r == ticked(flag),
{
    if flag {
        Some(true)
    } else {
        None
    }
}

/// The tag list of every request.
pub fn tag_list() -> (r: Vec<String>)
    ensures
        r.deep_view() == fixed_tags(),
{
    let mut tags: Vec<String> = Vec::new();
    tags.push(String::from_str("shortyio"));
    assert(tags.deep_view() =~= fixed_tags());
    tags
}

/// The address that every request is posted to.
pub open spec fn endpoint_text() -> Seq<char> {
    "https://api.short.io/links"@
}

/// The address that every request is posted to.
pub fn endpoint() -> (r: &'static str)
    ensures
        r@ == endpoint_text(),
{
    "https://api.short.io/links"
}

/// One HTTP POST to perform: where to, the value of the `authorization`
/// header, and the body.
#[derive(Clone, Debug, PartialEq, Eq)]
pub struct Dispatch {
    pub endpoint: String,
    pub authorization: String,
    pub request: LinkRequest,
}

/// [`Dispatch`] as plain text and numbers.
pub struct DispatchView {
    pub endpoint: Seq<char>,
    pub authorization: Seq<char>,
    pub request: LinkRequestView,
}

impl View for Dispatch {
    type V = DispatchView;

    open spec fn view(&self) -> DispatchView {
        DispatchView {
            endpoint: self.endpoint@,
            authorization: self.authorization@,
            request: self.request@,
        }
    }
}

} // verus!
