//! The context-wrapping adapter: pairs a caller-supplied message with the
//! rendered text of an arbitrary underlying failure, and the conversion from
//! the network client's failure value.

use vstd::prelude::*;

verus! {

use crate::render::{Render, RenderDebug};
use vstd::string::StringExecFns;

/// The rendering of a wrapped failure: the context message, `": "`, then the
/// underlying failure's captured text.
pub open spec fn wrapped_text(message: Seq<char>, original: Seq<char>) -> Seq<char> {
    message + ": "@ + original
}

/// The context message of a network-request failure: it names the request
/// URL when one is known, and the placeholder `<unknown>` otherwise.
pub open spec fn network_message_text(url: Option<Seq<char>>) -> Seq<char> {
    "error requesting "@ + match url {
        Option::Some(u) => u,
        Option::None => "<unknown>"@,
    }
}

/// A failure annotated with caller context. The original failure's rendering
/// is captured as text at wrap time, so the value is self-contained.
#[derive(Debug, Clone)]
pub struct WrappedError {
    message: String,
    original: String,
}

impl WrappedError {
    /// The context message, at the spec level.
    pub closed spec fn message_text(&self) -> Seq<char> {
        self.message@
    }

    /// The captured rendering of the original failure, at the spec level.
    pub closed spec fn original_text(&self) -> Seq<char> {
        self.original@
    }

    /// Pairs a context message with the already-rendered text of an
    /// underlying failure.
    pub fn new(message: String, original: String) -> (r: WrappedError)
        ensures
            r.message_text() == message@,
            r.original_text() == original@,
    {
        WrappedError { message, original }
    }

    /// The context message of this wrapped failure.
    pub fn message(&self) -> (r: &String)
        ensures
            r@ == self.message_text(),
    {
        &self.message
    }

    /// The captured rendering of the failure this one wraps.
    pub fn original(&self) -> (r: &String)
        ensures
            r@ == self.original_text(),
    {
        &self.original
    }

    /// Wraps a network-request failure, given the request URL as far as the
    /// failure carried one and the network client's own rendered text.
    pub fn from_network(url: Option<String>, rendering: String) -> (r: WrappedError)
        ensures
            r.message_text() == network_message_text(url.deep_view()),
            r.original_text() == rendering@,
    {
        let mut m = String::from_str("error requesting ");
        match url {
            Option::Some(u) => m.append(u.as_str()),
            Option::None => m.append("<unknown>"),
        }
        WrappedError { message: m, original: rendering }
    }
}

impl Render for WrappedError {
    open spec fn text(&self) -> Seq<char> {
        wrapped_text(self.message_text(), self.original_text())
    }

    fn render(&self) -> (r: String) {
        let mut s = self.message.clone();
        s.append(": ");
        s.append(self.original.as_str());
        s
    }
}

/// Attaches a context message to any failure with a user-facing rendering.
/// The source's rendering is captured into the result; the source itself is
/// consumed.
pub fn wrap<T: Render>(original: T, message: &str) -> (r: WrappedError)
    ensures
        r.message_text() == message@,
        r.original_text() == original.text(),
        r.text() == wrapped_text(message@, original.text()),
{
    WrappedError { message: String::from_str(message), original: original.render() }
}

/// Attaches a context message to any failure with a structural rendering,
/// for sources that lack a polished user-facing message. It never fails,
/// whatever the structural text holds.
pub fn wrapdbg<T: RenderDebug>(original: T, message: &str) -> (r: WrappedError)
    ensures
        r.message_text() == message@,
        r.original_text() == original.debug_text(),
        r.text() == wrapped_text(message@, original.debug_text()),
{
    WrappedError { message: String::from_str(message), original: original.render_debug() }
}

#[verifier::external_type_specification]
#[verifier::external_body]
pub struct ExReqwestError(reqwest::Error);

/// Relies on reqwest::Error::url: the URL related to the failure, when the
/// failure carries one.
#[verifier::external_body]
fn request_error_url(e: &reqwest::Error) -> Option<String> {
    e.url().map(|u| u.as_str().to_string())
}

/// Relies on reqwest::Error's Display implementation: the network client's
/// own rendering of the failure.
#[verifier::external_body]
fn request_error_text(e: &reqwest::Error) -> String {
    format!("{}", e)
}

impl WrappedError {
    /// Wraps a failure of the network client: the message names the request
    /// URL as far as the failure carried one, and the original text is the
    /// client's own rendering of the failure.
    pub fn from_request_error(e: reqwest::Error) -> (r: WrappedError)
        ensures
            exists|u: Option<Seq<char>>| r.message_text() == network_message_text(u),
    {
        let url = request_error_url(&e);
        let text = request_error_text(&e);
        let ghost u = url.deep_view();
        let r = WrappedError::from_network(url, text);
        proof {
            assert(r.message_text() == network_message_text(u));
        }
        r
    }
}

/// Wrapping composes: wrapping an already-wrapped failure chains the context
/// messages, each followed by `": "`, ahead of the innermost captured text.
pub proof fn lemma_wrap_composes(x: Seq<char>, a: Seq<char>, b: Seq<char>)
    ensures
        wrapped_text(b, wrapped_text(a, x)) == b + ": "@ + a + ": "@ + x,
{
    assert(wrapped_text(b, wrapped_text(a, x)) =~= b + ": "@ + a + ": "@ + x);
}

} // verus!
