//! The failure generated by an unsuccessful HTTP response, and its
//! constructor from the parts of a received response.

use vstd::prelude::*;

verus! {

use crate::render::Render;
use crate::text::{append_dec_u64, dec_text};
use crate::wrapped::WrappedError;
use vstd::string::StringExecFns;

/// The context message of a failure to drain a response body: it embeds the
/// status code and the request URL.
pub open spec fn drain_failure_message_text(status_code: nat, url: Seq<char>) -> Seq<char> {
    "failed to read response body on "@ + dec_text(status_code) + " code from "@ + url
}

/// A failure generated by an unsuccessful HTTP response.
#[derive(Debug)]
pub struct StatusError {
    /// The request URL.
    pub url: String,
    /// The response's status code.
    pub status_code: u16,
    /// The response body, drained as text.
    pub body: String,
}

impl Render for StatusError {
    open spec fn text(&self) -> Seq<char> {
        "error requesting "@ + self.url@ + ": "@ + dec_text(self.status_code as nat) + " "@
            + self.body@
    }

    fn render(&self) -> (r: String) {
        let mut s = String::from_str("error requesting ");
        s.append(self.url.as_str());
        s.append(": ");
        append_dec_u64(&mut s, self.status_code as u64);
        s.append(" ");
        s.append(self.body.as_str());
        s
    }
}

impl StatusError {
    /// Builds the failure for an unsuccessful response from the parts the
    /// network client hands over: the URL and status code, read before the
    /// body is drained, and the outcome of draining the body — the drained
    /// text, or the rendered text of the failure that interrupted draining.
    /// A draining failure is itself reported, as a wrapped failure whose
    /// message embeds the status code and URL.
    pub fn from_parts(url: String, status_code: u16, body: Result<String, String>) -> (r: Result<
        StatusError,
        WrappedError,
    >)
        ensures
            ({
                match (body, r) {
                    (Ok(b), Ok(s)) => s.url@ == url@ && s.status_code == status_code && s.body@
                        == b@,
                    (Err(e), Err(w)) => w.message_text() == drain_failure_message_text(
                        status_code as nat,
                        url@,
                    ) && w.original_text() == e@,
                    _ => false,
                }
            }),
    {
        match body {
            Ok(b) => Ok(StatusError { url, status_code, body: b }),
            Err(e) => {
                let mut m = String::from_str("failed to read response body on ");
                append_dec_u64(&mut m, status_code as u64);
                m.append(" code from ");
                m.append(url.as_str());
                Err(WrappedError::new(m, e))
            },
        }
    }
}

} // verus!
