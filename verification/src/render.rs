//! The two rendering interfaces of the failure catalogue.
//!
//! [`Render`] is the user-facing rendering: every failure type whose message
//! depends on its fields alone implements it, and its contract pins the
//! rendered text to the type's spec-level text. [`RenderDebug`] is the
//! structural rendering used by [`crate::wrapped::wrapdbg`] for values that
//! lack a polished user-facing message.

use vstd::prelude::*;

verus! {

/// A failure value with a user-facing rendering determined by its fields.
pub trait Render {
    /// The rendered text, at the spec level.
    spec fn text(&self) -> Seq<char>;

    /// Renders the failure as a human-readable message.
    fn render(&self) -> (r: String)
        ensures
            r@ == self.text(),
    ;
}

/// A value with a structural (not user-facing) rendering, for wrapping
/// failures that have no polished message of their own.
pub trait RenderDebug {
    /// The structural text, at the spec level.
    spec fn debug_text(&self) -> Seq<char>;

    /// Renders the value structurally.
    fn render_debug(&self) -> (r: String)
        ensures
            r@ == self.debug_text(),
    ;
}

/// Rendering is deterministic: the rendering contract pins the result to
/// `text`, a function of the value alone, so two renderings of the same
/// value have the same text.
pub proof fn lemma_rendering_deterministic<T: Render>(e: &T, first: &String, second: &String)
    requires
        first@ == e.text(),
        second@ == e.text(),
    ensures
        first@ == second@,
{
}

impl Render for String {
    /// A plain string renders as itself.
    open spec fn text(&self) -> Seq<char> {
        self@
    }

    fn render(&self) -> (r: String) {
        self.clone()
    }
}

impl RenderDebug for String {
    /// The structural text of a plain string is the string itself, whatever
    /// it holds: it may be empty or contain control characters.
    open spec fn debug_text(&self) -> Seq<char> {
        self@
    }

    fn render_debug(&self) -> (r: String) {
        self.clone()
    }
}

} // verus!
