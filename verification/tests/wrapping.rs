//! Tests for the context-wrapping adapter, the network-failure conversion
//! and the status-error constructor.

use cli_errors::{wrap, wrapdbg, DevTunnelError, Render, StatusError, WrappedError};

#[test]
fn wrap_renders_message_then_original() {
    let inner = DevTunnelError(String::from("lost connection"));
    let w = wrap(inner, "while hosting");
    assert_eq!(
        w.render(),
        "while hosting: could not open tunnel: lost connection"
    );
}

#[test]
fn wrap_composes() {
    let x = DevTunnelError(String::from("boom"));
    let once = wrap(x, "a");
    let twice = wrap(once, "b");
    assert_eq!(twice.render(), "b: a: could not open tunnel: boom");
}

#[test]
fn wrapdbg_with_empty_structural_text() {
    let w = wrapdbg(String::new(), "context");
    assert_eq!(w.render(), "context: ");
}

#[test]
fn wrapdbg_with_control_characters() {
    let w = wrapdbg(String::from("a\u{1}\n\tb"), "context");
    assert_eq!(w.render(), "context: a\u{1}\n\tb");
}

#[test]
fn network_failure_with_known_url() {
    let w = WrappedError::from_network(
        Some(String::from("https://example.com")),
        String::from("connection reset"),
    );
    assert_eq!(w.message().as_str(), "error requesting https://example.com");
    assert_eq!(
        w.render(),
        "error requesting https://example.com: connection reset"
    );
}

#[test]
fn network_failure_without_url() {
    let w = WrappedError::from_network(None, String::from("connection reset"));
    assert_eq!(w.message().as_str(), "error requesting <unknown>");
    assert_eq!(w.render(), "error requesting <unknown>: connection reset");
}

#[test]
fn status_error_from_drained_body() {
    let r = StatusError::from_parts(
        String::from("https://example.com/api"),
        404,
        Ok(String::from("not found")),
    );
    let s = r.unwrap();
    assert_eq!(s.status_code, 404);
    assert_eq!(
        s.render(),
        "error requesting https://example.com/api: 404 not found"
    );
}

#[test]
fn status_error_from_failed_drain() {
    let r = StatusError::from_parts(
        String::from("https://example.com/api"),
        500,
        Err(String::from("request or response body error")),
    );
    let w = r.unwrap_err();
    assert_eq!(
        w.message().as_str(),
        "failed to read response body on 500 code from https://example.com/api"
    );
    assert!(w.message().contains("500"));
    assert!(w.message().contains("https://example.com/api"));
    assert_eq!(
        w.render(),
        "failed to read response body on 500 code from https://example.com/api: request or response body error"
    );
}

#[test]
fn wrapped_error_render_is_deterministic() {
    let w = WrappedError::new(String::from("m"), String::from("o"));
    assert_eq!(w.render(), w.render());
}
