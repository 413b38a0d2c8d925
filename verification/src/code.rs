//! The structured failure enum for the newer, control-flow-sensitive
//! subsystems (singleton coordination, RPC, process spawning, authentication
//! handshakes). Its tags carry typed fields for programmatic matching, and
//! every tag has its own rendering: the match is exhaustive, with no default
//! arm, so a new tag cannot be added without also giving it a message.

use vstd::prelude::*;

verus! {

use crate::render::{Render, RenderDebug};
use crate::text::{append_dec_i32, append_dec_u64, dec_text, dec_text_signed};
use vstd::string::StringExecFns;

#[verifier::external_type_specification]
#[verifier::external_body]
pub struct ExIoError(std::io::Error);

/// Relies on std::io::Error's Debug implementation: the structural text of
/// an I/O failure, captured so the failure value stays plain data.
#[verifier::external_body]
fn io_error_debug(e: &std::io::Error) -> String {
    format!("{:?}", e)
}

#[verifier::external_type_specification]
#[verifier::external_body]
pub struct ExRmpDecodeError(rmp_serde::decode::Error);

/// Relies on rmp_serde::decode::Error's Debug implementation: the structural
/// text of a MessagePack decoding failure.
#[verifier::external_body]
fn rmp_decode_error_debug(e: &rmp_serde::decode::Error) -> String {
    format!("{:?}", e)
}

/// A structured error value from the RPC transport's response, kept as
/// typed fields so callers can branch on the code rather than parse text.
#[derive(Debug, Clone)]
pub struct ResponseError {
    /// The numeric error code the remote side returned.
    pub code: i32,
    /// The remote side's message.
    pub message: String,
}

impl RenderDebug for ResponseError {
    /// The structural rendering names the type and both fields; the message
    /// is inserted as it stands.
    open spec fn debug_text(&self) -> Seq<char> {
        "ResponseError { code: "@ + dec_text_signed(self.code as int) + ", message: \""@
            + self.message@ + "\" }"@
    }

    fn render_debug(&self) -> (r: String) {
        let mut s = String::from_str("ResponseError { code: ");
        append_dec_i32(&mut s, self.code);
        s.append(", message: \"");
        s.append(self.message.as_str());
        s.append("\" }");
        s
    }
}

/// Internal failures of the newer subsystems. The tags carrying an I/O or
/// decoding failure hold its structural text, captured at construction
/// through the constructors below, so every value is an independent
/// snapshot. The two app-lock tags arise only on the Windows platform.
#[derive(Debug)]
pub enum CodeError {
    /// Could not connect to a socket or pipe; holds the I/O failure's text.
    AsyncPipeFailed(String),
    /// Could not listen on a socket or pipe; holds the I/O failure's text.
    AsyncPipeListenerFailed(String),
    /// Could not create the singleton lock file; holds the I/O failure's text.
    SingletonLockfileOpenFailed(String),
    /// Could not read the singleton lock file; holds the decoding failure's text.
    SingletonLockfileReadFailed(String),
    /// The process holding the singleton lock file exited; holds its process id.
    SingletonLockedProcessExited(u32),
    /// No tunnel process is currently running.
    NoRunningTunnel,
    /// An RPC call failed; holds the structured response error for inspection.
    TunnelRpcCallFailed(ResponseError),
    /// The Windows app lock with the given name already exists.
    AppAlreadyLocked(String),
    /// Could not take the Windows app lock; holds the I/O failure's text.
    AppLockFailed(String),
    /// An external command failed; holds the command text, its exit code and
    /// its captured output, so the invocation can be diagnosed without
    /// re-running it.
    CommandFailed {
        /// The command line that was run.
        command: String,
        /// The command's exit code.
        code: i32,
        /// The command's captured output.
        output: String,
    },
    /// The current platform is not supported; holds the platform name.
    UnsupportedPlatform(String),
    /// The machine misses the named product's prerequisites; holds the
    /// product name and the list of acceptable alternatives.
    PrerequisitesFailed {
        /// The product whose prerequisites failed.
        name: String,
        /// The acceptable alternatives, one bullet per line.
        bullets: String,
    },
    /// Spawning a process failed, before launch; holds the I/O failure's text.
    ProcessSpawnFailed(String),
    /// The handshake with a spawned process failed, after launch; holds the
    /// I/O failure's text.
    ProcessSpawnHandshakeFailed(String),
    /// A download appears corrupted; holds the reason.
    CorruptDownload(String),
    /// Port forwarding is not available in this context.
    PortForwardingNotAvailable,
    /// The `auth` call is required first.
    ServerAuthRequired,
    /// No authentication challenge has been issued yet.
    AuthChallengeNotIssued,
    /// The authentication challenge token is invalid.
    AuthChallengeBadToken,
    /// The client is not authorized and was refused.
    AuthMismatch,
    /// Keyring communication timed out.
    KeyringTimeout,
}

impl CodeError {
    /// Failure to connect to a socket or pipe, from the underlying I/O failure.
    pub fn async_pipe_failed(e: std::io::Error) -> (r: CodeError)
        ensures
            r is AsyncPipeFailed,
    {
        CodeError::AsyncPipeFailed(io_error_debug(&e))
    }

    /// Failure to listen on a socket or pipe, from the underlying I/O failure.
    pub fn async_pipe_listener_failed(e: std::io::Error) -> (r: CodeError)
        ensures
            r is AsyncPipeListenerFailed,
    {
        CodeError::AsyncPipeListenerFailed(io_error_debug(&e))
    }

    /// Failure to create the singleton lock file, from the underlying I/O
    /// failure.
    pub fn singleton_lockfile_open_failed(e: std::io::Error) -> (r: CodeError)
        ensures
            r is SingletonLockfileOpenFailed,
    {
        CodeError::SingletonLockfileOpenFailed(io_error_debug(&e))
    }

    /// Failure to read the singleton lock file, from the decoding failure.
    pub fn singleton_lockfile_read_failed(e: rmp_serde::decode::Error) -> (r: CodeError)
        ensures
            r is SingletonLockfileReadFailed,
    {
        CodeError::SingletonLockfileReadFailed(rmp_decode_error_debug(&e))
    }

    /// Failure to take the Windows app lock, from the underlying I/O failure.
    pub fn app_lock_failed(e: std::io::Error) -> (r: CodeError)
        ensures
            r is AppLockFailed,
    {
        CodeError::AppLockFailed(io_error_debug(&e))
    }

    /// Failure to spawn a process, from the underlying I/O failure.
    pub fn process_spawn_failed(e: std::io::Error) -> (r: CodeError)
        ensures
            r is ProcessSpawnFailed,
    {
        CodeError::ProcessSpawnFailed(io_error_debug(&e))
    }

    /// Failure to handshake a spawned process, from the underlying I/O
    /// failure.
    pub fn process_spawn_handshake_failed(e: std::io::Error) -> (r: CodeError)
        ensures
            r is ProcessSpawnHandshakeFailed,
    {
        CodeError::ProcessSpawnHandshakeFailed(io_error_debug(&e))
    }
}

impl Render for CodeError {
    open spec fn text(&self) -> Seq<char> {
        match self {
            CodeError::AsyncPipeFailed(t) => "could not connect to socket/pipe: "@ + t@,
            CodeError::AsyncPipeListenerFailed(t) => "could not listen on socket/pipe: "@ + t@,
            CodeError::SingletonLockfileOpenFailed(t) => "could not create singleton lock file: "@
                + t@,
            CodeError::SingletonLockfileReadFailed(t) => "could not read singleton lock file: "@
                + t@,
            CodeError::SingletonLockedProcessExited(pid) => "the process holding the singleton lock file (pid="@
                + dec_text(*pid as nat) + ") exited"@,
            CodeError::NoRunningTunnel => "no tunnel process is currently running"@,
            CodeError::TunnelRpcCallFailed(e) => "rpc call failed: "@ + e.debug_text(),
            CodeError::AppAlreadyLocked(name) => "the windows app lock "@ + name@
                + " already exists"@,
            CodeError::AppLockFailed(t) => "could not get windows app lock: "@ + t@,
            CodeError::CommandFailed { command, code, output } => "failed to run command \""@
                + command@ + "\" (code "@ + dec_text_signed(*code as int) + "): "@ + output@,
            CodeError::UnsupportedPlatform(p) => "platform not currently supported: "@ + p@,
            CodeError::PrerequisitesFailed { name, bullets } => "This machine not meet "@ + name@
                + "'s prerequisites, expected either...: "@ + bullets@,
            CodeError::ProcessSpawnFailed(t) => "failed to spawn process: "@ + t@,
            CodeError::ProcessSpawnHandshakeFailed(t) => "failed to handshake spawned process: "@
                + t@,
            CodeError::CorruptDownload(reason) => "download appears corrupted, please retry ("@
                + reason@ + ")"@,
            CodeError::PortForwardingNotAvailable => "port forwarding is not available in this context"@,
            CodeError::ServerAuthRequired => "'auth' call required"@,
            CodeError::AuthChallengeNotIssued => "challenge not yet issued"@,
            CodeError::AuthChallengeBadToken => "challenge token is invalid"@,
            CodeError::AuthMismatch => "unauthorized client refused"@,
            CodeError::KeyringTimeout => "keyring communication timed out after 5s"@,
        }
    }

    fn render(&self) -> (r: String) {
        match self {
            CodeError::AsyncPipeFailed(t) => {
                let mut s = String::from_str("could not connect to socket/pipe: ");
                s.append(t.as_str());
                s
            },
            CodeError::AsyncPipeListenerFailed(t) => {
                let mut s = String::from_str("could not listen on socket/pipe: ");
                s.append(t.as_str());
                s
            },
            CodeError::SingletonLockfileOpenFailed(t) => {
                let mut s = String::from_str("could not create singleton lock file: ");
                s.append(t.as_str());
                s
            },
            CodeError::SingletonLockfileReadFailed(t) => {
                let mut s = String::from_str("could not read singleton lock file: ");
                s.append(t.as_str());
                s
            },
            CodeError::SingletonLockedProcessExited(pid) => {
                let mut s = String::from_str("the process holding the singleton lock file (pid=");
                append_dec_u64(&mut s, *pid as u64);
                s.append(") exited");
                s
            },
            CodeError::NoRunningTunnel => String::from_str("no tunnel process is currently running"),
            CodeError::TunnelRpcCallFailed(e) => {
                let mut s = String::from_str("rpc call failed: ");
                let d = e.render_debug();
                s.append(d.as_str());
                s
            },
            CodeError::AppAlreadyLocked(name) => {
                let mut s = String::from_str("the windows app lock ");
                s.append(name.as_str());
                s.append(" already exists");
                s
            },
            CodeError::AppLockFailed(t) => {
                let mut s = String::from_str("could not get windows app lock: ");
                s.append(t.as_str());
                s
            },
            CodeError::CommandFailed { command, code, output } => {
                let mut s = String::from_str("failed to run command \"");
                s.append(command.as_str());
                s.append("\" (code ");
                append_dec_i32(&mut s, *code);
                s.append("): ");
                s.append(output.as_str());
                s
            },
            CodeError::UnsupportedPlatform(p) => {
                let mut s = String::from_str("platform not currently supported: ");
                s.append(p.as_str());
                s
            },
            CodeError::PrerequisitesFailed { name, bullets } => {
                let mut s = String::from_str("This machine not meet ");
                s.append(name.as_str());
                s.append("'s prerequisites, expected either...: ");
                s.append(bullets.as_str());
                s
            },
            CodeError::ProcessSpawnFailed(t) => {
                let mut s = String::from_str("failed to spawn process: ");
                s.append(t.as_str());
                s
            },
            CodeError::ProcessSpawnHandshakeFailed(t) => {
                let mut s = String::from_str("failed to handshake spawned process: ");
                s.append(t.as_str());
                s
            },
            CodeError::CorruptDownload(reason) => {
                let mut s = String::from_str("download appears corrupted, please retry (");
                s.append(reason.as_str());
                s.append(")");
                s
            },
            CodeError::PortForwardingNotAvailable => String::from_str(
                "port forwarding is not available in this context",
            ),
            CodeError::ServerAuthRequired => String::from_str("'auth' call required"),
            CodeError::AuthChallengeNotIssued => String::from_str("challenge not yet issued"),
            CodeError::AuthChallengeBadToken => String::from_str("challenge token is invalid"),
            CodeError::AuthMismatch => String::from_str("unauthorized client refused"),
            CodeError::KeyringTimeout => String::from_str(
                "keyring communication timed out after 5s",
            ),
        }
    }
}

/// Every tag renders to a non-empty message, whatever its fields hold: no
/// tag falls back to an empty or placeholder rendering.
pub proof fn lemma_code_error_rendering_nonempty(e: CodeError)
    ensures
        e.text().len() > 0,
{
    reveal_strlit("could not connect to socket/pipe: ");
    reveal_strlit("could not listen on socket/pipe: ");
    reveal_strlit("could not create singleton lock file: ");
    reveal_strlit("could not read singleton lock file: ");
    reveal_strlit("the process holding the singleton lock file (pid=");
    reveal_strlit("no tunnel process is currently running");
    reveal_strlit("rpc call failed: ");
    reveal_strlit("the windows app lock ");
    reveal_strlit("could not get windows app lock: ");
    reveal_strlit("failed to run command \"");
    reveal_strlit("platform not currently supported: ");
    reveal_strlit("This machine not meet ");
    reveal_strlit("failed to spawn process: ");
    reveal_strlit("failed to handshake spawned process: ");
    reveal_strlit("download appears corrupted, please retry (");
    reveal_strlit("port forwarding is not available in this context");
    reveal_strlit("'auth' call required");
    reveal_strlit("challenge not yet issued");
    reveal_strlit("challenge token is invalid");
    reveal_strlit("unauthorized client refused");
    reveal_strlit("keyring communication timed out after 5s");
}

} // verus!
