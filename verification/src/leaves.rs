//! The leaf failure catalogue: each type is a self-contained value for one
//! specific failure condition, with a total rendering whose contract pins
//! the message to the value's fields.
//!
//! Two renderings are diagnostic: they also consult an explicit
//! [`EnvSnapshot`] of the process and environment state, so they stay
//! deterministic given the snapshot.

use vstd::prelude::*;

verus! {

use crate::render::Render;
use crate::snapshot::EnvSnapshot;
use crate::text::{append_dec_u64, dec_text, join_strings, join_text};
use vstd::string::StringExecFns;

/// The port reserved for the control connection.
pub const CONTROL_PORT: u16 = 31545;

/// The user has not consented to the licensing terms.
#[derive(Debug)]
pub struct MissingLegalConsent(pub String);

impl Render for MissingLegalConsent {
    open spec fn text(&self) -> Seq<char> {
        self.0@
    }

    fn render(&self) -> (r: String) {
        self.0.clone()
    }
}

/// The provided connection token does not match the one the server was set
/// up with.
#[derive(Debug)]
pub struct MismatchConnectionToken(pub String);

impl Render for MismatchConnectionToken {
    open spec fn text(&self) -> Seq<char> {
        self.0@
    }

    fn render(&self) -> (r: String) {
        self.0.clone()
    }
}

/// The downloaded server archive has an unrecognized extension.
#[derive(Debug)]
pub struct InvalidServerExtensionError(pub String);

impl Render for InvalidServerExtensionError {
    open spec fn text(&self) -> Seq<char> {
        "invalid server extension '"@ + self.0@ + "'"@
    }

    fn render(&self) -> (r: String) {
        let mut s = String::from_str("invalid server extension '");
        s.append(self.0.as_str());
        s.append("'");
        s
    }
}

/// The tunnel failed to open.
#[derive(Debug, Clone)]
pub struct DevTunnelError(pub String);

impl Render for DevTunnelError {
    open spec fn text(&self) -> Seq<char> {
        "could not open tunnel: "@ + self.0@
    }

    fn render(&self) -> (r: String) {
        let mut s = String::from_str("could not open tunnel: ");
        s.append(self.0.as_str());
        s
    }
}

/// The server was downloaded, but its entrypoint scripts do not exist.
#[derive(Debug)]
pub struct MissingEntrypointError();

impl Render for MissingEntrypointError {
    open spec fn text(&self) -> Seq<char> {
        "Missing entrypoints in server download. Most likely this is a corrupted download. Please retry"@
    }

    fn render(&self) -> (r: String) {
        String::from_str(
            "Missing entrypoints in server download. Most likely this is a corrupted download. Please retry",
        )
    }
}

/// Server setup failed; the rendering points at the documentation.
#[derive(Debug)]
pub struct SetupError(pub String);

impl Render for SetupError {
    open spec fn text(&self) -> Seq<char> {
        "https://code.visualstudio.com/docs"@ + "\n\nMore info at "@ + self.0@ + "/remote/linux"@
    }

    fn render(&self) -> (r: String) {
        let mut s = String::from_str("https://code.visualstudio.com/docs");
        s.append("\n\nMore info at ");
        s.append(self.0.as_str());
        s.append("/remote/linux");
        s
    }
}

/// No `$HOME` variable was found in the environment.
#[derive(Debug)]
pub struct NoHomeForLauncherError();

impl Render for NoHomeForLauncherError {
    open spec fn text(&self) -> Seq<char> {
        "No $HOME variable was found in your environment. Either set it, or specify a `--data-dir` manually when invoking the launcher."@
    }

    fn render(&self) -> (r: String) {
        String::from_str(
            "No $HOME variable was found in your environment. Either set it, or specify a `--data-dir` manually when invoking the launcher.",
        )
    }
}

/// The requested tunnel name was rejected.
#[derive(Debug)]
pub struct InvalidTunnelName(pub String);

impl Render for InvalidTunnelName {
    open spec fn text(&self) -> Seq<char> {
        self.0@
    }

    fn render(&self) -> (r: String) {
        self.0.clone()
    }
}

/// A tunnel with the requested name could not be created; carries the name
/// and the reason.
#[derive(Debug)]
pub struct TunnelCreationFailed(pub String, pub String);

impl Render for TunnelCreationFailed {
    open spec fn text(&self) -> Seq<char> {
        "Could not create tunnel with name: "@ + self.0@ + "\nReason: "@ + self.1@
    }

    fn render(&self) -> (r: String) {
        let mut s = String::from_str("Could not create tunnel with name: ");
        s.append(self.0.as_str());
        s.append("\nReason: ");
        s.append(self.1.as_str());
        s
    }
}

/// Hosting the tunnel failed.
#[derive(Debug)]
pub struct TunnelHostFailed(pub String);

impl Render for TunnelHostFailed {
    open spec fn text(&self) -> Seq<char> {
        self.0@
    }

    fn render(&self) -> (r: String) {
        self.0.clone()
    }
}

/// Installing an editor extension failed.
#[derive(Debug)]
pub struct ExtensionInstallFailed(pub String);

impl Render for ExtensionInstallFailed {
    open spec fn text(&self) -> Seq<char> {
        "Extension install failed: "@ + self.0@
    }

    fn render(&self) -> (r: String) {
        let mut s = String::from_str("Extension install failed: ");
        s.append(self.0.as_str());
        s
    }
}

/// A server is already running, but in a different listening mode than the
/// request asked for.
#[derive(Debug)]
pub struct MismatchedLaunchModeError();

impl Render for MismatchedLaunchModeError {
    open spec fn text(&self) -> Seq<char> {
        "A server is already running, but it was not launched in the same listening mode (port vs. socket) as this request"@
    }

    fn render(&self) -> (r: String) {
        String::from_str(
            "A server is already running, but it was not launched in the same listening mode (port vs. socket) as this request",
        )
    }
}

/// No server is running.
#[derive(Debug)]
pub struct NoAttachedServerError();

impl Render for NoAttachedServerError {
    open spec fn text(&self) -> Seq<char> {
        "No server is running"@
    }

    fn render(&self) -> (r: String) {
        String::from_str("No server is running")
    }
}

/// No refresh token is available; authentication is required first.
#[derive(Debug)]
pub struct RefreshTokenNotAvailableError();

impl Render for RefreshTokenNotAvailableError {
    open spec fn text(&self) -> Seq<char> {
        "Refresh token not available, authentication is required"@
    }

    fn render(&self) -> (r: String) {
        String::from_str("Refresh token not available, authentication is required")
    }
}

/// No installation of the product was found in the path the user provided.
#[derive(Debug)]
pub struct NoInstallInUserProvidedPath(pub String);

impl Render for NoInstallInUserProvidedPath {
    open spec fn text(&self) -> Seq<char> {
        "No Code installation could be found in "@ + self.0@
            + ". You can run `code --use-quality=stable` to switch to the latest stable version of Code."@
    }

    fn render(&self) -> (r: String) {
        let mut s = String::from_str("No Code installation could be found in ");
        s.append(self.0.as_str());
        s.append(
            ". You can run `code --use-quality=stable` to switch to the latest stable version of Code.",
        );
        s
    }
}

/// The requested version string is not one of the accepted forms.
#[derive(Debug)]
pub struct InvalidRequestedVersion();

impl Render for InvalidRequestedVersion {
    open spec fn text(&self) -> Seq<char> {
        "The reqested version is invalid, expected one of 'stable', 'insiders', version number (x.y.z), or absolute path."@
    }

    fn render(&self) -> (r: String) {
        String::from_str(
            "The reqested version is invalid, expected one of 'stable', 'insiders', version number (x.y.z), or absolute path.",
        )
    }
}

/// The user aborted the installation.
#[derive(Debug)]
pub struct UserCancelledInstallation();

impl Render for UserCancelledInstallation {
    open spec fn text(&self) -> Seq<char> {
        "Installation aborted."@
    }

    fn render(&self) -> (r: String) {
        String::from_str("Installation aborted.")
    }
}

/// The control port cannot be forwarded or unforwarded.
#[derive(Debug)]
pub struct CannotForwardControlPort();

impl Render for CannotForwardControlPort {
    open spec fn text(&self) -> Seq<char> {
        "Cannot forward or unforward port "@ + dec_text(CONTROL_PORT as nat) + "."@
    }

    fn render(&self) -> (r: String) {
        let mut s = String::from_str("Cannot forward or unforward port ");
        append_dec_u64(&mut s, CONTROL_PORT as u64);
        s.append(".");
        s
    }
}

/// The request was cancelled because the server has closed.
#[derive(Debug)]
pub struct ServerHasClosed();

impl Render for ServerHasClosed {
    open spec fn text(&self) -> Seq<char> {
        "Request cancelled because the server has closed"@
    }

    fn render(&self) -> (r: String) {
        String::from_str("Request cancelled because the server has closed")
    }
}

/// The update service is not configured; carries the reason.
#[derive(Debug)]
pub struct UpdatesNotConfigured(pub String);

impl UpdatesNotConfigured {
    /// The usual reason: no service URL is configured.
    pub fn no_url() -> (r: Self)
        ensures
            r.0@ == "no service url"@,
    {
        UpdatesNotConfigured(String::from_str("no service url"))
    }
}

impl Render for UpdatesNotConfigured {
    open spec fn text(&self) -> Seq<char> {
        "Update service is not configured: "@ + self.0@
    }

    fn render(&self) -> (r: String) {
        let mut s = String::from_str("Update service is not configured: ");
        s.append(self.0.as_str());
        s
    }
}

/// The OS service is already registered.
#[derive(Debug)]
pub struct ServiceAlreadyRegistered();

impl Render for ServiceAlreadyRegistered {
    open spec fn text(&self) -> Seq<char> {
        "Already registered the service. Run `code tunnel service uninstall` to unregister it first"@
    }

    fn render(&self) -> (r: String) {
        String::from_str(
            "Already registered the service. Run `code tunnel service uninstall` to unregister it first",
        )
    }
}

/// A failure to parse data received over RPC.
#[derive(Debug)]
pub struct InvalidRpcDataError(pub String);

impl Render for InvalidRpcDataError {
    open spec fn text(&self) -> Seq<char> {
        "parse error: "@ + self.0@
    }

    fn render(&self) -> (r: String) {
        let mut s = String::from_str("parse error: ");
        s.append(self.0.as_str());
        s
    }
}

/// A self-update downloaded a corrupted artifact.
#[derive(Debug)]
pub struct CorruptDownload(pub String);

impl Render for CorruptDownload {
    open spec fn text(&self) -> Seq<char> {
        "Error updating the Code CLI: "@ + self.0@
    }

    fn render(&self) -> (r: String) {
        let mut s = String::from_str("Error updating the Code CLI: ");
        s.append(self.0.as_str());
        s
    }
}

/// The home directory could not be determined.
#[derive(Debug)]
pub struct MissingHomeDirectory();

impl Render for MissingHomeDirectory {
    open spec fn text(&self) -> Seq<char> {
        "Could not find your home directory. Please ensure this command is running in the context of an normal user."@
    }

    fn render(&self) -> (r: String) {
        String::from_str(
            "Could not find your home directory. Please ensure this command is running in the context of an normal user.",
        )
    }
}

/// An OAuth flow failed: a required error code, and an optional description.
/// When the description is absent the rendering's trailing field is empty,
/// never a placeholder.
#[derive(Debug)]
pub struct OAuthError {
    /// The error code the authorization endpoint returned.
    pub error: String,
    /// The endpoint's human-readable description, when it sent one.
    pub error_description: Option<String>,
}

impl Render for OAuthError {
    open spec fn text(&self) -> Seq<char> {
        "Error getting authorization: "@ + self.error@ + " "@ + match self.error_description {
            Option::Some(d) => d@,
            Option::None => Seq::<char>::empty(),
        }
    }

    fn render(&self) -> (r: String) {
        let mut s = String::from_str("Error getting authorization: ");
        s.append(self.error.as_str());
        s.append(" ");
        match &self.error_description {
            Option::Some(d) => s.append(d.as_str()),
            Option::None => {},
        }
        proof {
            assert(s@ =~= self.text());
        }
        s
    }
}

/// The fixed guidance lines of the elevation diagnostic, between the
/// caller's message and the re-invocation line.
pub open spec fn elevation_guide_text() -> Seq<char> {
    "\n\nYou may need to run this command as an administrator:\n 1. Open the start menu and search for Powershell\n 2. Right click and 'Run as administrator'\n"@
}

/// The command must be re-run from an elevated shell. The rendering emits a
/// copy-pasteable re-invocation command built from the process snapshot, or
/// a generic instruction when the executable path is unknown.
#[derive(Debug)]
pub struct WindowsNeedsElevation(pub String);

impl WindowsNeedsElevation {
    /// The rendered text, at the spec level, given the process snapshot.
    pub open spec fn text_with(self, env: EnvSnapshot) -> Seq<char> {
        self.0@ + elevation_guide_text() + match env.exe {
            Option::Some(exe) => " 3. Run &'"@ + exe@ + "' '"@ + join_text(
                env.args.deep_view(),
                "' '"@,
            ) + "'\n"@,
            Option::None => " 3. Run the same command again\n"@,
        }
    }

    /// Renders the diagnostic against the given process snapshot.
    pub fn render(&self, env: &EnvSnapshot) -> (r: String)
        ensures
            r@ == self.text_with(*env),
    {
        let mut s = self.0.clone();
        s.append(
            "\n\nYou may need to run this command as an administrator:\n 1. Open the start menu and search for Powershell\n 2. Right click and 'Run as administrator'\n",
        );
        match &env.exe {
            Option::Some(exe) => {
                s.append(" 3. Run &'");
                s.append(exe.as_str());
                s.append("' '");
                let joined = join_strings(&env.args, "' '");
                s.append(joined.as_str());
                s.append("'\n");
            },
            Option::None => {
                s.append(" 3. Run the same command again\n");
            },
        }
        proof {
            assert(s@ =~= self.text_with(*env));
        }
        s
    }
}

/// When the executable path is known, the rendering ends with the
/// re-invocation line naming that path and the quoted, space-joined
/// arguments; when it is unknown, it ends with the generic fallback line
/// instead — never both.
pub proof fn lemma_elevation_line(e: WindowsNeedsElevation, env: EnvSnapshot)
    ensures
        env.exe is Some ==> e.text_with(env) == e.0@ + elevation_guide_text() + (" 3. Run &'"@
            + env.exe->0@ + "' '"@ + join_text(env.args.deep_view(), "' '"@) + "'\n"@),
        env.exe is None ==> e.text_with(env) == e.0@ + elevation_guide_text()
            + " 3. Run the same command again\n"@,
{
}

/// The diagnostic renderings are deterministic given the process and
/// environment state as an explicit parameter: the same value rendered
/// twice against the same snapshot gives the same text.
pub proof fn lemma_diagnostic_rendering_deterministic(
    elevation: WindowsNeedsElevation,
    dbus: DbusConnectFailedError,
    env: EnvSnapshot,
    first: Seq<char>,
    second: Seq<char>,
)
    ensures
        first == elevation.text_with(env) && second == elevation.text_with(env) ==> first
            == second,
        first == dbus.text_with(env) && second == dbus.text_with(env) ==> first == second,
{
}

/// The base sentence of the dbus diagnostic.
pub open spec fn dbus_base_text() -> Seq<char> {
    "Error creating dbus session. This command uses systemd for managing services, you should check that systemd is installed and under your user."@
}

/// The extra note inserted when the WSL marker variable is present.
pub open spec fn dbus_wsl_note_text() -> Seq<char> {
    "\n\nTo enable systemd on WSL, check out: https://devblogs.microsoft.com/commandline/systemd-support-is-now-available-in-wsl/.\n\n"@
}

/// The fixed guidance that precedes the captured failure text.
pub open spec fn dbus_guide_text() -> Seq<char> {
    "If running `systemctl status` works, systemd is ok, but your session dbus may not be. You might need to:\n\n- Install the `dbus-user-session` package, and reboot if it was not installed\n- Start the user dbus session with `systemctl --user enable dbus --now`.\n\nThe error encountered was: "@
}

/// Creating a dbus session failed. The rendering appends extra guidance when
/// the environment snapshot marks a WSL distribution.
#[derive(Debug)]
pub struct DbusConnectFailedError(pub String);

impl DbusConnectFailedError {
    /// The rendered text, at the spec level, given the environment snapshot.
    pub open spec fn text_with(self, env: EnvSnapshot) -> Seq<char> {
        dbus_base_text() + (if env.wsl_distro_set {
            dbus_wsl_note_text()
        } else {
            Seq::<char>::empty()
        }) + dbus_guide_text() + self.0@ + "\n"@
    }

    /// Renders the diagnostic against the given environment snapshot.
    pub fn render(&self, env: &EnvSnapshot) -> (r: String)
        ensures
            r@ == self.text_with(*env),
    {
        let mut s = String::from_str(
            "Error creating dbus session. This command uses systemd for managing services, you should check that systemd is installed and under your user.",
        );
        if env.wsl_distro_set {
            s.append(
                "\n\nTo enable systemd on WSL, check out: https://devblogs.microsoft.com/commandline/systemd-support-is-now-available-in-wsl/.\n\n",
            );
        }
        s.append(
            "If running `systemctl status` works, systemd is ok, but your session dbus may not be. You might need to:\n\n- Install the `dbus-user-session` package, and reboot if it was not installed\n- Start the user dbus session with `systemctl --user enable dbus --now`.\n\nThe error encountered was: ",
        );
        s.append(self.0.as_str());
        s.append("\n");
        proof {
            assert(s@ =~= self.text_with(*env));
        }
        s
    }
}

/// The environment changes only the presence of the WSL note: the base
/// sentence before it, and the guidance and captured failure text after it,
/// are the same whether or not the marker variable is set.
pub proof fn lemma_dbus_note_only_difference(
    e: DbusConnectFailedError,
    with_wsl: EnvSnapshot,
    without_wsl: EnvSnapshot,
)
    requires
        with_wsl.wsl_distro_set,
        !without_wsl.wsl_distro_set,
    ensures
        e.text_with(with_wsl) == dbus_base_text() + dbus_wsl_note_text() + (dbus_guide_text()
            + e.0@ + "\n"@),
        e.text_with(without_wsl) == dbus_base_text() + (dbus_guide_text() + e.0@ + "\n"@),
{
    assert(e.text_with(with_wsl) =~= dbus_base_text() + dbus_wsl_note_text() + (dbus_guide_text()
        + e.0@ + "\n"@));
    assert(e.text_with(without_wsl) =~= dbus_base_text() + (dbus_guide_text() + e.0@ + "\n"@));
}

} // verus!
