//! Tests for the leaf failure catalogue's renderings, including the two
//! diagnostic renderings that consult an environment snapshot.

use cli_errors::{
    CannotForwardControlPort, CorruptDownload, DbusConnectFailedError, EnvSnapshot,
    ExtensionInstallFailed, InvalidRequestedVersion, InvalidRpcDataError,
    InvalidServerExtensionError, InvalidTunnelName, MismatchConnectionToken,
    MismatchedLaunchModeError, MissingEntrypointError, MissingHomeDirectory, MissingLegalConsent,
    NoAttachedServerError, NoHomeForLauncherError, NoInstallInUserProvidedPath, OAuthError,
    RefreshTokenNotAvailableError, Render, ServerHasClosed, ServiceAlreadyRegistered, SetupError,
    TunnelCreationFailed, TunnelHostFailed, UpdatesNotConfigured, UserCancelledInstallation,
    WindowsNeedsElevation,
};

#[test]
fn passthrough_leaves_render_their_text() {
    assert_eq!(MissingLegalConsent(String::from("consent!")).render(), "consent!");
    assert_eq!(MismatchConnectionToken(String::from("token")).render(), "token");
    assert_eq!(InvalidTunnelName(String::from("bad name")).render(), "bad name");
    assert_eq!(TunnelHostFailed(String::from("host gone")).render(), "host gone");
}

#[test]
fn fixed_sentence_leaves() {
    assert_eq!(
        MissingEntrypointError().render(),
        "Missing entrypoints in server download. Most likely this is a corrupted download. Please retry"
    );
    assert_eq!(
        NoHomeForLauncherError().render(),
        "No $HOME variable was found in your environment. Either set it, or specify a `--data-dir` manually when invoking the launcher."
    );
    assert_eq!(
        MismatchedLaunchModeError().render(),
        "A server is already running, but it was not launched in the same listening mode (port vs. socket) as this request"
    );
    assert_eq!(NoAttachedServerError().render(), "No server is running");
    assert_eq!(
        RefreshTokenNotAvailableError().render(),
        "Refresh token not available, authentication is required"
    );
    assert_eq!(
        InvalidRequestedVersion().render(),
        "The reqested version is invalid, expected one of 'stable', 'insiders', version number (x.y.z), or absolute path."
    );
    assert_eq!(UserCancelledInstallation().render(), "Installation aborted.");
    assert_eq!(
        ServerHasClosed().render(),
        "Request cancelled because the server has closed"
    );
    assert_eq!(
        MissingHomeDirectory().render(),
        "Could not find your home directory. Please ensure this command is running in the context of an normal user."
    );
    assert_eq!(
        ServiceAlreadyRegistered().render(),
        "Already registered the service. Run `code tunnel service uninstall` to unregister it first"
    );
}

#[test]
fn interpolating_leaves() {
    assert_eq!(
        InvalidServerExtensionError(String::from("rar")).render(),
        "invalid server extension 'rar'"
    );
    assert_eq!(
        ExtensionInstallFailed(String::from("no network")).render(),
        "Extension install failed: no network"
    );
    assert_eq!(
        TunnelCreationFailed(String::from("mytunnel"), String::from("name taken")).render(),
        "Could not create tunnel with name: mytunnel\nReason: name taken"
    );
    assert_eq!(
        NoInstallInUserProvidedPath(String::from("/opt/app")).render(),
        "No Code installation could be found in /opt/app. You can run `code --use-quality=stable` to switch to the latest stable version of Code."
    );
    assert_eq!(
        SetupError(String::from("setup died")).render(),
        "https://code.visualstudio.com/docs\n\nMore info at setup died/remote/linux"
    );
    assert_eq!(
        InvalidRpcDataError(String::from("bad frame")).render(),
        "parse error: bad frame"
    );
    assert_eq!(
        CorruptDownload(String::from("hash mismatch")).render(),
        "Error updating the Code CLI: hash mismatch"
    );
}

#[test]
fn control_port_rendering_has_exact_port_number() {
    assert_eq!(
        CannotForwardControlPort().render(),
        "Cannot forward or unforward port 31545."
    );
}

#[test]
fn updates_not_configured_no_url() {
    let u = UpdatesNotConfigured::no_url();
    assert_eq!(u.render(), "Update service is not configured: no service url");
}

#[test]
fn oauth_error_with_description() {
    let e = OAuthError {
        error: String::from("access_denied"),
        error_description: Some(String::from("user closed the window")),
    };
    assert_eq!(
        e.render(),
        "Error getting authorization: access_denied user closed the window"
    );
}

#[test]
fn oauth_error_without_description_has_empty_trailing_field() {
    let e = OAuthError { error: String::from("access_denied"), error_description: None };
    assert_eq!(e.render(), "Error getting authorization: access_denied ");
}

#[test]
fn leaf_rendering_is_deterministic() {
    let e = TunnelCreationFailed(String::from("t"), String::from("r"));
    assert_eq!(e.render(), e.render());
    let d = DbusConnectFailedError(String::from("x"));
    let env = EnvSnapshot::unknown();
    assert_eq!(d.render(&env), d.render(&env));
}

#[test]
fn elevation_rendering_with_known_executable() {
    let e = WindowsNeedsElevation(String::from("Access denied to the service manager"));
    let env = EnvSnapshot {
        exe: Some(String::from("C:\\bin\\code.exe")),
        args: vec![
            String::from("tunnel"),
            String::from("service"),
            String::from("install"),
        ],
        wsl_distro_set: false,
    };
    let rendered = e.render(&env);
    assert_eq!(
        rendered,
        "Access denied to the service manager\n\nYou may need to run this command as an administrator:\n 1. Open the start menu and search for Powershell\n 2. Right click and 'Run as administrator'\n 3. Run &'C:\\bin\\code.exe' 'tunnel' 'service' 'install'\n"
    );
    assert!(rendered.contains("C:\\bin\\code.exe"));
    assert!(rendered.contains("'tunnel' 'service' 'install'"));
    assert!(!rendered.contains("Run the same command again"));
}

#[test]
fn elevation_rendering_with_unknown_executable_falls_back() {
    let e = WindowsNeedsElevation(String::from("Access denied"));
    let env = EnvSnapshot { exe: None, args: vec![String::from("ignored")], wsl_distro_set: false };
    let rendered = e.render(&env);
    assert_eq!(
        rendered,
        "Access denied\n\nYou may need to run this command as an administrator:\n 1. Open the start menu and search for Powershell\n 2. Right click and 'Run as administrator'\n 3. Run the same command again\n"
    );
    assert!(!rendered.contains("Run &'"));
}

#[test]
fn elevation_rendering_with_no_arguments() {
    let e = WindowsNeedsElevation(String::from("m"));
    let env = EnvSnapshot {
        exe: Some(String::from("app.exe")),
        args: Vec::new(),
        wsl_distro_set: false,
    };
    assert!(e.render(&env).ends_with(" 3. Run &'app.exe' ''\n"));
}

#[test]
fn dbus_rendering_without_wsl_marker() {
    let e = DbusConnectFailedError(String::from("connection refused"));
    let env = EnvSnapshot::unknown();
    let rendered = e.render(&env);
    assert_eq!(
        rendered,
        "Error creating dbus session. This command uses systemd for managing services, you should check that systemd is installed and under your user.If running `systemctl status` works, systemd is ok, but your session dbus may not be. You might need to:\n\n- Install the `dbus-user-session` package, and reboot if it was not installed\n- Start the user dbus session with `systemctl --user enable dbus --now`.\n\nThe error encountered was: connection refused\n"
    );
}

#[test]
fn dbus_rendering_wsl_marker_only_inserts_the_note() {
    let e = DbusConnectFailedError(String::from("connection refused"));
    let with = EnvSnapshot { exe: None, args: Vec::new(), wsl_distro_set: true };
    let without = EnvSnapshot { exe: None, args: Vec::new(), wsl_distro_set: false };
    let r_with = e.render(&with);
    let r_without = e.render(&without);
    let note = "\n\nTo enable systemd on WSL, check out: https://devblogs.microsoft.com/commandline/systemd-support-is-now-available-in-wsl/.\n\n";
    assert!(r_with.contains(note));
    assert!(!r_without.contains(note));
    let base = "Error creating dbus session. This command uses systemd for managing services, you should check that systemd is installed and under your user.";
    assert!(r_with.starts_with(base));
    assert!(r_without.starts_with(base));
    assert!(r_with.ends_with("The error encountered was: connection refused\n"));
    assert!(r_without.ends_with("The error encountered was: connection refused\n"));
    assert_eq!(r_with.replace(note, ""), r_without);
}
