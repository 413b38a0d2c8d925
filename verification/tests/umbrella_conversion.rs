//! Tests for the umbrella type: conversion from every registered failure
//! type and rendering that matches the contained value's own rendering.

use cli_errors::{
    AnyError, CannotForwardControlPort, CodeError, CorruptDownload, DbusConnectFailedError,
    DevTunnelError, EnvSnapshot, ExtensionInstallFailed, InvalidRequestedVersion,
    InvalidRpcDataError, InvalidServerExtensionError, InvalidTunnelName, MismatchConnectionToken,
    MismatchedLaunchModeError, MissingEntrypointError, MissingHomeDirectory, MissingLegalConsent,
    NoAttachedServerError, NoHomeForLauncherError, NoInstallInUserProvidedPath, OAuthError,
    RefreshTokenNotAvailableError, Render, ResponseError, ServerHasClosed,
    ServiceAlreadyRegistered, SetupError, StatusError, TunnelCreationFailed, TunnelHostFailed,
    UpdatesNotConfigured, UserCancelledInstallation, WindowsNeedsElevation, WrappedError,
};

fn assert_round_trip<T: Render + Clone>(leaf: T)
where
    AnyError: From<T>,
{
    let direct = leaf.render();
    let lifted: AnyError = leaf.into();
    assert_eq!(lifted.render(&EnvSnapshot::unknown()), direct);
}

#[test]
fn umbrella_rendering_round_trips_for_pure_leaves() {
    assert_round_trip(DevTunnelError(String::from("x")));
    let env = EnvSnapshot::unknown();

    let cases: Vec<(AnyError, String)> = vec![
        (MissingLegalConsent(String::from("consent")).into(), String::from("consent")),
        (
            MismatchConnectionToken(String::from("token mismatch")).into(),
            String::from("token mismatch"),
        ),
        (
            InvalidServerExtensionError(String::from("rar")).into(),
            InvalidServerExtensionError(String::from("rar")).render(),
        ),
        (
            MissingEntrypointError().into(),
            MissingEntrypointError().render(),
        ),
        (SetupError(String::from("s")).into(), SetupError(String::from("s")).render()),
        (NoHomeForLauncherError().into(), NoHomeForLauncherError().render()),
        (
            TunnelCreationFailed(String::from("a"), String::from("b")).into(),
            TunnelCreationFailed(String::from("a"), String::from("b")).render(),
        ),
        (TunnelHostFailed(String::from("h")).into(), TunnelHostFailed(String::from("h")).render()),
        (InvalidTunnelName(String::from("n")).into(), String::from("n")),
        (
            ExtensionInstallFailed(String::from("e")).into(),
            ExtensionInstallFailed(String::from("e")).render(),
        ),
        (MismatchedLaunchModeError().into(), MismatchedLaunchModeError().render()),
        (NoAttachedServerError().into(), NoAttachedServerError().render()),
        (RefreshTokenNotAvailableError().into(), RefreshTokenNotAvailableError().render()),
        (
            NoInstallInUserProvidedPath(String::from("/p")).into(),
            NoInstallInUserProvidedPath(String::from("/p")).render(),
        ),
        (UserCancelledInstallation().into(), UserCancelledInstallation().render()),
        (InvalidRequestedVersion().into(), InvalidRequestedVersion().render()),
        (CannotForwardControlPort().into(), CannotForwardControlPort().render()),
        (ServerHasClosed().into(), ServerHasClosed().render()),
        (ServiceAlreadyRegistered().into(), ServiceAlreadyRegistered().render()),
        (
            UpdatesNotConfigured::no_url().into(),
            UpdatesNotConfigured::no_url().render(),
        ),
        (
            CorruptDownload(String::from("bad")).into(),
            CorruptDownload(String::from("bad")).render(),
        ),
        (MissingHomeDirectory().into(), MissingHomeDirectory().render()),
        (
            OAuthError { error: String::from("e"), error_description: None }.into(),
            OAuthError { error: String::from("e"), error_description: None }.render(),
        ),
        (
            InvalidRpcDataError(String::from("d")).into(),
            InvalidRpcDataError(String::from("d")).render(),
        ),
        (
            StatusError {
                url: String::from("u"),
                status_code: 404,
                body: String::from("b"),
            }
                .into(),
            StatusError {
                url: String::from("u"),
                status_code: 404,
                body: String::from("b"),
            }
                .render(),
        ),
        (
            WrappedError::new(String::from("m"), String::from("o")).into(),
            WrappedError::new(String::from("m"), String::from("o")).render(),
        ),
        (
            CodeError::TunnelRpcCallFailed(ResponseError {
                code: 2,
                message: String::from("r"),
            })
                .into(),
            CodeError::TunnelRpcCallFailed(ResponseError {
                code: 2,
                message: String::from("r"),
            })
                .render(),
        ),
    ];
    for (lifted, direct) in cases {
        assert_eq!(lifted.render(&env), direct);
    }
}

#[test]
fn umbrella_rendering_round_trips_for_diagnostic_leaves() {
    let env = EnvSnapshot {
        exe: Some(String::from("/usr/bin/app")),
        args: vec![String::from("tunnel")],
        wsl_distro_set: true,
    };
    let elevation = WindowsNeedsElevation(String::from("m"));
    let lifted: AnyError = WindowsNeedsElevation(String::from("m")).into();
    assert_eq!(lifted.render(&env), elevation.render(&env));

    let dbus = DbusConnectFailedError(String::from("d"));
    let lifted: AnyError = DbusConnectFailedError(String::from("d")).into();
    assert_eq!(lifted.render(&env), dbus.render(&env));
}

#[test]
fn umbrella_propagates_through_question_mark() {
    fn fails() -> Result<(), AnyError> {
        Err(DevTunnelError(String::from("closed")))?;
        Ok(())
    }
    let e = fails().unwrap_err();
    assert_eq!(
        e.render(&EnvSnapshot::unknown()),
        "could not open tunnel: closed"
    );
}
