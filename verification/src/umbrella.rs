//! The umbrella failure type: a closed tagged union with one case per
//! registered failure type. Every registered type converts into it through
//! `From`, so a fallible expression can propagate any of them through one
//! exit path, and rendering delegates to the contained value with no
//! default arm: every case is user-presentable.

use vstd::prelude::*;

verus! {

use crate::code::CodeError;
use crate::leaves::{
    CannotForwardControlPort, CorruptDownload, DbusConnectFailedError, DevTunnelError,
    ExtensionInstallFailed, InvalidRequestedVersion, InvalidRpcDataError,
    InvalidServerExtensionError, InvalidTunnelName, MismatchConnectionToken,
    MismatchedLaunchModeError, MissingEntrypointError, MissingHomeDirectory, MissingLegalConsent,
    NoAttachedServerError, NoHomeForLauncherError, NoInstallInUserProvidedPath, OAuthError,
    RefreshTokenNotAvailableError, ServerHasClosed, ServiceAlreadyRegistered, SetupError,
    TunnelCreationFailed, TunnelHostFailed, UpdatesNotConfigured, UserCancelledInstallation,
    WindowsNeedsElevation,
};
use crate::render::Render;
use crate::snapshot::EnvSnapshot;
use crate::status::StatusError;
use crate::wrapped::{network_message_text, WrappedError};
use vstd::std_specs::convert::FromSpec;

/// One case per registered failure type, each owning its value.
#[derive(Debug)]
pub enum AnyError {
    /// Holds a [`MissingLegalConsent`].
    MissingLegalConsent(MissingLegalConsent),
    /// Holds a [`MismatchConnectionToken`].
    MismatchConnectionToken(MismatchConnectionToken),
    /// Holds a [`DevTunnelError`].
    DevTunnelError(DevTunnelError),
    /// Holds a [`StatusError`].
    StatusError(StatusError),
    /// Holds a [`WrappedError`].
    WrappedError(WrappedError),
    /// Holds a [`InvalidServerExtensionError`].
    InvalidServerExtensionError(InvalidServerExtensionError),
    /// Holds a [`MissingEntrypointError`].
    MissingEntrypointError(MissingEntrypointError),
    /// Holds a [`SetupError`].
    SetupError(SetupError),
    /// Holds a [`NoHomeForLauncherError`].
    NoHomeForLauncherError(NoHomeForLauncherError),
    /// Holds a [`TunnelCreationFailed`].
    TunnelCreationFailed(TunnelCreationFailed),
    /// Holds a [`TunnelHostFailed`].
    TunnelHostFailed(TunnelHostFailed),
    /// Holds a [`InvalidTunnelName`].
    InvalidTunnelName(InvalidTunnelName),
    /// Holds a [`ExtensionInstallFailed`].
    ExtensionInstallFailed(ExtensionInstallFailed),
    /// Holds a [`MismatchedLaunchModeError`].
    MismatchedLaunchModeError(MismatchedLaunchModeError),
    /// Holds a [`NoAttachedServerError`].
    NoAttachedServerError(NoAttachedServerError),
    /// Holds a [`RefreshTokenNotAvailableError`].
    RefreshTokenNotAvailableError(RefreshTokenNotAvailableError),
    /// Holds a [`NoInstallInUserProvidedPath`].
    NoInstallInUserProvidedPath(NoInstallInUserProvidedPath),
    /// Holds a [`UserCancelledInstallation`].
    UserCancelledInstallation(UserCancelledInstallation),
    /// Holds a [`InvalidRequestedVersion`].
    InvalidRequestedVersion(InvalidRequestedVersion),
    /// Holds a [`CannotForwardControlPort`].
    CannotForwardControlPort(CannotForwardControlPort),
    /// Holds a [`ServerHasClosed`].
    ServerHasClosed(ServerHasClosed),
    /// Holds a [`ServiceAlreadyRegistered`].
    ServiceAlreadyRegistered(ServiceAlreadyRegistered),
    /// Holds a [`WindowsNeedsElevation`].
    WindowsNeedsElevation(WindowsNeedsElevation),
    /// Holds a [`UpdatesNotConfigured`].
    UpdatesNotConfigured(UpdatesNotConfigured),
    /// Holds a [`CorruptDownload`].
    CorruptDownload(CorruptDownload),
    /// Holds a [`MissingHomeDirectory`].
    MissingHomeDirectory(MissingHomeDirectory),
    /// Holds a [`OAuthError`].
    OAuthError(OAuthError),
    /// Holds a [`InvalidRpcDataError`].
    InvalidRpcDataError(InvalidRpcDataError),
    /// Holds a [`CodeError`].
    CodeError(CodeError),
    /// Holds a [`DbusConnectFailedError`].
    DbusConnectFailedError(DbusConnectFailedError),
}

impl AnyError {
    /// The rendered text, at the spec level: that of the contained value,
    /// given the environment snapshot the diagnostic renderings consult.
    pub open spec fn text_with(self, env: EnvSnapshot) -> Seq<char> {
        match self {
            AnyError::MissingLegalConsent(e) => e.text(),
            AnyError::MismatchConnectionToken(e) => e.text(),
            AnyError::DevTunnelError(e) => e.text(),
            AnyError::StatusError(e) => e.text(),
            AnyError::WrappedError(e) => e.text(),
            AnyError::InvalidServerExtensionError(e) => e.text(),
            AnyError::MissingEntrypointError(e) => e.text(),
            AnyError::SetupError(e) => e.text(),
            AnyError::NoHomeForLauncherError(e) => e.text(),
            AnyError::TunnelCreationFailed(e) => e.text(),
            AnyError::TunnelHostFailed(e) => e.text(),
            AnyError::InvalidTunnelName(e) => e.text(),
            AnyError::ExtensionInstallFailed(e) => e.text(),
            AnyError::MismatchedLaunchModeError(e) => e.text(),
            AnyError::NoAttachedServerError(e) => e.text(),
            AnyError::RefreshTokenNotAvailableError(e) => e.text(),
            AnyError::NoInstallInUserProvidedPath(e) => e.text(),
            AnyError::UserCancelledInstallation(e) => e.text(),
            AnyError::InvalidRequestedVersion(e) => e.text(),
            AnyError::CannotForwardControlPort(e) => e.text(),
            AnyError::ServerHasClosed(e) => e.text(),
            AnyError::ServiceAlreadyRegistered(e) => e.text(),
            AnyError::WindowsNeedsElevation(e) => e.text_with(env),
            AnyError::UpdatesNotConfigured(e) => e.text(),
            AnyError::CorruptDownload(e) => e.text(),
            AnyError::MissingHomeDirectory(e) => e.text(),
            AnyError::OAuthError(e) => e.text(),
            AnyError::InvalidRpcDataError(e) => e.text(),
            AnyError::CodeError(e) => e.text(),
            AnyError::DbusConnectFailedError(e) => e.text_with(env),
        }
    }

    /// Renders the failure by delegating to the contained value's own
    /// rendering.
    pub fn render(&self, env: &EnvSnapshot) -> (r: String)
        ensures
            r@ == self.text_with(*env),
    {
        match self {
            AnyError::MissingLegalConsent(e) => e.render(),
            AnyError::MismatchConnectionToken(e) => e.render(),
            AnyError::DevTunnelError(e) => e.render(),
            AnyError::StatusError(e) => e.render(),
            AnyError::WrappedError(e) => e.render(),
            AnyError::InvalidServerExtensionError(e) => e.render(),
            AnyError::MissingEntrypointError(e) => e.render(),
            AnyError::SetupError(e) => e.render(),
            AnyError::NoHomeForLauncherError(e) => e.render(),
            AnyError::TunnelCreationFailed(e) => e.render(),
            AnyError::TunnelHostFailed(e) => e.render(),
            AnyError::InvalidTunnelName(e) => e.render(),
            AnyError::ExtensionInstallFailed(e) => e.render(),
            AnyError::MismatchedLaunchModeError(e) => e.render(),
            AnyError::NoAttachedServerError(e) => e.render(),
            AnyError::RefreshTokenNotAvailableError(e) => e.render(),
            AnyError::NoInstallInUserProvidedPath(e) => e.render(),
            AnyError::UserCancelledInstallation(e) => e.render(),
            AnyError::InvalidRequestedVersion(e) => e.render(),
            AnyError::CannotForwardControlPort(e) => e.render(),
            AnyError::ServerHasClosed(e) => e.render(),
            AnyError::ServiceAlreadyRegistered(e) => e.render(),
            AnyError::WindowsNeedsElevation(e) => e.render(env),
            AnyError::UpdatesNotConfigured(e) => e.render(),
            AnyError::CorruptDownload(e) => e.render(),
            AnyError::MissingHomeDirectory(e) => e.render(),
            AnyError::OAuthError(e) => e.render(),
            AnyError::InvalidRpcDataError(e) => e.render(),
            AnyError::CodeError(e) => e.render(),
            AnyError::DbusConnectFailedError(e) => e.render(env),
        }
    }
}

impl From<MissingLegalConsent> for AnyError {
    fn from(e: MissingLegalConsent) -> (r: AnyError) {
        AnyError::MissingLegalConsent(e)
    }
}

impl vstd::std_specs::convert::FromSpecImpl<MissingLegalConsent> for AnyError {
    open spec fn obeys_from_spec() -> bool {
        true
    }

    open spec fn from_spec(e: MissingLegalConsent) -> AnyError {
        AnyError::MissingLegalConsent(e)
    }
}

impl From<MismatchConnectionToken> for AnyError {
    fn from(e: MismatchConnectionToken) -> (r: AnyError) {
        AnyError::MismatchConnectionToken(e)
    }
}

impl vstd::std_specs::convert::FromSpecImpl<MismatchConnectionToken> for AnyError {
    open spec fn obeys_from_spec() -> bool {
        true
    }

    open spec fn from_spec(e: MismatchConnectionToken) -> AnyError {
        AnyError::MismatchConnectionToken(e)
    }
}

impl From<DevTunnelError> for AnyError {
    fn from(e: DevTunnelError) -> (r: AnyError) {
        AnyError::DevTunnelError(e)
    }
}

impl vstd::std_specs::convert::FromSpecImpl<DevTunnelError> for AnyError {
    open spec fn obeys_from_spec() -> bool {
        true
    }

    open spec fn from_spec(e: DevTunnelError) -> AnyError {
        AnyError::DevTunnelError(e)
    }
}

impl From<StatusError> for AnyError {
    fn from(e: StatusError) -> (r: AnyError) {
        AnyError::StatusError(e)
    }
}

impl vstd::std_specs::convert::FromSpecImpl<StatusError> for AnyError {
    open spec fn obeys_from_spec() -> bool {
        true
    }

    open spec fn from_spec(e: StatusError) -> AnyError {
        AnyError::StatusError(e)
    }
}

impl From<WrappedError> for AnyError {
    fn from(e: WrappedError) -> (r: AnyError) {
        AnyError::WrappedError(e)
    }
}

impl vstd::std_specs::convert::FromSpecImpl<WrappedError> for AnyError {
    open spec fn obeys_from_spec() -> bool {
        true
    }

    open spec fn from_spec(e: WrappedError) -> AnyError {
        AnyError::WrappedError(e)
    }
}

impl From<InvalidServerExtensionError> for AnyError {
    fn from(e: InvalidServerExtensionError) -> (r: AnyError) {
        AnyError::InvalidServerExtensionError(e)
    }
}

impl vstd::std_specs::convert::FromSpecImpl<InvalidServerExtensionError> for AnyError {
    open spec fn obeys_from_spec() -> bool {
        true
    }

    open spec fn from_spec(e: InvalidServerExtensionError) -> AnyError {
        AnyError::InvalidServerExtensionError(e)
    }
}

impl From<MissingEntrypointError> for AnyError {
    fn from(e: MissingEntrypointError) -> (r: AnyError) {
        AnyError::MissingEntrypointError(e)
    }
}

impl vstd::std_specs::convert::FromSpecImpl<MissingEntrypointError> for AnyError {
    open spec fn obeys_from_spec() -> bool {
        true
    }

    open spec fn from_spec(e: MissingEntrypointError) -> AnyError {
        AnyError::MissingEntrypointError(e)
    }
}

impl From<SetupError> for AnyError {
    fn from(e: SetupError) -> (r: AnyError) {
        AnyError::SetupError(e)
    }
}

impl vstd::std_specs::convert::FromSpecImpl<SetupError> for AnyError {
    open spec fn obeys_from_spec() -> bool {
        true
    }

    open spec fn from_spec(e: SetupError) -> AnyError {
        AnyError::SetupError(e)
    }
}

impl From<NoHomeForLauncherError> for AnyError {
    fn from(e: NoHomeForLauncherError) -> (r: AnyError) {
        AnyError::NoHomeForLauncherError(e)
    }
}

impl vstd::std_specs::convert::FromSpecImpl<NoHomeForLauncherError> for AnyError {
    open spec fn obeys_from_spec() -> bool {
        true
    }

    open spec fn from_spec(e: NoHomeForLauncherError) -> AnyError {
        AnyError::NoHomeForLauncherError(e)
    }
}

impl From<TunnelCreationFailed> for AnyError {
    fn from(e: TunnelCreationFailed) -> (r: AnyError) {
        AnyError::TunnelCreationFailed(e)
    }
}

impl vstd::std_specs::convert::FromSpecImpl<TunnelCreationFailed> for AnyError {
    open spec fn obeys_from_spec() -> bool {
        true
    }

    open spec fn from_spec(e: TunnelCreationFailed) -> AnyError {
        AnyError::TunnelCreationFailed(e)
    }
}

impl From<TunnelHostFailed> for AnyError {
    fn from(e: TunnelHostFailed) -> (r: AnyError) {
        AnyError::TunnelHostFailed(e)
    }
}

impl vstd::std_specs::convert::FromSpecImpl<TunnelHostFailed> for AnyError {
    open spec fn obeys_from_spec() -> bool {
        true
    }

    open spec fn from_spec(e: TunnelHostFailed) -> AnyError {
        AnyError::TunnelHostFailed(e)
    }
}

impl From<InvalidTunnelName> for AnyError {
    fn from(e: InvalidTunnelName) -> (r: AnyError) {
        AnyError::InvalidTunnelName(e)
    }
}

impl vstd::std_specs::convert::FromSpecImpl<InvalidTunnelName> for AnyError {
    open spec fn obeys_from_spec() -> bool {
        true
    }

    open spec fn from_spec(e: InvalidTunnelName) -> AnyError {
        AnyError::InvalidTunnelName(e)
    }
}

impl From<ExtensionInstallFailed> for AnyError {
    fn from(e: ExtensionInstallFailed) -> (r: AnyError) {
        AnyError::ExtensionInstallFailed(e)
    }
}

impl vstd::std_specs::convert::FromSpecImpl<ExtensionInstallFailed> for AnyError {
    open spec fn obeys_from_spec() -> bool {
        true
    }

    open spec fn from_spec(e: ExtensionInstallFailed) -> AnyError {
        AnyError::ExtensionInstallFailed(e)
    }
}

impl From<MismatchedLaunchModeError> for AnyError {
    fn from(e: MismatchedLaunchModeError) -> (r: AnyError) {
        AnyError::MismatchedLaunchModeError(e)
    }
}

impl vstd::std_specs::convert::FromSpecImpl<MismatchedLaunchModeError> for AnyError {
    open spec fn obeys_from_spec() -> bool {
        true
    }

    open spec fn from_spec(e: MismatchedLaunchModeError) -> AnyError {
        AnyError::MismatchedLaunchModeError(e)
    }
}

impl From<NoAttachedServerError> for AnyError {
    fn from(e: NoAttachedServerError) -> (r: AnyError) {
        AnyError::NoAttachedServerError(e)
    }
}

impl vstd::std_specs::convert::FromSpecImpl<NoAttachedServerError> for AnyError {
    open spec fn obeys_from_spec() -> bool {
        true
    }

    open spec fn from_spec(e: NoAttachedServerError) -> AnyError {
        AnyError::NoAttachedServerError(e)
    }
}

impl From<RefreshTokenNotAvailableError> for AnyError {
    fn from(e: RefreshTokenNotAvailableError) -> (r: AnyError) {
        AnyError::RefreshTokenNotAvailableError(e)
    }
}

impl vstd::std_specs::convert::FromSpecImpl<RefreshTokenNotAvailableError> for AnyError {
    open spec fn obeys_from_spec() -> bool {
        true
    }

    open spec fn from_spec(e: RefreshTokenNotAvailableError) -> AnyError {
        AnyError::RefreshTokenNotAvailableError(e)
    }
}

impl From<NoInstallInUserProvidedPath> for AnyError {
    fn from(e: NoInstallInUserProvidedPath) -> (r: AnyError) {
        AnyError::NoInstallInUserProvidedPath(e)
    }
}

impl vstd::std_specs::convert::FromSpecImpl<NoInstallInUserProvidedPath> for AnyError {
    open spec fn obeys_from_spec() -> bool {
        true
    }

    open spec fn from_spec(e: NoInstallInUserProvidedPath) -> AnyError {
        AnyError::NoInstallInUserProvidedPath(e)
    }
}

impl From<UserCancelledInstallation> for AnyError {
    fn from(e: UserCancelledInstallation) -> (r: AnyError) {
        AnyError::UserCancelledInstallation(e)
    }
}

impl vstd::std_specs::convert::FromSpecImpl<UserCancelledInstallation> for AnyError {
    open spec fn obeys_from_spec() -> bool {
        true
    }

    open spec fn from_spec(e: UserCancelledInstallation) -> AnyError {
        AnyError::UserCancelledInstallation(e)
    }
}

impl From<InvalidRequestedVersion> for AnyError {
    fn from(e: InvalidRequestedVersion) -> (r: AnyError) {
        AnyError::InvalidRequestedVersion(e)
    }
}

impl vstd::std_specs::convert::FromSpecImpl<InvalidRequestedVersion> for AnyError {
    open spec fn obeys_from_spec() -> bool {
        true
    }

    open spec fn from_spec(e: InvalidRequestedVersion) -> AnyError {
        AnyError::InvalidRequestedVersion(e)
    }
}

impl From<CannotForwardControlPort> for AnyError {
    fn from(e: CannotForwardControlPort) -> (r: AnyError) {
        AnyError::CannotForwardControlPort(e)
    }
}

impl vstd::std_specs::convert::FromSpecImpl<CannotForwardControlPort> for AnyError {
    open spec fn obeys_from_spec() -> bool {
        true
    }

    open spec fn from_spec(e: CannotForwardControlPort) -> AnyError {
        AnyError::CannotForwardControlPort(e)
    }
}

impl From<ServerHasClosed> for AnyError {
    fn from(e: ServerHasClosed) -> (r: AnyError) {
        AnyError::ServerHasClosed(e)
    }
}

impl vstd::std_specs::convert::FromSpecImpl<ServerHasClosed> for AnyError {
    open spec fn obeys_from_spec() -> bool {
        true
    }

    open spec fn from_spec(e: ServerHasClosed) -> AnyError {
        AnyError::ServerHasClosed(e)
    }
}

impl From<ServiceAlreadyRegistered> for AnyError {
    fn from(e: ServiceAlreadyRegistered) -> (r: AnyError) {
        AnyError::ServiceAlreadyRegistered(e)
    }
}

impl vstd::std_specs::convert::FromSpecImpl<ServiceAlreadyRegistered> for AnyError {
    open spec fn obeys_from_spec() -> bool {
        true
    }

    open spec fn from_spec(e: ServiceAlreadyRegistered) -> AnyError {
        AnyError::ServiceAlreadyRegistered(e)
    }
}

impl From<WindowsNeedsElevation> for AnyError {
    fn from(e: WindowsNeedsElevation) -> (r: AnyError) {
        AnyError::WindowsNeedsElevation(e)
    }
}

impl vstd::std_specs::convert::FromSpecImpl<WindowsNeedsElevation> for AnyError {
    open spec fn obeys_from_spec() -> bool {
        true
    }

    open spec fn from_spec(e: WindowsNeedsElevation) -> AnyError {
        AnyError::WindowsNeedsElevation(e)
    }
}

impl From<UpdatesNotConfigured> for AnyError {
    fn from(e: UpdatesNotConfigured) -> (r: AnyError) {
        AnyError::UpdatesNotConfigured(e)
    }
}

impl vstd::std_specs::convert::FromSpecImpl<UpdatesNotConfigured> for AnyError {
    open spec fn obeys_from_spec() -> bool {
        true
    }

    open spec fn from_spec(e: UpdatesNotConfigured) -> AnyError {
        AnyError::UpdatesNotConfigured(e)
    }
}

impl From<CorruptDownload> for AnyError {
    fn from(e: CorruptDownload) -> (r: AnyError) {
        AnyError::CorruptDownload(e)
    }
}

impl vstd::std_specs::convert::FromSpecImpl<CorruptDownload> for AnyError {
    open spec fn obeys_from_spec() -> bool {
        true
    }

    open spec fn from_spec(e: CorruptDownload) -> AnyError {
        AnyError::CorruptDownload(e)
    }
}

impl From<MissingHomeDirectory> for AnyError {
    fn from(e: MissingHomeDirectory) -> (r: AnyError) {
        AnyError::MissingHomeDirectory(e)
    }
}

impl vstd::std_specs::convert::FromSpecImpl<MissingHomeDirectory> for AnyError {
    open spec fn obeys_from_spec() -> bool {
        true
    }

    open spec fn from_spec(e: MissingHomeDirectory) -> AnyError {
        AnyError::MissingHomeDirectory(e)
    }
}

impl From<OAuthError> for AnyError {
    fn from(e: OAuthError) -> (r: AnyError) {
        AnyError::OAuthError(e)
    }
}

impl vstd::std_specs::convert::FromSpecImpl<OAuthError> for AnyError {
    open spec fn obeys_from_spec() -> bool {
        true
    }

    open spec fn from_spec(e: OAuthError) -> AnyError {
        AnyError::OAuthError(e)
    }
}

impl From<InvalidRpcDataError> for AnyError {
    fn from(e: InvalidRpcDataError) -> (r: AnyError) {
        AnyError::InvalidRpcDataError(e)
    }
}

impl vstd::std_specs::convert::FromSpecImpl<InvalidRpcDataError> for AnyError {
    open spec fn obeys_from_spec() -> bool {
        true
    }

    open spec fn from_spec(e: InvalidRpcDataError) -> AnyError {
        AnyError::InvalidRpcDataError(e)
    }
}

impl From<CodeError> for AnyError {
    fn from(e: CodeError) -> (r: AnyError) {
        AnyError::CodeError(e)
    }
}

impl vstd::std_specs::convert::FromSpecImpl<CodeError> for AnyError {
    open spec fn obeys_from_spec() -> bool {
        true
    }

    open spec fn from_spec(e: CodeError) -> AnyError {
        AnyError::CodeError(e)
    }
}

impl From<DbusConnectFailedError> for AnyError {
    fn from(e: DbusConnectFailedError) -> (r: AnyError) {
        AnyError::DbusConnectFailedError(e)
    }
}

impl vstd::std_specs::convert::FromSpecImpl<DbusConnectFailedError> for AnyError {
    open spec fn obeys_from_spec() -> bool {
        true
    }

    open spec fn from_spec(e: DbusConnectFailedError) -> AnyError {
        AnyError::DbusConnectFailedError(e)
    }
}

impl AnyError {
    /// Wraps a failure of the network client straight into the umbrella
    /// type's wrapped-failure case, so call sites need no intermediate step.
    pub fn from_request_error(e: reqwest::Error) -> (r: AnyError)
        ensures
            ({
                match r {
                    AnyError::WrappedError(w) => exists|u: Option<Seq<char>>| w.message_text()
                        == network_message_text(u),
                    _ => false,
                }
            }),
    {
        AnyError::WrappedError(WrappedError::from_request_error(e))
    }
}

/// Lifting any registered failure into the umbrella type preserves its
/// rendering: the umbrella value renders exactly the text the contained
/// value renders on its own, for every value of every registered type.
pub proof fn lemma_umbrella_rendering_round_trip(
    env: EnvSnapshot,
    missing_legal_consent: MissingLegalConsent,
    mismatch_connection_token: MismatchConnectionToken,
    dev_tunnel_error: DevTunnelError,
    status_error: StatusError,
    wrapped_error: WrappedError,
    invalid_server_extension_error: InvalidServerExtensionError,
    missing_entrypoint_error: MissingEntrypointError,
    setup_error: SetupError,
    no_home_for_launcher_error: NoHomeForLauncherError,
    tunnel_creation_failed: TunnelCreationFailed,
    tunnel_host_failed: TunnelHostFailed,
    invalid_tunnel_name: InvalidTunnelName,
    extension_install_failed: ExtensionInstallFailed,
    mismatched_launch_mode_error: MismatchedLaunchModeError,
    no_attached_server_error: NoAttachedServerError,
    refresh_token_not_available_error: RefreshTokenNotAvailableError,
    no_install_in_user_provided_path: NoInstallInUserProvidedPath,
    user_cancelled_installation: UserCancelledInstallation,
    invalid_requested_version: InvalidRequestedVersion,
    cannot_forward_control_port: CannotForwardControlPort,
    server_has_closed: ServerHasClosed,
    service_already_registered: ServiceAlreadyRegistered,
    windows_needs_elevation: WindowsNeedsElevation,
    updates_not_configured: UpdatesNotConfigured,
    corrupt_download: CorruptDownload,
    missing_home_directory: MissingHomeDirectory,
    oauth_error: OAuthError,
    invalid_rpc_data_error: InvalidRpcDataError,
    code_error: CodeError,
    dbus_connect_failed_error: DbusConnectFailedError,
)
    ensures
        <AnyError as FromSpec<MissingLegalConsent>>::from_spec(missing_legal_consent).text_with(env) == missing_legal_consent.text(),
        <AnyError as FromSpec<MismatchConnectionToken>>::from_spec(mismatch_connection_token).text_with(env) == mismatch_connection_token.text(),
        <AnyError as FromSpec<DevTunnelError>>::from_spec(dev_tunnel_error).text_with(env) == dev_tunnel_error.text(),
        <AnyError as FromSpec<StatusError>>::from_spec(status_error).text_with(env) == status_error.text(),
        <AnyError as FromSpec<WrappedError>>::from_spec(wrapped_error).text_with(env) == wrapped_error.text(),
        <AnyError as FromSpec<InvalidServerExtensionError>>::from_spec(invalid_server_extension_error).text_with(env) == invalid_server_extension_error.text(),
        <AnyError as FromSpec<MissingEntrypointError>>::from_spec(missing_entrypoint_error).text_with(env) == missing_entrypoint_error.text(),
        <AnyError as FromSpec<SetupError>>::from_spec(setup_error).text_with(env) == setup_error.text(),
        <AnyError as FromSpec<NoHomeForLauncherError>>::from_spec(no_home_for_launcher_error).text_with(env) == no_home_for_launcher_error.text(),
        <AnyError as FromSpec<TunnelCreationFailed>>::from_spec(tunnel_creation_failed).text_with(env) == tunnel_creation_failed.text(),
        <AnyError as FromSpec<TunnelHostFailed>>::from_spec(tunnel_host_failed).text_with(env) == tunnel_host_failed.text(),
        <AnyError as FromSpec<InvalidTunnelName>>::from_spec(invalid_tunnel_name).text_with(env) == invalid_tunnel_name.text(),
        <AnyError as FromSpec<ExtensionInstallFailed>>::from_spec(extension_install_failed).text_with(env) == extension_install_failed.text(),
        <AnyError as FromSpec<MismatchedLaunchModeError>>::from_spec(mismatched_launch_mode_error).text_with(env) == mismatched_launch_mode_error.text(),
        <AnyError as FromSpec<NoAttachedServerError>>::from_spec(no_attached_server_error).text_with(env) == no_attached_server_error.text(),
        <AnyError as FromSpec<RefreshTokenNotAvailableError>>::from_spec(refresh_token_not_available_error).text_with(env) == refresh_token_not_available_error.text(),
        <AnyError as FromSpec<NoInstallInUserProvidedPath>>::from_spec(no_install_in_user_provided_path).text_with(env) == no_install_in_user_provided_path.text(),
        <AnyError as FromSpec<UserCancelledInstallation>>::from_spec(user_cancelled_installation).text_with(env) == user_cancelled_installation.text(),
        <AnyError as FromSpec<InvalidRequestedVersion>>::from_spec(invalid_requested_version).text_with(env) == invalid_requested_version.text(),
        <AnyError as FromSpec<CannotForwardControlPort>>::from_spec(cannot_forward_control_port).text_with(env) == cannot_forward_control_port.text(),
        <AnyError as FromSpec<ServerHasClosed>>::from_spec(server_has_closed).text_with(env) == server_has_closed.text(),
        <AnyError as FromSpec<ServiceAlreadyRegistered>>::from_spec(service_already_registered).text_with(env) == service_already_registered.text(),
        <AnyError as FromSpec<WindowsNeedsElevation>>::from_spec(windows_needs_elevation).text_with(env) == windows_needs_elevation.text_with(env),
        <AnyError as FromSpec<UpdatesNotConfigured>>::from_spec(updates_not_configured).text_with(env) == updates_not_configured.text(),
        <AnyError as FromSpec<CorruptDownload>>::from_spec(corrupt_download).text_with(env) == corrupt_download.text(),
        <AnyError as FromSpec<MissingHomeDirectory>>::from_spec(missing_home_directory).text_with(env) == missing_home_directory.text(),
        <AnyError as FromSpec<OAuthError>>::from_spec(oauth_error).text_with(env) == oauth_error.text(),
        <AnyError as FromSpec<InvalidRpcDataError>>::from_spec(invalid_rpc_data_error).text_with(env) == invalid_rpc_data_error.text(),
        <AnyError as FromSpec<CodeError>>::from_spec(code_error).text_with(env) == code_error.text(),
        <AnyError as FromSpec<DbusConnectFailedError>>::from_spec(dbus_connect_failed_error).text_with(env) == dbus_connect_failed_error.text_with(env),
{
}

} // verus!
