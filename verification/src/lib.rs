//! Failure-reporting layer for a command-line tool that manages remote
//! development sessions.
//!
//! Subsystems construct the most specific failure value available: one of
//! the leaf failure types in [`leaves`], or a tag of the structured
//! [`CodeError`] enum. Any failure can be annotated with caller context
//! through [`wrap`] / [`wrapdbg`], and every registered failure type
//! converts through `From` into the umbrella [`AnyError`] type, which
//! renders by delegating to the contained value.

pub mod code;
pub mod leaves;
pub mod render;
pub mod snapshot;
pub mod status;
pub mod text;
pub mod umbrella;
pub mod wrapped;

pub use code::{CodeError, ResponseError};
pub use leaves::{
    CannotForwardControlPort, CorruptDownload, DbusConnectFailedError, DevTunnelError,
    ExtensionInstallFailed, InvalidRequestedVersion, InvalidRpcDataError,
    InvalidServerExtensionError, InvalidTunnelName, MismatchConnectionToken,
    MismatchedLaunchModeError, MissingEntrypointError, MissingHomeDirectory, MissingLegalConsent,
    NoAttachedServerError, NoHomeForLauncherError, NoInstallInUserProvidedPath, OAuthError,
    RefreshTokenNotAvailableError, ServerHasClosed, ServiceAlreadyRegistered, SetupError,
    TunnelCreationFailed, TunnelHostFailed, UpdatesNotConfigured, UserCancelledInstallation,
    WindowsNeedsElevation, CONTROL_PORT,
};
pub use render::{Render, RenderDebug};
pub use snapshot::EnvSnapshot;
pub use status::StatusError;
pub use umbrella::AnyError;
pub use wrapped::{wrap, wrapdbg, WrappedError};
