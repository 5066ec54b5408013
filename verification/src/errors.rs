use vstd::prelude::*;

verus! {

/// Failures of the service table itself: lookups, duplicate names, and
/// transitions attempted from the wrong status.
#[derive(Debug, Clone, PartialEq, Eq)]
pub enum ServiceError {
    ServiceNotFound(String),
    ServiceAlreadyExists(String),
    ServiceStatusError(String),
}

/// Failures while talking to a device: registry lookups, transport problems
/// on the remote-shell channel, and remote commands that exited non-zero.
#[derive(Debug, Clone, PartialEq, Eq)]
pub enum DeviceError {
    /// Reading the device registry failed; carries the reported text.
    IoError(String),
    /// The device registry document did not parse; carries the reported text.
    YamlError(String),
    DeviceNotFound(String),
    /// A transport-level failure (connect, handshake, or authentication);
    /// carries the reported text.
    Ssh2Error(String),
    /// The channel worked but the remote command exited non-zero.
    SshError { command: String, exit_status: i32, stderr: String },
}

/// A step of the deployment pipeline that failed, with what it needs to
/// report the failure.
#[derive(Debug, Clone, PartialEq, Eq)]
pub enum DeployFailure {
    /// The external build step could not be launched; carries the reported text.
    BuildStartFailed(String),
    /// The external build step exited non-zero.
    BuildFailed { exit_code: i32 },
    /// The locally built artifact is absent.
    ArtifactMissing { path: String },
    /// The artifact transfer to the device failed.
    BinaryCopyFailed,
    /// The trust-certificate transfer to the device failed.
    CertCopyFailed,
    /// The support-library transfer to the device failed.
    LibCopyFailed,
    /// The data-file transfer to the device failed.
    ModelsCopyFailed,
}

/// The orchestrator's error taxonomy: every failure a lifecycle operation can
/// surface is one of these kinds.
#[derive(Debug, Clone, PartialEq, Eq)]
pub enum ServiceManagerError {
    MqttError(String),
    IoError(String),
    DeploymentError(DeployFailure),
    DeviceError(DeviceError),
    TemplateError(String),
    ServiceError(ServiceError),
    WebSocketError(String),
}

} // verus!
