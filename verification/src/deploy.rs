use vstd::prelude::*;
use vstd::string::*;
use crate::device::{cmd_succeeded, command_result, CmdOutcome, Device};
use crate::errors::{DeployFailure, ServiceManagerError};
use crate::text::{concat2, concat3, concat4, concat5, replace_all, replace_spec};

verus! {

/// The configuration values a deployment needs: where the local build tree
/// lives, the bus credentials and trust-store locations substituted into
/// unit files, and where the local trust certificate is kept.
pub struct DeployConfig {
    pub root_dir: String,
    pub mqtt_broker: String,
    pub mqtt_username: String,
    pub mqtt_password: String,
    pub services_ca_dir: String,
    pub picovoice_access_key: String,
    pub mosquitto_dir: String,
}

/// The stations of the deployment pipeline, in the strict order they run.
#[derive(Debug, Clone, Copy, PartialEq, Eq, Structural)]
pub enum DeployStep {
    Build,
    EnsureInstallDir,
    ChownInstallDir,
    CheckArtifact,
    CopyArtifact,
    ChmodArtifact,
    VerifyArtifact,
    RemoveCaDir,
    CreateCaDir,
    ChownCaDir,
    ChmodCaDir,
    CopyCert,
    ChownCert,
    ChmodCert,
    RemoveLibDir,
    CreateLibDir,
    ChownLibDir,
    CheckLibSource,
    CopyLibs,
    RemoveModelsDir,
    CreateModelsDir,
    ChownModelsDir,
    CheckModelsSource,
    CopyModels,
    ClearUnit,
    ReadTemplate,
    InstallUnit,
    ReloadUnits,
    Done,
}

/// What the driver of a pipeline run is asked to do next. Every action is
/// plain data; performing it and reporting what happened is the caller's
/// part.
pub enum DeployAction {
    /// Invoke the external architecture-specific build step.
    RunBuild { service: String, arch: String },
    /// Run a shell command on the service's device.
    Remote { command: String },
    /// Test whether a local path exists.
    CheckLocalPath { path: String },
    /// Transfer a local file or directory to the device by secure copy;
    /// `destination` is already in `user@address:path` form.
    CopyToDevice { local_path: String, destination: String, recursive: bool },
    /// Read the per-service unit-file template from local disk.
    ReadTemplateFile { service: String },
}

/// What a build invocation came to.
pub enum BuildOutcome {
    Finished { exit_code: i32 },
    StartFailed { detail: String },
}

/// What a secure-copy invocation came to.
pub enum CopyOutcome {
    Finished { success: bool },
    StartFailed { detail: String },
}

/// What reading the unit-file template came to.
pub enum TemplateOutcome {
    Read { content: String },
    Missing { detail: String },
}

/// One open pipeline run: which service it deploys, to which device, and
/// where it stands.
pub struct DeploySession {
    pub service_name: String,
    pub device: Device,
    pub step: DeployStep,
}

/// How a pipeline run answers each reported outcome: the next station and
/// its action, the typed error it aborts with, or completion.
pub enum DeployStepOutcome {
    Continue { session: DeploySession, action: DeployAction },
    Failed { error: ServiceManagerError },
    Complete,
}

// ---------------------------------------------------------------------------
// The texts of the remote commands and local paths
// ---------------------------------------------------------------------------

pub open spec fn chown_install_spec(user: Seq<char>) -> Seq<char> {
    "sudo chown "@ + user + " /opt/services"@
}

pub open spec fn artifact_path_spec(root: Seq<char>, arch: Seq<char>, name: Seq<char>) -> Seq<
    char,
> {
    root + "/targets/"@ + arch + "/"@ + name + "_service"@
}

pub open spec fn remote_artifact_spec(name: Seq<char>) -> Seq<char> {
    "/opt/services/"@ + name
}

pub open spec fn chmod_artifact_spec(name: Seq<char>) -> Seq<char> {
    "chmod 755 /opt/services/"@ + name
}

pub open spec fn verify_artifact_spec(name: Seq<char>) -> Seq<char> {
    "test -f /opt/services/"@ + name
}

pub open spec fn rm_dir_spec(dir: Seq<char>) -> Seq<char> {
    "sudo rm -rf "@ + dir
}

pub open spec fn mkdir_dir_spec(dir: Seq<char>) -> Seq<char> {
    "sudo mkdir -p "@ + dir
}

pub open spec fn chown_dir_spec(user: Seq<char>, dir: Seq<char>) -> Seq<char> {
    "sudo chown "@ + user + " "@ + dir
}

pub open spec fn chmod700_spec(dir: Seq<char>) -> Seq<char> {
    "sudo chmod 700 "@ + dir
}

pub open spec fn chmod644_spec(path: Seq<char>) -> Seq<char> {
    "sudo chmod 644 "@ + path
}

pub open spec fn ca_local_spec(mosquitto_dir: Seq<char>) -> Seq<char> {
    mosquitto_dir + "/ca.crt"@
}

pub open spec fn ca_remote_spec(ca_dir: Seq<char>) -> Seq<char> {
    ca_dir + "/ca.crt"@
}

/// The well-known remote directory for a service's support libraries.
pub open spec fn lib_remote_spec(name: Seq<char>) -> Seq<char> {
    "/usr/local/lib/"@ + name
}

/// The well-known remote directory for a service's data files, its own so
/// that recreating it leaves the freshly copied libraries untouched.
pub open spec fn models_remote_spec(name: Seq<char>) -> Seq<char> {
    "/usr/local/share/"@ + name
}

pub open spec fn lib_src_spec(root: Seq<char>, name: Seq<char>) -> Seq<char> {
    root + "/services/"@ + name + "/lib"@
}

pub open spec fn models_src_spec(root: Seq<char>, name: Seq<char>) -> Seq<char> {
    root + "/services/"@ + name + "/models"@
}

pub open spec fn dot_suffix_spec(dir: Seq<char>) -> Seq<char> {
    dir + "/."@
}

pub open spec fn dest_spec(user: Seq<char>, ip: Seq<char>, path: Seq<char>) -> Seq<char> {
    user + "@"@ + ip + ":"@ + path
}

pub open spec fn clear_unit_spec(name: Seq<char>) -> Seq<char> {
    "sudo systemctl disable "@ + name + " || true; sudo systemctl unmask "@ + name
        + " || true; sudo rm -f /etc/systemd/system/"@ + name
}

pub open spec fn install_unit_spec(content: Seq<char>, name: Seq<char>) -> Seq<char> {
    "echo '"@ + content + "' | sudo tee /etc/systemd/system/"@ + name + ".service"@
}

/// The rendered unit file: the template with each recognized placeholder
/// replaced by its configuration value, in the fixed substitution order.
pub open spec fn render_spec(t: Seq<char>, c: DeployConfig, user: Seq<char>) -> Seq<char> {
    replace_spec(
        replace_spec(
            replace_spec(
                replace_spec(
                    replace_spec(
                        replace_spec(t, "{mqtt_broker}"@, c.mqtt_broker@),
                        "{mqtt_username}"@,
                        c.mqtt_username@,
                    ),
                    "{mqtt_password}"@,
                    c.mqtt_password@,
                ),
                "{mqtt_ca_dir}"@,
                c.services_ca_dir@,
            ),
            "{picovoice_access_key}"@,
            c.picovoice_access_key@,
        ),
        "{username}"@,
        user,
    )
}

/// Renders the unit-file template for a service deployed as `username`.
pub fn render_unit_file(template: &str, config: &DeployConfig, username: &str) -> (r: String)
    ensures
        r@ == render_spec(template@, *config, username@),
{
    proof {
        reveal_strlit("{mqtt_broker}");
        reveal_strlit("{mqtt_username}");
        reveal_strlit("{mqtt_password}");
        reveal_strlit("{mqtt_ca_dir}");
        reveal_strlit("{picovoice_access_key}");
        reveal_strlit("{username}");
    }
    let a = replace_all(template, "{mqtt_broker}", config.mqtt_broker.as_str());
    let b = replace_all(a.as_str(), "{mqtt_username}", config.mqtt_username.as_str());
    let c = replace_all(b.as_str(), "{mqtt_password}", config.mqtt_password.as_str());
    let d = replace_all(c.as_str(), "{mqtt_ca_dir}", config.services_ca_dir.as_str());
    let e = replace_all(d.as_str(), "{picovoice_access_key}", config.picovoice_access_key.as_str());
    replace_all(e.as_str(), "{username}", username)
}

// ---------------------------------------------------------------------------
// The shape of each station's action
// ---------------------------------------------------------------------------

pub open spec fn is_remote_action(a: DeployAction, cmd: Seq<char>) -> bool {
    a matches DeployAction::Remote { command } && command@ == cmd
}

pub open spec fn is_check_action(a: DeployAction, path: Seq<char>) -> bool {
    a matches DeployAction::CheckLocalPath { path: p } && p@ == path
}

pub open spec fn is_copy_action(a: DeployAction, local: Seq<char>, dest: Seq<char>, rec: bool) -> bool {
    a matches DeployAction::CopyToDevice { local_path, destination, recursive } && local_path@
        == local && destination@ == dest && recursive == rec
}

pub open spec fn is_build_action(a: DeployAction, service: Seq<char>, arch: Seq<char>) -> bool {
    a matches DeployAction::RunBuild { service: s, arch: ar } && s@ == service && ar@ == arch
}

pub open spec fn is_template_action(a: DeployAction, service: Seq<char>) -> bool {
    a matches DeployAction::ReadTemplateFile { service: s } && s@ == service
}

/// The action belonging to `step`, for the service called `name` on device
/// `dev` under configuration `c`. The unit-file installation is excepted:
/// its command embeds the rendered template, which only the template
/// station's answer supplies.
pub open spec fn action_spec(
    step: DeployStep,
    name: Seq<char>,
    dev: Device,
    c: DeployConfig,
    a: DeployAction,
) -> bool {
    let user = dev.config.username@;
    let ip = dev.config.ip_address@;
    let arch = dev.config.arch@;
    let root = c.root_dir@;
    let ca = c.services_ca_dir@;
    match step {
        DeployStep::Build => is_build_action(a, name, arch),
        DeployStep::EnsureInstallDir => is_remote_action(a, "sudo mkdir -p /opt/services"@),
        DeployStep::ChownInstallDir => is_remote_action(a, chown_install_spec(user)),
        DeployStep::CheckArtifact => is_check_action(a, artifact_path_spec(root, arch, name)),
        DeployStep::CopyArtifact => is_copy_action(
            a,
            artifact_path_spec(root, arch, name),
            dest_spec(user, ip, remote_artifact_spec(name)),
            false,
        ),
        DeployStep::ChmodArtifact => is_remote_action(a, chmod_artifact_spec(name)),
        DeployStep::VerifyArtifact => is_remote_action(a, verify_artifact_spec(name)),
        DeployStep::RemoveCaDir => is_remote_action(a, rm_dir_spec(ca)),
        DeployStep::CreateCaDir => is_remote_action(a, mkdir_dir_spec(ca)),
        DeployStep::ChownCaDir => is_remote_action(a, chown_dir_spec(user, ca)),
        DeployStep::ChmodCaDir => is_remote_action(a, chmod700_spec(ca)),
        DeployStep::CopyCert => is_copy_action(
            a,
            ca_local_spec(c.mosquitto_dir@),
            dest_spec(user, ip, ca_remote_spec(ca)),
            false,
        ),
        DeployStep::ChownCert => is_remote_action(a, chown_dir_spec(user, ca_remote_spec(ca))),
        DeployStep::ChmodCert => is_remote_action(a, chmod644_spec(ca_remote_spec(ca))),
        DeployStep::RemoveLibDir => is_remote_action(a, rm_dir_spec(lib_remote_spec(name))),
        DeployStep::CreateLibDir => is_remote_action(a, mkdir_dir_spec(lib_remote_spec(name))),
        DeployStep::ChownLibDir => is_remote_action(
            a,
            chown_dir_spec(user, lib_remote_spec(name)),
        ),
        DeployStep::CheckLibSource => is_check_action(a, lib_src_spec(root, name)),
        DeployStep::CopyLibs => is_copy_action(
            a,
            dot_suffix_spec(lib_src_spec(root, name)),
            dest_spec(user, ip, lib_remote_spec(name)),
            true,
        ),
        DeployStep::RemoveModelsDir => is_remote_action(a, rm_dir_spec(models_remote_spec(name))),
        DeployStep::CreateModelsDir => is_remote_action(
            a,
            mkdir_dir_spec(models_remote_spec(name)),
        ),
        DeployStep::ChownModelsDir => is_remote_action(
            a,
            chown_dir_spec(user, models_remote_spec(name)),
        ),
        DeployStep::CheckModelsSource => is_check_action(a, models_src_spec(root, name)),
        DeployStep::CopyModels => is_copy_action(
            a,
            dot_suffix_spec(models_src_spec(root, name)),
            dest_spec(user, ip, models_remote_spec(name)),
            true,
        ),
        DeployStep::ClearUnit => is_remote_action(a, clear_unit_spec(name)),
        DeployStep::ReadTemplate => is_template_action(a, name),
        DeployStep::InstallUnit => false,
        DeployStep::ReloadUnits => is_remote_action(a, "sudo systemctl daemon-reload"@),
        DeployStep::Done => false,
    }
}

/// The stations whose action is a remote command.
pub open spec fn is_remote_step(st: DeployStep) -> bool {
    match st {
        DeployStep::EnsureInstallDir | DeployStep::ChownInstallDir | DeployStep::ChmodArtifact
            | DeployStep::VerifyArtifact | DeployStep::RemoveCaDir | DeployStep::CreateCaDir
            | DeployStep::ChownCaDir | DeployStep::ChmodCaDir | DeployStep::ChownCert
            | DeployStep::ChmodCert | DeployStep::RemoveLibDir | DeployStep::CreateLibDir
            | DeployStep::ChownLibDir | DeployStep::RemoveModelsDir | DeployStep::CreateModelsDir
            | DeployStep::ChownModelsDir | DeployStep::ClearUnit | DeployStep::InstallUnit
            | DeployStep::ReloadUnits => true,
        _ => false,
    }
}

/// The stations that test a local path.
pub open spec fn is_check_step(st: DeployStep) -> bool {
    match st {
        DeployStep::CheckArtifact | DeployStep::CheckLibSource | DeployStep::CheckModelsSource
            => true,
        _ => false,
    }
}

/// The stations that transfer files to the device.
pub open spec fn is_copy_step(st: DeployStep) -> bool {
    match st {
        DeployStep::CopyArtifact | DeployStep::CopyCert | DeployStep::CopyLibs
            | DeployStep::CopyModels => true,
        _ => false,
    }
}

/// The station after a successful remote command.
pub open spec fn remote_next(st: DeployStep) -> DeployStep {
    match st {
        DeployStep::EnsureInstallDir => DeployStep::ChownInstallDir,
        DeployStep::ChownInstallDir => DeployStep::CheckArtifact,
        DeployStep::ChmodArtifact => DeployStep::VerifyArtifact,
        DeployStep::VerifyArtifact => DeployStep::RemoveCaDir,
        DeployStep::RemoveCaDir => DeployStep::CreateCaDir,
        DeployStep::CreateCaDir => DeployStep::ChownCaDir,
        DeployStep::ChownCaDir => DeployStep::ChmodCaDir,
        DeployStep::ChmodCaDir => DeployStep::CopyCert,
        DeployStep::ChownCert => DeployStep::ChmodCert,
        DeployStep::ChmodCert => DeployStep::RemoveLibDir,
        DeployStep::RemoveLibDir => DeployStep::CreateLibDir,
        DeployStep::CreateLibDir => DeployStep::ChownLibDir,
        DeployStep::ChownLibDir => DeployStep::CheckLibSource,
        DeployStep::RemoveModelsDir => DeployStep::CreateModelsDir,
        DeployStep::CreateModelsDir => DeployStep::ChownModelsDir,
        DeployStep::ChownModelsDir => DeployStep::CheckModelsSource,
        DeployStep::ClearUnit => DeployStep::ReadTemplate,
        DeployStep::InstallUnit => DeployStep::ReloadUnits,
        _ => DeployStep::Done,
    }
}

/// The station after a successful transfer.
pub open spec fn copy_next(st: DeployStep) -> DeployStep {
    match st {
        DeployStep::CopyArtifact => DeployStep::ChmodArtifact,
        DeployStep::CopyCert => DeployStep::ChownCert,
        DeployStep::CopyLibs => DeployStep::RemoveModelsDir,
        _ => DeployStep::ClearUnit,
    }
}

/// The deployment error a failed transfer reports.
pub open spec fn copy_failure(st: DeployStep) -> DeployFailure {
    match st {
        DeployStep::CopyArtifact => DeployFailure::BinaryCopyFailed,
        DeployStep::CopyCert => DeployFailure::CertCopyFailed,
        DeployStep::CopyLibs => DeployFailure::LibCopyFailed,
        _ => DeployFailure::ModelsCopyFailed,
    }
}

/// Whether `e` reports exactly the device-level failure that `outcome`
/// describes for the remote command `cmd`.
pub open spec fn is_command_failure(
    e: ServiceManagerError,
    cmd: Seq<char>,
    outcome: CmdOutcome,
) -> bool {
    match outcome {
        CmdOutcome::Completed { exit_status, stderr, .. } => {
            exit_status != 0 && (e matches ServiceManagerError::DeviceError(
                crate::errors::DeviceError::SshError { command, exit_status: x, stderr: st },
            ) && command@ == cmd && x == exit_status && st@ == stderr@)
        },
        CmdOutcome::Transport { detail } => {
            e matches ServiceManagerError::DeviceError(
                crate::errors::DeviceError::Ssh2Error(d),
            ) && d@ == detail@
        },
    }
}

/// The run continues at station `next`, same service and device, with
/// exactly that station's action.
pub open spec fn continues_to(
    s: DeploySession,
    c: DeployConfig,
    next: DeployStep,
    r: DeployStepOutcome,
) -> bool {
    r matches DeployStepOutcome::Continue { session, action } && session.service_name@
        == s.service_name@ && session.device == s.device && session.step == next && action_spec(
        next,
        s.service_name@,
        s.device,
        c,
        action,
    )
}

// ---------------------------------------------------------------------------
// The pipeline run
// ---------------------------------------------------------------------------

impl DeploySession {
    /// The action of the current station; every station has one computable
    /// from the session and the configuration, except the unit-file
    /// installation (whose command the template station's answer builds)
    /// and the final station.
    fn action_now(&self, config: &DeployConfig) -> (a: DeployAction)
        requires
            self.step != DeployStep::InstallUnit,
            self.step != DeployStep::Done,
        ensures
            action_spec(self.step, self.service_name@, self.device, *config, a),
    {
        let name = self.service_name.as_str();
        let user = self.device.config.username.as_str();
        let ip = self.device.config.ip_address.as_str();
        let arch = self.device.config.arch.as_str();
        let root = config.root_dir.as_str();
        let ca = config.services_ca_dir.as_str();
        match self.step {
            DeployStep::Build => DeployAction::RunBuild {
                service: String::from_str(name),
                arch: String::from_str(arch),
            },
            DeployStep::EnsureInstallDir => DeployAction::Remote {
                command: String::from_str("sudo mkdir -p /opt/services"),
            },
            DeployStep::ChownInstallDir => DeployAction::Remote {
                command: concat3("sudo chown ", user, " /opt/services"),
            },
            DeployStep::CheckArtifact => DeployAction::CheckLocalPath {
                path: concat2(concat5(root, "/targets/", arch, "/", name).as_str(), "_service"),
            },
            DeployStep::CopyArtifact => DeployAction::CopyToDevice {
                local_path: concat2(
                    concat5(root, "/targets/", arch, "/", name).as_str(),
                    "_service",
                ),
                destination: concat5(
                    user,
                    "@",
                    ip,
                    ":",
                    concat2("/opt/services/", name).as_str(),
                ),
                recursive: false,
            },
            DeployStep::ChmodArtifact => DeployAction::Remote {
                command: concat2("chmod 755 /opt/services/", name),
            },
            DeployStep::VerifyArtifact => DeployAction::Remote {
                command: concat2("test -f /opt/services/", name),
            },
            DeployStep::RemoveCaDir => DeployAction::Remote {
                command: concat2("sudo rm -rf ", ca),
            },
            DeployStep::CreateCaDir => DeployAction::Remote {
                command: concat2("sudo mkdir -p ", ca),
            },
            DeployStep::ChownCaDir => DeployAction::Remote {
                command: concat4("sudo chown ", user, " ", ca),
            },
            DeployStep::ChmodCaDir => DeployAction::Remote {
                command: concat2("sudo chmod 700 ", ca),
            },
            DeployStep::CopyCert => DeployAction::CopyToDevice {
                local_path: concat2(config.mosquitto_dir.as_str(), "/ca.crt"),
                destination: concat5(user, "@", ip, ":", concat2(ca, "/ca.crt").as_str()),
                recursive: false,
            },
            DeployStep::ChownCert => DeployAction::Remote {
                command: concat4("sudo chown ", user, " ", concat2(ca, "/ca.crt").as_str()),
            },
            DeployStep::ChmodCert => DeployAction::Remote {
                command: concat2("sudo chmod 644 ", concat2(ca, "/ca.crt").as_str()),
            },
            DeployStep::RemoveLibDir => DeployAction::Remote {
                command: concat2("sudo rm -rf ", concat2("/usr/local/lib/", name).as_str()),
            },
            DeployStep::CreateLibDir => DeployAction::Remote {
                command: concat2("sudo mkdir -p ", concat2("/usr/local/lib/", name).as_str()),
            },
            DeployStep::ChownLibDir => DeployAction::Remote {
                command: concat4(
                    "sudo chown ",
                    user,
                    " ",
                    concat2("/usr/local/lib/", name).as_str(),
                ),
            },
            DeployStep::CheckLibSource => DeployAction::CheckLocalPath {
                path: concat4(root, "/services/", name, "/lib"),
            },
            DeployStep::CopyLibs => DeployAction::CopyToDevice {
                local_path: concat2(concat4(root, "/services/", name, "/lib").as_str(), "/."),
                destination: concat5(
                    user,
                    "@",
                    ip,
                    ":",
                    concat2("/usr/local/lib/", name).as_str(),
                ),
                recursive: true,
            },
            DeployStep::RemoveModelsDir => DeployAction::Remote {
                command: concat2("sudo rm -rf ", concat2("/usr/local/share/", name).as_str()),
            },
            DeployStep::CreateModelsDir => DeployAction::Remote {
                command: concat2("sudo mkdir -p ", concat2("/usr/local/share/", name).as_str()),
            },
            DeployStep::ChownModelsDir => DeployAction::Remote {
                command: concat4(
                    "sudo chown ",
                    user,
                    " ",
                    concat2("/usr/local/share/", name).as_str(),
                ),
            },
            DeployStep::CheckModelsSource => DeployAction::CheckLocalPath {
                path: concat4(root, "/services/", name, "/models"),
            },
            DeployStep::CopyModels => DeployAction::CopyToDevice {
                local_path: concat2(concat4(root, "/services/", name, "/models").as_str(), "/."),
                destination: concat5(
                    user,
                    "@",
                    ip,
                    ":",
                    concat2("/usr/local/share/", name).as_str(),
                ),
                recursive: true,
            },
            DeployStep::ClearUnit => DeployAction::Remote {
                command: concat2(
                    concat5(
                        "sudo systemctl disable ",
                        name,
                        " || true; sudo systemctl unmask ",
                        name,
                        " || true; sudo rm -f /etc/systemd/system/",
                    ).as_str(),
                    name,
                ),
            },
            DeployStep::ReadTemplate => DeployAction::ReadTemplateFile {
                service: String::from_str(name),
            },
            DeployStep::InstallUnit => DeployAction::Remote { command: String::new() },
            DeployStep::ReloadUnits => DeployAction::Remote {
                command: String::from_str("sudo systemctl daemon-reload"),
            },
            DeployStep::Done => DeployAction::Remote { command: String::new() },
        }
    }

    /// Answers the build step's outcome: a zero exit moves on to preparing
    /// the install directory, anything else aborts with a deployment error.
    pub fn build_finished(self, config: &DeployConfig, outcome: BuildOutcome) -> (r:
        DeployStepOutcome)
        requires
            self.step == DeployStep::Build,
        ensures
            match outcome {
                BuildOutcome::Finished { exit_code } => {
                    if exit_code == 0 {
                        continues_to(self, *config, DeployStep::EnsureInstallDir, r)
                    } else {
                        r matches DeployStepOutcome::Failed {
                            error: ServiceManagerError::DeploymentError(
                                DeployFailure::BuildFailed { exit_code: x },
                            ),
                        } && x == exit_code
                    }
                },
                BuildOutcome::StartFailed { detail } => {
                    r matches DeployStepOutcome::Failed {
                        error: ServiceManagerError::DeploymentError(
                            DeployFailure::BuildStartFailed(d),
                        ),
                    } && d@ == detail@
                },
            },
    {
        match outcome {
            BuildOutcome::Finished { exit_code } => {
                if exit_code == 0 {
                    let session = DeploySession { step: DeployStep::EnsureInstallDir, ..self };
                    let action = session.action_now(config);
                    DeployStepOutcome::Continue { session, action }
                } else {
                    DeployStepOutcome::Failed {
                        error: ServiceManagerError::DeploymentError(
                            DeployFailure::BuildFailed { exit_code },
                        ),
                    }
                }
            },
            BuildOutcome::StartFailed { detail } => DeployStepOutcome::Failed {
                error: ServiceManagerError::DeploymentError(
                    DeployFailure::BuildStartFailed(detail),
                ),
            },
        }
    }

    /// Answers a local path check. A missing artifact aborts with a
    /// deployment error naming the path; missing support-library or
    /// data-file sources are no failure, their transfer is skipped.
    pub fn path_checked(self, config: &DeployConfig, exists: bool) -> (r: DeployStepOutcome)
        requires
            is_check_step(self.step),
        ensures
            self.step == DeployStep::CheckArtifact && exists ==> continues_to(
                self,
                *config,
                DeployStep::CopyArtifact,
                r,
            ),
            self.step == DeployStep::CheckArtifact && !exists ==> (r matches
                DeployStepOutcome::Failed {
                    error: ServiceManagerError::DeploymentError(
                        DeployFailure::ArtifactMissing { path },
                    ),
                } && path@ == artifact_path_spec(
                config.root_dir@,
                self.device.config.arch@,
                self.service_name@,
            )),
            self.step == DeployStep::CheckLibSource ==> continues_to(
                self,
                *config,
                if exists {
                    DeployStep::CopyLibs
                } else {
                    DeployStep::RemoveModelsDir
                },
                r,
            ),
            self.step == DeployStep::CheckModelsSource ==> continues_to(
                self,
                *config,
                if exists {
                    DeployStep::CopyModels
                } else {
                    DeployStep::ClearUnit
                },
                r,
            ),
    {
        match self.step {
            DeployStep::CheckArtifact => {
                if exists {
                    let session = DeploySession { step: DeployStep::CopyArtifact, ..self };
                    let action = session.action_now(config);
                    DeployStepOutcome::Continue { session, action }
                } else {
                    let path = concat2(
                        concat5(
                            config.root_dir.as_str(),
                            "/targets/",
                            self.device.config.arch.as_str(),
                            "/",
                            self.service_name.as_str(),
                        ).as_str(),
                        "_service",
                    );
                    DeployStepOutcome::Failed {
                        error: ServiceManagerError::DeploymentError(
                            DeployFailure::ArtifactMissing { path },
                        ),
                    }
                }
            },
            DeployStep::CheckLibSource => {
                let next = if exists {
                    DeployStep::CopyLibs
                } else {
                    DeployStep::RemoveModelsDir
                };
                let session = DeploySession { step: next, ..self };
                let action = session.action_now(config);
                DeployStepOutcome::Continue { session, action }
            },
            _ => {
                let next = if exists {
                    DeployStep::CopyModels
                } else {
                    DeployStep::ClearUnit
                };
                let session = DeploySession { step: next, ..self };
                let action = session.action_now(config);
                DeployStepOutcome::Continue { session, action }
            },
        }
    }

    /// Answers a transfer's outcome: a failed transfer aborts with the
    /// deployment error of that station, one that could not start surfaces
    /// the reported text as an I/O error.
    pub fn copy_finished(self, config: &DeployConfig, outcome: CopyOutcome) -> (r:
        DeployStepOutcome)
        requires
            is_copy_step(self.step),
        ensures
            match outcome {
                CopyOutcome::Finished { success } => {
                    if success {
                        continues_to(self, *config, copy_next(self.step), r)
                    } else {
                        r matches DeployStepOutcome::Failed {
                            error: ServiceManagerError::DeploymentError(f),
                        } && f == copy_failure(self.step)
                    }
                },
                CopyOutcome::StartFailed { detail } => {
                    r matches DeployStepOutcome::Failed {
                        error: ServiceManagerError::IoError(d),
                    } && d@ == detail@
                },
            },
    {
        match outcome {
            CopyOutcome::Finished { success } => {
                if success {
                    let next = match self.step {
                        DeployStep::CopyArtifact => DeployStep::ChmodArtifact,
                        DeployStep::CopyCert => DeployStep::ChownCert,
                        DeployStep::CopyLibs => DeployStep::RemoveModelsDir,
                        _ => DeployStep::ClearUnit,
                    };
                    let session = DeploySession { step: next, ..self };
                    let action = session.action_now(config);
                    DeployStepOutcome::Continue { session, action }
                } else {
                    let failure = match self.step {
                        DeployStep::CopyArtifact => DeployFailure::BinaryCopyFailed,
                        DeployStep::CopyCert => DeployFailure::CertCopyFailed,
                        DeployStep::CopyLibs => DeployFailure::LibCopyFailed,
                        _ => DeployFailure::ModelsCopyFailed,
                    };
                    DeployStepOutcome::Failed {
                        error: ServiceManagerError::DeploymentError(failure),
                    }
                }
            },
            CopyOutcome::StartFailed { detail } => DeployStepOutcome::Failed {
                error: ServiceManagerError::IoError(detail),
            },
        }
    }

    /// Answers the template read: the template rendered with the
    /// configuration values becomes the unit-file installation command; an
    /// unreadable template aborts with a template error.
    pub fn template_read(self, config: &DeployConfig, outcome: TemplateOutcome) -> (r:
        DeployStepOutcome)
        requires
            self.step == DeployStep::ReadTemplate,
        ensures
            match outcome {
                TemplateOutcome::Read { content } => {
                    r matches DeployStepOutcome::Continue { session, action }
                        && session.service_name@ == self.service_name@ && session.device
                        == self.device && session.step == DeployStep::InstallUnit
                        && is_remote_action(
                        action,
                        install_unit_spec(
                            render_spec(content@, *config, self.device.config.username@),
                            self.service_name@,
                        ),
                    )
                },
                TemplateOutcome::Missing { detail } => {
                    r matches DeployStepOutcome::Failed {
                        error: ServiceManagerError::TemplateError(m),
                    } && m@ == "Failed to read template: "@ + detail@
                },
            },
    {
        match outcome {
            TemplateOutcome::Read { content } => {
                let rendered = render_unit_file(
                    content.as_str(),
                    config,
                    self.device.config.username.as_str(),
                );
                let command = concat5(
                    "echo '",
                    rendered.as_str(),
                    "' | sudo tee /etc/systemd/system/",
                    self.service_name.as_str(),
                    ".service",
                );
                let session = DeploySession { step: DeployStep::InstallUnit, ..self };
                DeployStepOutcome::Continue { session, action: DeployAction::Remote { command } }
            },
            TemplateOutcome::Missing { detail } => DeployStepOutcome::Failed {
                error: ServiceManagerError::TemplateError(
                    concat2("Failed to read template: ", detail.as_str()),
                ),
            },
        }
    }

    /// Answers a remote command's outcome: success moves to the next
    /// station (completing the run after the final supervisor reload), a
    /// non-zero exit or transport failure aborts with the device error for
    /// `command`, the command that was run.
    pub fn remote_finished(self, config: &DeployConfig, command: String, outcome: CmdOutcome) -> (r:
        DeployStepOutcome)
        requires
            is_remote_step(self.step),
        ensures
            cmd_succeeded(outcome) && self.step == DeployStep::ReloadUnits ==> r
                is Complete,
            cmd_succeeded(outcome) && self.step != DeployStep::ReloadUnits ==> continues_to(
                self,
                *config,
                remote_next(self.step),
                r,
            ),
            !cmd_succeeded(outcome) ==> (r matches DeployStepOutcome::Failed { error }
                && is_command_failure(error, command@, outcome)),
    {
        match command_result(command, outcome) {
            Ok(_) => {
                if self.step == DeployStep::ReloadUnits {
                    DeployStepOutcome::Complete
                } else {
                    let next = match self.step {
                        DeployStep::EnsureInstallDir => DeployStep::ChownInstallDir,
                        DeployStep::ChownInstallDir => DeployStep::CheckArtifact,
                        DeployStep::ChmodArtifact => DeployStep::VerifyArtifact,
                        DeployStep::VerifyArtifact => DeployStep::RemoveCaDir,
                        DeployStep::RemoveCaDir => DeployStep::CreateCaDir,
                        DeployStep::CreateCaDir => DeployStep::ChownCaDir,
                        DeployStep::ChownCaDir => DeployStep::ChmodCaDir,
                        DeployStep::ChmodCaDir => DeployStep::CopyCert,
                        DeployStep::ChownCert => DeployStep::ChmodCert,
                        DeployStep::ChmodCert => DeployStep::RemoveLibDir,
                        DeployStep::RemoveLibDir => DeployStep::CreateLibDir,
                        DeployStep::CreateLibDir => DeployStep::ChownLibDir,
                        DeployStep::ChownLibDir => DeployStep::CheckLibSource,
                        DeployStep::RemoveModelsDir => DeployStep::CreateModelsDir,
                        DeployStep::CreateModelsDir => DeployStep::ChownModelsDir,
                        DeployStep::ChownModelsDir => DeployStep::CheckModelsSource,
                        DeployStep::ClearUnit => DeployStep::ReadTemplate,
                        DeployStep::InstallUnit => DeployStep::ReloadUnits,
                        _ => DeployStep::Done,
                    };
                    let session = DeploySession { step: next, ..self };
                    let action = session.action_now(config);
                    DeployStepOutcome::Continue { session, action }
                }
            },
            Err(e) => DeployStepOutcome::Failed { error: ServiceManagerError::DeviceError(e) },
        }
    }
}

} // verus!
