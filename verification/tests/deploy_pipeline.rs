use service_manager::deploy::{
    BuildOutcome, CopyOutcome, DeployAction, DeployConfig, DeploySession, DeployStep,
    DeployStepOutcome, TemplateOutcome, render_unit_file,
};
use service_manager::device::{CmdOutcome, Device, DeviceRegistry};
use service_manager::errors::{DeployFailure, ServiceManagerError};
use service_manager::service::{ServiceManager, ServiceStatus};

fn config() -> DeployConfig {
    DeployConfig {
        root_dir: "/home/op/fleet".to_string(),
        mqtt_broker: "ssl://broker:8883".to_string(),
        mqtt_username: "admin".to_string(),
        mqtt_password: "buspass".to_string(),
        services_ca_dir: "/etc/services_ca".to_string(),
        picovoice_access_key: "pv-key".to_string(),
        mosquitto_dir: "/home/op/mosquitto".to_string(),
    }
}

fn manager() -> ServiceManager {
    let mut registry = DeviceRegistry::new();
    registry.add_device(Device::new(
        "dev".to_string(),
        "arm".to_string(),
        "1.2.3.4".to_string(),
        "u".to_string(),
        "pw".to_string(),
    ));
    let mut m = ServiceManager::new(registry);
    m.create_service("svc".to_string(), "dev".to_string()).unwrap();
    m
}

/// A line describing an action, for comparing whole pipeline runs.
fn describe(action: &DeployAction) -> String {
    match action {
        DeployAction::RunBuild { service, arch } => format!("build {} {}", service, arch),
        DeployAction::Remote { command } => format!("remote {}", command),
        DeployAction::CheckLocalPath { path } => format!("check {}", path),
        DeployAction::CopyToDevice { local_path, destination, recursive } => {
            format!("copy{} {} {}", if *recursive { " -r" } else { "" }, local_path, destination)
        },
        DeployAction::ReadTemplateFile { service } => format!("template {}", service),
    }
}

/// Drives a run answering success to everything; the libraries and data
/// files exist locally. Returns every action seen, in order.
fn drive_all_success(
    session: DeploySession,
    action: DeployAction,
    c: &DeployConfig,
    template: &str,
) -> (Vec<String>, Result<(), ServiceManagerError>) {
    let mut seen = vec![describe(&action)];
    let mut state = (session, action);
    loop {
        let (session, action) = state;
        let outcome = match &action {
            DeployAction::RunBuild { .. } => {
                session.build_finished(c, BuildOutcome::Finished { exit_code: 0 })
            },
            DeployAction::Remote { command } => {
                let cmd = command.clone();
                session.remote_finished(
                    c,
                    cmd,
                    CmdOutcome::Completed {
                        exit_status: 0,
                        stdout: String::new(),
                        stderr: String::new(),
                    },
                )
            },
            DeployAction::CheckLocalPath { .. } => session.path_checked(c, true),
            DeployAction::CopyToDevice { .. } => {
                session.copy_finished(c, CopyOutcome::Finished { success: true })
            },
            DeployAction::ReadTemplateFile { .. } => {
                session.template_read(c, TemplateOutcome::Read { content: template.to_string() })
            },
        };
        match outcome {
            DeployStepOutcome::Continue { session, action } => {
                seen.push(describe(&action));
                state = (session, action);
            },
            DeployStepOutcome::Complete => return (seen, Ok(())),
            DeployStepOutcome::Failed { error } => return (seen, Err(error)),
        }
    }
}

#[test]
fn full_pipeline_runs_every_station_in_order() {
    let m = manager();
    let c = config();
    let (session, action) = m.deploy_begin("svc").unwrap();
    assert_eq!(session.step, DeployStep::Build);
    let (seen, result) = drive_all_success(session, action, &c, "User={username}");
    assert!(result.is_ok());
    let expected = vec![
        "build svc arm".to_string(),
        "remote sudo mkdir -p /opt/services".to_string(),
        "remote sudo chown u /opt/services".to_string(),
        "check /home/op/fleet/targets/arm/svc_service".to_string(),
        "copy /home/op/fleet/targets/arm/svc_service u@1.2.3.4:/opt/services/svc".to_string(),
        "remote chmod 755 /opt/services/svc".to_string(),
        "remote test -f /opt/services/svc".to_string(),
        "remote sudo rm -rf /etc/services_ca".to_string(),
        "remote sudo mkdir -p /etc/services_ca".to_string(),
        "remote sudo chown u /etc/services_ca".to_string(),
        "remote sudo chmod 700 /etc/services_ca".to_string(),
        "copy /home/op/mosquitto/ca.crt u@1.2.3.4:/etc/services_ca/ca.crt".to_string(),
        "remote sudo chown u /etc/services_ca/ca.crt".to_string(),
        "remote sudo chmod 644 /etc/services_ca/ca.crt".to_string(),
        "remote sudo rm -rf /usr/local/lib/svc".to_string(),
        "remote sudo mkdir -p /usr/local/lib/svc".to_string(),
        "remote sudo chown u /usr/local/lib/svc".to_string(),
        "check /home/op/fleet/services/svc/lib".to_string(),
        "copy -r /home/op/fleet/services/svc/lib/. u@1.2.3.4:/usr/local/lib/svc".to_string(),
        "remote sudo rm -rf /usr/local/share/svc".to_string(),
        "remote sudo mkdir -p /usr/local/share/svc".to_string(),
        "remote sudo chown u /usr/local/share/svc".to_string(),
        "check /home/op/fleet/services/svc/models".to_string(),
        "copy -r /home/op/fleet/services/svc/models/. u@1.2.3.4:/usr/local/share/svc".to_string(),
        "remote sudo systemctl disable svc || true; sudo systemctl unmask svc || true; sudo rm -f /etc/systemd/system/svc".to_string(),
        "template svc".to_string(),
        "remote echo 'User=u' | sudo tee /etc/systemd/system/svc.service".to_string(),
        "remote sudo systemctl daemon-reload".to_string(),
    ];
    assert_eq!(seen, expected);
}

#[test]
fn missing_sources_skip_their_transfers() {
    let m = manager();
    let c = config();
    let (session, action) = m.deploy_begin("svc").unwrap();
    // answer "absent" to the lib and models checks, success to everything else
    let mut seen = vec![describe(&action)];
    let mut state = (session, action);
    let result = loop {
        let (session, action) = state;
        let outcome = match &action {
            DeployAction::RunBuild { .. } => {
                session.build_finished(&c, BuildOutcome::Finished { exit_code: 0 })
            },
            DeployAction::Remote { command } => {
                let cmd = command.clone();
                session.remote_finished(
                    &c,
                    cmd,
                    CmdOutcome::Completed {
                        exit_status: 0,
                        stdout: String::new(),
                        stderr: String::new(),
                    },
                )
            },
            DeployAction::CheckLocalPath { path } => {
                let exists = !path.ends_with("/lib") && !path.ends_with("/models");
                session.path_checked(&c, exists)
            },
            DeployAction::CopyToDevice { .. } => {
                session.copy_finished(&c, CopyOutcome::Finished { success: true })
            },
            DeployAction::ReadTemplateFile { .. } => {
                session.template_read(&c, TemplateOutcome::Read { content: "x".to_string() })
            },
        };
        match outcome {
            DeployStepOutcome::Continue { session, action } => {
                seen.push(describe(&action));
                state = (session, action);
            },
            DeployStepOutcome::Complete => break Ok(()),
            DeployStepOutcome::Failed { error } => break Err(error),
        }
    };
    assert!(result.is_ok());
    assert!(!seen.iter().any(|l| l.starts_with("copy -r")));
    // the artifact itself was still transferred
    assert!(seen.iter().any(|l| l.starts_with("copy /home/op/fleet/targets/")));
}

#[test]
fn absent_artifact_aborts_before_any_transfer() {
    let m = manager();
    let c = config();
    let (session, action) = m.deploy_begin("svc").unwrap();
    let mut copies = 0;
    let mut state = (session, action);
    let error = loop {
        let (session, action) = state;
        let outcome = match &action {
            DeployAction::RunBuild { .. } => {
                session.build_finished(&c, BuildOutcome::Finished { exit_code: 0 })
            },
            DeployAction::Remote { command } => {
                let cmd = command.clone();
                session.remote_finished(
                    &c,
                    cmd,
                    CmdOutcome::Completed {
                        exit_status: 0,
                        stdout: String::new(),
                        stderr: String::new(),
                    },
                )
            },
            DeployAction::CheckLocalPath { .. } => session.path_checked(&c, false),
            DeployAction::CopyToDevice { .. } => {
                copies += 1;
                session.copy_finished(&c, CopyOutcome::Finished { success: true })
            },
            DeployAction::ReadTemplateFile { .. } => {
                session.template_read(&c, TemplateOutcome::Read { content: "x".to_string() })
            },
        };
        match outcome {
            DeployStepOutcome::Continue { session, action } => state = (session, action),
            DeployStepOutcome::Complete => panic!("must not complete without an artifact"),
            DeployStepOutcome::Failed { error } => break error,
        }
    };
    match error {
        ServiceManagerError::DeploymentError(DeployFailure::ArtifactMissing { path }) => {
            assert_eq!(path, "/home/op/fleet/targets/arm/svc_service");
        },
        other => panic!("expected a missing-artifact error, got {:?}", other),
    }
    // no secure copy was ever requested
    assert_eq!(copies, 0);
    // and recording the failed run leaves the status where it was
    let mut m = m;
    let failure = ServiceManagerError::DeploymentError(DeployFailure::ArtifactMissing {
        path: "/home/op/fleet/targets/arm/svc_service".to_string(),
    });
    assert!(m.deploy_service("svc", Err(failure)).is_err());
    let status = m.get_services().iter().find(|s| s.name == "svc").unwrap().status;
    assert_eq!(status, ServiceStatus::Created);
}

#[test]
fn failed_build_aborts_with_its_exit_code() {
    let m = manager();
    let c = config();
    let (session, _) = m.deploy_begin("svc").unwrap();
    match session.build_finished(&c, BuildOutcome::Finished { exit_code: 3 }) {
        DeployStepOutcome::Failed {
            error: ServiceManagerError::DeploymentError(DeployFailure::BuildFailed { exit_code }),
        } => assert_eq!(exit_code, 3),
        other => panic!("expected a build failure, got {:?}", describe_outcome(&other)),
    }
}

#[test]
fn unlaunchable_build_aborts_with_the_reported_text() {
    let m = manager();
    let c = config();
    let (session, _) = m.deploy_begin("svc").unwrap();
    match session.build_finished(
        &c,
        BuildOutcome::StartFailed { detail: "No such file or directory".to_string() },
    ) {
        DeployStepOutcome::Failed {
            error: ServiceManagerError::DeploymentError(DeployFailure::BuildStartFailed(d)),
        } => assert_eq!(d, "No such file or directory"),
        other => panic!("expected a build failure, got {:?}", describe_outcome(&other)),
    }
}

#[test]
fn missing_template_aborts_with_template_error() {
    let m = manager();
    let c = config();
    let (session, _) = m.deploy_begin("svc").unwrap();
    let session = DeploySession { step: DeployStep::ReadTemplate, ..session };
    match session.template_read(
        &c,
        TemplateOutcome::Missing { detail: "No such file (os error 2)".to_string() },
    ) {
        DeployStepOutcome::Failed { error: ServiceManagerError::TemplateError(m) } => {
            assert_eq!(m, "Failed to read template: No such file (os error 2)");
        },
        other => panic!("expected a template error, got {:?}", describe_outcome(&other)),
    }
}

#[test]
fn failed_remote_station_reports_its_command() {
    let m = manager();
    let c = config();
    let (session, _) = m.deploy_begin("svc").unwrap();
    let session = DeploySession { step: DeployStep::EnsureInstallDir, ..session };
    match session.remote_finished(
        &c,
        "sudo mkdir -p /opt/services".to_string(),
        CmdOutcome::Completed {
            exit_status: 2,
            stdout: String::new(),
            stderr: "denied".to_string(),
        },
    ) {
        DeployStepOutcome::Failed {
            error:
                ServiceManagerError::DeviceError(service_manager::errors::DeviceError::SshError {
                    command,
                    exit_status,
                    stderr,
                }),
        } => {
            assert_eq!(command, "sudo mkdir -p /opt/services");
            assert_eq!(exit_status, 2);
            assert_eq!(stderr, "denied");
        },
        other => panic!("expected an ssh error, got {:?}", describe_outcome(&other)),
    }
}

#[test]
fn unlaunchable_copy_is_an_io_error() {
    let m = manager();
    let c = config();
    let (session, _) = m.deploy_begin("svc").unwrap();
    let session = DeploySession { step: DeployStep::CopyCert, ..session };
    match session.copy_finished(
        &c,
        CopyOutcome::StartFailed { detail: "sshpass not installed".to_string() },
    ) {
        DeployStepOutcome::Failed { error: ServiceManagerError::IoError(d) } => {
            assert_eq!(d, "sshpass not installed");
        },
        other => panic!("expected an io error, got {:?}", describe_outcome(&other)),
    }
}

#[test]
fn failed_cert_copy_has_its_own_error() {
    let m = manager();
    let c = config();
    let (session, _) = m.deploy_begin("svc").unwrap();
    let session = DeploySession { step: DeployStep::CopyCert, ..session };
    match session.copy_finished(&c, CopyOutcome::Finished { success: false }) {
        DeployStepOutcome::Failed {
            error: ServiceManagerError::DeploymentError(DeployFailure::CertCopyFailed),
        } => {},
        other => panic!("expected a certificate-copy error, got {:?}", describe_outcome(&other)),
    }
}

#[test]
fn render_substitutes_every_recognized_placeholder() {
    let c = config();
    let template = "[Service]\nExecStart=/opt/services/svc --broker {mqtt_broker} \
        --user {mqtt_username} --pass {mqtt_password} --ca {mqtt_ca_dir} \
        --pv {picovoice_access_key}\nUser={username}\n";
    let rendered = render_unit_file(template, &c, "pi");
    assert_eq!(
        rendered,
        "[Service]\nExecStart=/opt/services/svc --broker ssl://broker:8883 \
        --user admin --pass buspass --ca /etc/services_ca \
        --pv pv-key\nUser=pi\n"
    );
}

#[test]
fn render_replaces_repeated_placeholders() {
    let c = config();
    assert_eq!(
        render_unit_file("{username}/{username}", &c, "pi"),
        "pi/pi"
    );
}

fn describe_outcome(outcome: &DeployStepOutcome) -> String {
    match outcome {
        DeployStepOutcome::Continue { action, .. } => format!("continue: {:?}", action_kind(action)),
        DeployStepOutcome::Failed { error } => format!("failed: {:?}", error),
        DeployStepOutcome::Complete => "complete".to_string(),
    }
}

fn action_kind(action: &DeployAction) -> &'static str {
    match action {
        DeployAction::RunBuild { .. } => "build",
        DeployAction::Remote { .. } => "remote",
        DeployAction::CheckLocalPath { .. } => "check",
        DeployAction::CopyToDevice { .. } => "copy",
        DeployAction::ReadTemplateFile { .. } => "template",
    }
}
