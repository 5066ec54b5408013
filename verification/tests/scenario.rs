use service_manager::bus::{format_event, EventChannel, RecvOutcome};
use service_manager::deploy::{
    BuildOutcome, CopyOutcome, DeployAction, DeployConfig, DeployStepOutcome, TemplateOutcome,
};
use service_manager::device::{CmdOutcome, Device, DeviceRegistry};
use service_manager::errors::{ServiceError, ServiceManagerError};
use service_manager::service::{ServiceManager, ServiceStatus};

fn ok_cmd() -> CmdOutcome {
    CmdOutcome::Completed { exit_status: 0, stdout: String::new(), stderr: String::new() }
}

fn status_of(manager: &ServiceManager, name: &str) -> ServiceStatus {
    manager.get_services().iter().find(|s| s.name == name).unwrap().status
}

/// The whole operator story on a stubbed fleet: create on the device,
/// deploy with a build step that succeeds and a reachable device, start,
/// start again (rejected), stop, and watch a published command reach every
/// connected observer.
#[test]
fn led_manager_end_to_end() {
    let mut registry = DeviceRegistry::new();
    registry.add_device(Device::new(
        "rpi02W".to_string(),
        "armv6l".to_string(),
        "192.168.1.42".to_string(),
        "pi".to_string(),
        "raspberry".to_string(),
    ));
    let mut manager = ServiceManager::new(registry);

    manager
        .create_service("led_manager".to_string(), "rpi02W".to_string())
        .unwrap();
    assert_eq!(status_of(&manager, "led_manager"), ServiceStatus::Created);

    // deploy: every station of the pipeline answers success
    let config = DeployConfig {
        root_dir: "/home/op/fleet".to_string(),
        mqtt_broker: "ssl://broker:8883".to_string(),
        mqtt_username: "admin".to_string(),
        mqtt_password: "buspass".to_string(),
        services_ca_dir: "/etc/services_ca".to_string(),
        picovoice_access_key: "pv-key".to_string(),
        mosquitto_dir: "/home/op/mosquitto".to_string(),
    };
    let (session, action) = manager.deploy_begin("led_manager").unwrap();
    let mut state = (session, action);
    let pipeline = loop {
        let (session, action) = state;
        let outcome = match &action {
            DeployAction::RunBuild { .. } => {
                session.build_finished(&config, BuildOutcome::Finished { exit_code: 0 })
            },
            DeployAction::Remote { command } => {
                let cmd = command.clone();
                session.remote_finished(&config, cmd, ok_cmd())
            },
            DeployAction::CheckLocalPath { .. } => session.path_checked(&config, true),
            DeployAction::CopyToDevice { .. } => {
                session.copy_finished(&config, CopyOutcome::Finished { success: true })
            },
            DeployAction::ReadTemplateFile { .. } => session.template_read(
                &config,
                TemplateOutcome::Read { content: "User={username}".to_string() },
            ),
        };
        match outcome {
            DeployStepOutcome::Continue { session, action } => state = (session, action),
            DeployStepOutcome::Complete => break Ok(()),
            DeployStepOutcome::Failed { error } => break Err(error),
        }
    };
    manager.deploy_service("led_manager", pipeline).unwrap();
    assert_eq!(status_of(&manager, "led_manager"), ServiceStatus::Deployed);

    // the returned topic namespace is what the bus client resubscribes to
    let topic = manager.start_service("led_manager", ok_cmd()).unwrap();
    assert_eq!(topic, "led_manager");
    assert_eq!(status_of(&manager, "led_manager"), ServiceStatus::Running);

    match manager.start_service("led_manager", ok_cmd()) {
        Err(ServiceManagerError::ServiceError(ServiceError::ServiceStatusError(_))) => {},
        other => panic!("expected a status error, got {:?}", other),
    }
    assert_eq!(status_of(&manager, "led_manager"), ServiceStatus::Running);

    manager.stop_service("led_manager", ok_cmd()).unwrap();
    assert_eq!(status_of(&manager, "led_manager"), ServiceStatus::Stopped);

    // publish: every observer connected before the delivery sees the frame
    let mut channel = EventChannel::new(100);
    let mut first = channel.subscribe();
    let mut second = channel.subscribe();
    let frame = format_event("home/services/led_manager/command", "{\"action\":\"on\"}");
    channel.send(frame);
    for rx in [&mut first, &mut second] {
        match channel.recv(rx) {
            RecvOutcome::Message(m) => assert_eq!(
                m,
                "topic 'home/services/led_manager/command': {\"action\":\"on\"}"
            ),
            other => panic!(
                "expected the frame, got {}",
                match other {
                    RecvOutcome::Lagged => "a lag report",
                    _ => "an empty channel",
                }
            ),
        }
    }
    // an observer connecting after the delivery sees nothing of it
    let mut late = channel.subscribe();
    assert!(matches!(channel.recv(&mut late), RecvOutcome::Empty));
}
