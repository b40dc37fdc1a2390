use std::collections::HashMap;
use tedge_connect::bridge::{BridgeConfig, CommonMosquittoConfig, Settings};
use tedge_connect::cloud::{Cloud, SystemService};
use tedge_connect::connect::ConnectCommand;
use tedge_connect::error::ConnectError;
use tedge_connect::saga::{clean_up, new_bridge, Removal, SagaAction, StepOutcome};

struct Host {
    files: HashMap<String, String>,
    manager_ok: bool,
    failing_write: Option<String>,
    restarts: u32,
    enables: u32,
    registrations: u32,
    log: Vec<String>,
}

impl Host {
    fn new() -> Host {
        Host {
            files: HashMap::new(),
            manager_ok: true,
            failing_write: None,
            restarts: 0,
            enables: 0,
            registrations: 0,
            log: Vec::new(),
        }
    }

    fn outcome(ok: bool) -> StepOutcome {
        if ok {
            StepOutcome::Succeeded
        } else {
            StepOutcome::Failed
        }
    }

    fn perform(&mut self, action: &SagaAction) -> StepOutcome {
        match action {
            SagaAction::CheckServiceManager => Host::outcome(self.manager_ok),
            SagaAction::EnsureAbsent { path } => Host::outcome(!self.files.contains_key(path)),
            SagaAction::ValidateCertificates { .. } => StepOutcome::Succeeded,
            SagaAction::RegisterDevice { .. } => {
                self.registrations += 1;
                StepOutcome::Succeeded
            }
            SagaAction::CreateDirectories { .. } => StepOutcome::Succeeded,
            SagaAction::WriteFile { path, contents } => {
                if self.failing_write.as_deref() == Some(path.as_str()) {
                    StepOutcome::Failed
                } else {
                    self.files.insert(path.clone(), contents.clone());
                    StepOutcome::Succeeded
                }
            }
            SagaAction::RemoveFile { path } => {
                let removal = if self.files.remove(path).is_some() {
                    Removal::Removed
                } else {
                    Removal::NotFound
                };
                clean_up(removal)
            }
            SagaAction::RestartService { .. } => {
                self.restarts += 1;
                StepOutcome::Succeeded
            }
            SagaAction::Sleep { .. } => StepOutcome::Succeeded,
            SagaAction::EnableService { .. } => {
                self.enables += 1;
                StepOutcome::Succeeded
            }
            SagaAction::Finish { .. } => StepOutcome::Succeeded,
        }
    }
}

fn settings() -> Settings {
    Settings {
        c8y_url: Some("https://example.cumulocity.com".to_string()),
        azure_url: Some("example.azure-devices.net".to_string()),
        c8y_root_cert_path: Some("/etc/ssl/certs".to_string()),
        azure_root_cert_path: Some("/etc/ssl/certs".to_string()),
        device_id: Some("alpha".to_string()),
        device_cert_path: Some("/etc/tedge/device-certs/tedge-certificate.pem".to_string()),
        device_key_path: Some("/etc/tedge/device-certs/tedge-private-key.pem".to_string()),
        device_type: Some("thin-edge.io".to_string()),
        c8y_smartrest_templates: Vec::new(),
        mqtt_port: Some(1883),
        mqtt_bind_address: Some("127.0.0.1".to_string()),
        mqtt_external_port: None,
        mqtt_external_bind_address: None,
        mqtt_external_bind_interface: None,
        mqtt_external_ca_path: None,
        mqtt_external_certfile: None,
        mqtt_external_keyfile: None,
    }
}

fn command(cloud: Cloud) -> ConnectCommand {
    ConnectCommand {
        config_root: "/etc/tedge".to_string(),
        cloud,
        common_mosquitto_config: CommonMosquittoConfig::new(),
        is_test_connection: false,
    }
}

fn prepared(cloud: Cloud) -> (BridgeConfig, CommonMosquittoConfig) {
    command(cloud).prepare(&settings()).unwrap()
}

fn establish(cloud: Cloud, host: &mut Host) -> Result<(), ConnectError> {
    let (bridge, common) = prepared(cloud);
    let (mut saga, mut action) =
        new_bridge(cloud, bridge, common, "/etc/tedge".to_string(), "thin-edge.io".to_string());
    loop {
        host.log.push(format!("{:?}", action));
        if let SagaAction::Finish { result } = &action {
            return result.clone();
        }
        let outcome = host.perform(&action);
        action = saga.advance(outcome);
    }
}

#[test]
fn second_establish_is_rejected_and_keeps_files() {
    for cloud in [Cloud::C8y, Cloud::Azure] {
        let mut host = Host::new();
        assert_eq!(establish(cloud, &mut host), Ok(()));
        let files = host.files.clone();
        assert_eq!(
            establish(cloud, &mut host),
            Err(ConnectError::ConfigurationExists { cloud })
        );
        assert_eq!(host.files, files);
        assert_eq!(host.restarts, 1);
        assert_eq!(host.enables, 1);
    }
}

#[test]
fn failed_second_write_removes_bridge_file() {
    let mut host = Host::new();
    host.failing_write = Some("/etc/tedge/mosquitto-conf/tedge-mosquitto.conf".to_string());
    assert_eq!(establish(Cloud::C8y, &mut host), Err(ConnectError::IoFailure));
    assert!(host.files.is_empty());
    assert_eq!(host.restarts, 0);
}

#[test]
fn failed_first_write_leaves_nothing() {
    let mut host = Host::new();
    host.failing_write = Some("/etc/tedge/mosquitto-conf/az-bridge.conf".to_string());
    assert_eq!(establish(Cloud::Azure, &mut host), Err(ConnectError::IoFailure));
    assert!(host.files.is_empty());
}

#[test]
fn clean_up_of_absent_file_succeeds() {
    assert_eq!(clean_up(Removal::NotFound), StepOutcome::Succeeded);
    assert_eq!(clean_up(Removal::Removed), StepOutcome::Succeeded);
    assert_eq!(clean_up(Removal::Failed), StepOutcome::Failed);
}

#[test]
fn end_to_end_registration_profile() {
    let mut host = Host::new();
    assert_eq!(establish(Cloud::C8y, &mut host), Ok(()));
    assert_eq!(host.files.len(), 2);
    assert_eq!(host.registrations, 1);
    let bridge = &host.files["/etc/tedge/mosquitto-conf/c8y-bridge.conf"];
    assert!(bridge.contains("address https://example.cumulocity.com:8883\n"));
    let common = &host.files["/etc/tedge/mosquitto-conf/tedge-mosquitto.conf"];
    assert!(common.contains("listener 1883 127.0.0.1\n"));
    assert_eq!(
        establish(Cloud::C8y, &mut host),
        Err(ConnectError::ConfigurationExists { cloud: Cloud::C8y })
    );
}

#[test]
fn end_to_end_without_supervisor() {
    let mut host = Host::new();
    host.manager_ok = false;
    assert_eq!(establish(Cloud::C8y, &mut host), Err(ConnectError::ServiceManagerUnavailable));
    assert_eq!(host.files.len(), 2);
    assert_eq!(host.restarts, 0);
    assert_eq!(host.enables, 0);
}

#[test]
fn saga_steps_in_order() {
    let mut host = Host::new();
    assert_eq!(establish(Cloud::Azure, &mut host), Ok(()));
    let expected = [
        "CheckServiceManager",
        "EnsureAbsent",
        "ValidateCertificates",
        "CreateDirectories",
        "WriteFile",
        "WriteFile",
        "RestartService",
        "Sleep",
        "EnableService",
        "Finish",
    ];
    assert_eq!(host.log.len(), expected.len());
    for (line, name) in host.log.iter().zip(expected.iter()) {
        assert!(line.starts_with(name), "{} is not {}", line, name);
    }
    assert!(host.log[6].contains(&format!("{:?}", SystemService::Mosquitto)));
    assert!(host.log[7].contains("seconds: 5"));
}
