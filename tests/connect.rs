use tedge_connect::bridge::{CommonMosquittoConfig, Settings};
use tedge_connect::cloud::{Cloud, DeviceStatus, SystemService};
use tedge_connect::connect::{check_connected_c8y_tenant_as_configured, ConnectCommand, FollowUp, TenantCheck};
use tedge_connect::error::ConnectError;

fn settings() -> Settings {
    Settings {
        c8y_url: Some("example.cumulocity.com".to_string()),
        azure_url: None,
        c8y_root_cert_path: Some("/etc/ssl/certs".to_string()),
        azure_root_cert_path: None,
        device_id: Some("dev1".to_string()),
        device_cert_path: Some("/c.pem".to_string()),
        device_key_path: Some("/k.pem".to_string()),
        device_type: Some("thin-edge.io".to_string()),
        c8y_smartrest_templates: Vec::new(),
        mqtt_port: Some(1883),
        mqtt_bind_address: Some("localhost".to_string()),
        mqtt_external_port: Some(8883),
        mqtt_external_bind_address: None,
        mqtt_external_bind_interface: Some("eth0".to_string()),
        mqtt_external_ca_path: None,
        mqtt_external_certfile: None,
        mqtt_external_keyfile: None,
    }
}

fn command(cloud: Cloud, is_test_connection: bool) -> ConnectCommand {
    ConnectCommand {
        config_root: "/etc/tedge".to_string(),
        cloud,
        common_mosquitto_config: CommonMosquittoConfig::new(),
        is_test_connection,
    }
}

#[test]
fn descriptions() {
    assert_eq!(command(Cloud::C8y, false).description(), "connect Cumulocity cloud.");
    assert_eq!(command(Cloud::Azure, true).description(), "test connection to Azure cloud.");
}

#[test]
fn prepare_applies_listener_settings() {
    let (bridge, common) = command(Cloud::C8y, false).prepare(&settings()).unwrap();
    assert_eq!(bridge.connect_url, "example.cumulocity.com");
    assert_eq!(common.internal_port, 1883);
    assert_eq!(common.internal_bind_address, "localhost");
    assert_eq!(common.external_port, Some(8883));
    assert_eq!(common.external_bind_interface, Some("eth0".to_string()));
}

#[test]
fn prepare_fails_on_missing_listener_or_cloud_setting() {
    let mut s = settings();
    s.mqtt_bind_address = None;
    assert_eq!(
        command(Cloud::C8y, false).prepare(&s).unwrap_err(),
        ConnectError::SettingNotConfigured { key: "mqtt.bind_address".to_string() }
    );
    assert_eq!(
        command(Cloud::Azure, false).prepare(&settings()).unwrap_err(),
        ConnectError::SettingNotConfigured { key: "az.url".to_string() }
    );
    let mut s = settings();
    s.device_type = None;
    assert!(command(Cloud::C8y, false).device_type(&s).is_err());
}

#[test]
fn connection_test_needs_bridge() {
    let cmd = command(Cloud::Azure, true);
    assert_eq!(cmd.require_bridge(true), Ok(()));
    assert_eq!(cmd.require_bridge(false), Err(ConnectError::DeviceNotConnected { cloud: Cloud::Azure }));
    assert!(cmd.is_connected(&Ok(DeviceStatus::AlreadyExists)));
    assert!(!cmd.is_connected(&Ok(DeviceStatus::Unknown)));
    assert!(!cmd.is_connected(&Err(ConnectError::ProbeUnreachable)));
}

#[test]
fn follow_ups_per_cloud() {
    let cmd = command(Cloud::C8y, false);
    let (bridge, _) = cmd.prepare(&settings()).unwrap();
    assert_eq!(
        cmd.follow_ups(&bridge),
        vec![
            FollowUp::CheckConnection,
            FollowUp::StartMapper { service: SystemService::TEdgeMapperC8y },
            FollowUp::CheckTenant,
            FollowUp::StartAgent { service: SystemService::TEdgeSMAgent },
        ]
    );
    assert_eq!(Cloud::Azure.dependent_mapper_service(), SystemService::TEdgeMapperAz);
    assert_eq!(Cloud::C8y.as_str(), "Cumulocity");
}

#[test]
fn tenant_cross_check() {
    let url = "example.cumulocity.com";
    assert_eq!(check_connected_c8y_tenant_as_configured(url, &Some(url.to_string())), TenantCheck::Matches);
    assert_eq!(
        check_connected_c8y_tenant_as_configured(url, &Some("other.cumulocity.com".to_string())),
        TenantCheck::Mismatch
    );
    assert_eq!(check_connected_c8y_tenant_as_configured(url, &None), TenantCheck::Unavailable);
}
