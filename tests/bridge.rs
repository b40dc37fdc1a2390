use tedge_connect::bridge::{
    build_bridge_config, get_bridge_config_file_path, get_common_mosquitto_config_file_path,
    CommonMosquittoConfig, Settings,
};
use tedge_connect::cloud::Cloud;
use tedge_connect::error::ConnectError;
use tedge_connect::text::{decimal_string, join_path, str_contains};

fn settings() -> Settings {
    Settings {
        c8y_url: Some("mqtt.example.com".to_string()),
        azure_url: Some("hub.azure-devices.net".to_string()),
        c8y_root_cert_path: Some("/etc/ssl/certs".to_string()),
        azure_root_cert_path: Some("/etc/ssl/az".to_string()),
        device_id: Some("dev1".to_string()),
        device_cert_path: Some("/c.pem".to_string()),
        device_key_path: Some("/k.pem".to_string()),
        device_type: None,
        c8y_smartrest_templates: vec!["t1".to_string()],
        mqtt_port: Some(1883),
        mqtt_bind_address: Some("0.0.0.0".to_string()),
        mqtt_external_port: None,
        mqtt_external_bind_address: None,
        mqtt_external_bind_interface: None,
        mqtt_external_ca_path: None,
        mqtt_external_certfile: None,
        mqtt_external_keyfile: None,
    }
}

#[test]
fn c8y_bridge_text() {
    let bridge = build_bridge_config(Cloud::C8y, &settings()).unwrap();
    assert_eq!(bridge.cloud_name, "c8y");
    assert_eq!(bridge.config_file, "c8y-bridge.conf");
    assert!(bridge.use_agent && bridge.use_mapper);
    let expected = "connection edge_to_c8y\n\
        address mqtt.example.com:8883\n\
        bridge_capath /etc/ssl/certs\n\
        remote_clientid dev1\n\
        bridge_certfile /c.pem\n\
        bridge_keyfile /k.pem\n\
        try_private false\n\
        start_type automatic\n\
        cleansession true\n\
        notifications false\n\
        topic s/uc/t1 out 2 c8y/ \"\"\n\
        topic s/dc/t1 in 2 c8y/ \"\"\n";
    assert_eq!(bridge.serialize(), expected);
}

#[test]
fn azure_bridge_has_no_templates_nor_agent() {
    let bridge = build_bridge_config(Cloud::Azure, &settings()).unwrap();
    assert_eq!(bridge.cloud_name, "az");
    assert!(!bridge.use_agent);
    assert!(bridge.smartrest_templates.is_empty());
    assert_eq!(bridge.bridge_root_cert_path, "/etc/ssl/az");
}

#[test]
fn missing_setting_is_named() {
    let mut s = settings();
    s.device_id = None;
    s.device_key_path = None;
    assert_eq!(
        build_bridge_config(Cloud::C8y, &s).unwrap_err(),
        ConnectError::SettingNotConfigured { key: "device.id".to_string() }
    );
    let mut s = settings();
    s.azure_url = None;
    assert_eq!(
        build_bridge_config(Cloud::Azure, &s).unwrap_err(),
        ConnectError::SettingNotConfigured { key: "az.url".to_string() }
    );
}

#[test]
fn builder_is_deterministic() {
    let a = build_bridge_config(Cloud::C8y, &settings()).unwrap();
    let b = build_bridge_config(Cloud::C8y, &settings()).unwrap();
    assert_eq!(a.serialize(), b.serialize());
}

#[test]
fn common_text_with_external_listener() {
    let common = CommonMosquittoConfig::new()
        .with_internal_opts(1884, "127.0.0.1".to_string())
        .with_external_opts(
            Some(8883),
            Some("0.0.0.0".to_string()),
            None,
            Some("/ca".to_string()),
            None,
            Some("/key".to_string()),
        );
    let expected = "listener 1884 127.0.0.1\n\
        allow_anonymous true\n\
        require_certificate false\n\
        listener 8883 0.0.0.0\n\
        capath /ca\n\
        keyfile /key\n";
    assert_eq!(common.serialize(), expected);
}

#[test]
fn common_text_without_external_port() {
    let common = CommonMosquittoConfig::new().with_external_opts(
        None,
        Some("0.0.0.0".to_string()),
        None,
        None,
        None,
        None,
    );
    assert_eq!(
        common.serialize(),
        "listener 1883 localhost\nallow_anonymous true\nrequire_certificate false\n"
    );
}

#[test]
fn file_paths() {
    let bridge = build_bridge_config(Cloud::Azure, &settings()).unwrap();
    assert_eq!(get_bridge_config_file_path("/etc/tedge", &bridge), "/etc/tedge/mosquitto-conf/az-bridge.conf");
    assert_eq!(get_bridge_config_file_path("/etc/tedge/", &bridge), "/etc/tedge/mosquitto-conf/az-bridge.conf");
    let common = CommonMosquittoConfig::new();
    assert_eq!(
        get_common_mosquitto_config_file_path("/etc/tedge", &common),
        "/etc/tedge/mosquitto-conf/tedge-mosquitto.conf"
    );
}

#[test]
fn text_helpers() {
    assert_eq!(decimal_string(0), "0");
    assert_eq!(decimal_string(8883), "8883");
    assert_eq!(decimal_string(65535), "65535");
    assert_eq!(join_path("/a", "b"), "/a/b");
    assert_eq!(join_path("/a/", "b"), "/a/b");
    assert_eq!(join_path("/a", "/b"), "/b");
    assert_eq!(join_path("", "b"), "b");
    assert!(str_contains("az/twin/res/200/?$rid=1", "200"));
    assert!(!str_contains("az/twin/res/20", "200"));
    assert!(str_contains("abc", ""));
}
