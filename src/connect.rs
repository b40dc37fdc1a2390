//! The `connect` command: what it reads from the settings, what it hands to
//! the saga, what it reports and which follow-ups it asks for once the
//! bridge is established.

use vstd::prelude::*;
use crate::bridge::{
    build_bridge_config, bridge_from, conf_path, copy_opt, get_bridge_config_file_path,
    missing_bridge_setting, BridgeConfig, CommonMosquittoConfig, Settings,
};
use crate::cloud::{Cloud, DeviceStatus, SystemService};
use crate::error::ConnectError;

verus! {

/// One invocation of the `connect` command.
pub struct ConnectCommand {
    /// The root of the configuration directory.
    pub config_root: String,
    pub cloud: Cloud,
    pub common_mosquitto_config: CommonMosquittoConfig,
    /// Only test the connection of an existing bridge.
    pub is_test_connection: bool,
}

/// A best-effort step after the bridge is established; none of them alters
/// the command's result.
#[derive(Debug, Clone, Copy, PartialEq, Eq, Structural)]
pub enum FollowUp {
    /// Run the connectivity check and report its outcome.
    CheckConnection,
    /// Start and enable the cloud's mapper, if it is installed.
    StartMapper { service: SystemService },
    /// Compare the tenant the cloud reports with the configured one.
    CheckTenant,
    /// Start and enable the software-management agent, if it is installed.
    StartAgent { service: SystemService },
}

/// What the cross-check of the connected tenant found.
#[derive(Debug, Clone, Copy, PartialEq, Eq, Structural)]
pub enum TenantCheck {
    Matches,
    /// The device is connected to another tenant than the configured one.
    Mismatch,
    /// The cloud did not say which tenant it is.
    Unavailable,
}

/// The key of the first local-listener setting that `s` lacks.
pub open spec fn missing_listener_setting(s: Settings) -> Option<Seq<char>> {
    if s.mqtt_port is None {
        Some("mqtt.port"@)
    } else if s.mqtt_bind_address is None {
        Some("mqtt.bind_address"@)
    } else {
        None
    }
}

/// The first setting, in the order they are read, that connecting lacks.
pub open spec fn missing_connect_setting(cloud: Cloud, s: Settings) -> Option<Seq<char>> {
    if missing_bridge_setting(cloud, s) is Some {
        missing_bridge_setting(cloud, s)
    } else {
        missing_listener_setting(s)
    }
}

/// `c` is `base` with the listeners that the settings `s` describe.
pub open spec fn common_from(base: CommonMosquittoConfig, s: Settings, c: CommonMosquittoConfig) -> bool {
    &&& c.config_file == base.config_file
    &&& c.internal_port == s.mqtt_port.unwrap()
    &&& c.internal_bind_address@ == s.mqtt_bind_address.unwrap()@
    &&& c.external_port == s.mqtt_external_port
    &&& c.external_bind_address == s.mqtt_external_bind_address
    &&& c.external_bind_interface == s.mqtt_external_bind_interface
    &&& c.external_capath == s.mqtt_external_ca_path
    &&& c.external_certfile == s.mqtt_external_certfile
    &&& c.external_keyfile == s.mqtt_external_keyfile
}

pub open spec fn setting_error(key: Seq<char>, e: ConnectError) -> bool {
    e matches ConnectError::SettingNotConfigured { key: k } && k@ == key
}

impl ConnectCommand {
    pub open spec fn spec_description(self) -> Seq<char> {
        if self.is_test_connection {
            "test connection to "@ + self.cloud.spec_as_str() + " cloud."@
        } else {
            "connect "@ + self.cloud.spec_as_str() + " cloud."@
        }
    }

    /// One line saying what the command does.
    pub fn description(&self) -> (r: String)
        ensures
            r@ == self.spec_description(),
    {
        if self.is_test_connection {
            String::from_str("test connection to ").concat(self.cloud.as_str()).concat(" cloud.")
        } else {
            String::from_str("connect ").concat(self.cloud.as_str()).concat(" cloud.")
        }
    }

    /// The bridge of this command's cloud, built from the settings.
    pub fn bridge_config(&self, s: &Settings) -> (r: Result<BridgeConfig, ConnectError>)
        ensures
            missing_bridge_setting(self.cloud, *s) is None <==> r is Ok,
            r matches Ok(b) ==> bridge_from(self.cloud, *s, b),
            r matches Err(e) ==> setting_error(missing_bridge_setting(self.cloud, *s).unwrap(), e),
    {
        build_bridge_config(self.cloud, s)
    }

    /// Where the bridge's file lies, so that its existence can be checked.
    pub fn bridge_config_path(&self, bridge: &BridgeConfig) -> (r: String)
        ensures
            r@ == conf_path(self.config_root@, bridge.config_file@),
    {
        get_bridge_config_file_path(self.config_root.as_str(), bridge)
    }

    /// The address and port the connectivity check connects to.
    pub fn local_endpoint(&self, s: &Settings) -> (r: Result<(String, u16), ConnectError>)
        ensures
            missing_listener_setting(*s) is None <==> r is Ok,
            r matches Ok(p) ==> p.0@ == s.mqtt_bind_address.unwrap()@ && p.1
                == s.mqtt_port.unwrap(),
            r matches Err(e) ==> setting_error(missing_listener_setting(*s).unwrap(), e),
    {
        let port = match s.mqtt_port {
            Some(p) => p,
            None => {
                return Err(ConnectError::SettingNotConfigured { key: String::from_str("mqtt.port") });
            },
        };
        match &s.mqtt_bind_address {
            Some(a) => Ok((a.clone(), port)),
            None => Err(
                ConnectError::SettingNotConfigured { key: String::from_str("mqtt.bind_address") },
            ),
        }
    }

    /// The bridge and the shared options that connecting writes.
    pub fn prepare(&self, s: &Settings) -> (r: Result<
        (BridgeConfig, CommonMosquittoConfig),
        ConnectError,
    >)
        ensures
            missing_connect_setting(self.cloud, *s) is None <==> r is Ok,
            r matches Ok(p) ==> bridge_from(self.cloud, *s, p.0) && common_from(
                self.common_mosquitto_config,
                *s,
                p.1,
            ),
            r matches Err(e) ==> setting_error(missing_connect_setting(self.cloud, *s).unwrap(), e),
    {
        let bridge = self.bridge_config(s)?;
        let (address, port) = self.local_endpoint(s)?;
        let common = self.common_mosquitto_config.copy().with_internal_opts(port, address);
        let common = common.with_external_opts(
            s.mqtt_external_port,
            copy_opt(&s.mqtt_external_bind_address),
            copy_opt(&s.mqtt_external_bind_interface),
            copy_opt(&s.mqtt_external_ca_path),
            copy_opt(&s.mqtt_external_certfile),
            copy_opt(&s.mqtt_external_keyfile),
        );
        Ok((bridge, common))
    }

    /// The device type handed to the cloud's registration.
    pub fn device_type(&self, s: &Settings) -> (r: Result<String, ConnectError>)
        ensures
            s.device_type is Some <==> r is Ok,
            r matches Ok(t) ==> t@ == s.device_type.unwrap()@,
            r matches Err(e) ==> setting_error("device.type"@, e),
    {
        match &s.device_type {
            Some(t) => Ok(t.clone()),
            None => Err(ConnectError::SettingNotConfigured { key: String::from_str("device.type") }),
        }
    }

    /// A connection test needs an existing bridge.
    pub fn require_bridge(&self, bridge_exists: bool) -> (r: Result<(), ConnectError>)
        ensures
            bridge_exists ==> r is Ok,
            !bridge_exists ==> r == Err::<(), ConnectError>(
                ConnectError::DeviceNotConnected { cloud: self.cloud },
            ),
    {
        if bridge_exists {
            Ok(())
        } else {
            Err(ConnectError::DeviceNotConnected { cloud: self.cloud })
        }
    }

    /// Whether a connectivity check's outcome proves the connection; an
    /// unknown outcome or an unreachable check is reported as a warning only.
    pub fn is_connected(&self, outcome: &Result<DeviceStatus, ConnectError>) -> (r: bool)
        ensures
            r == (*outcome == Ok::<DeviceStatus, ConnectError>(DeviceStatus::AlreadyExists)),
    {
        match outcome {
            Ok(DeviceStatus::AlreadyExists) => true,
            _ => false,
        }
    }

    pub open spec fn spec_follow_ups(self, bridge: BridgeConfig) -> Seq<FollowUp> {
        let mapper = if bridge.use_mapper {
            seq![FollowUp::StartMapper { service: self.cloud.spec_mapper_service() }]
        } else {
            Seq::empty()
        };
        let tenant = if self.cloud == Cloud::C8y {
            seq![FollowUp::CheckTenant] + if bridge.use_agent {
                seq![FollowUp::StartAgent { service: SystemService::TEdgeSMAgent }]
            } else {
                Seq::empty()
            }
        } else {
            Seq::empty()
        };
        seq![FollowUp::CheckConnection] + mapper + tenant
    }

    /// The best-effort steps after the bridge is established, in order.
    pub fn follow_ups(&self, bridge: &BridgeConfig) -> (r: Vec<FollowUp>)
        ensures
            r@ == self.spec_follow_ups(*bridge),
    {
        let mut r: Vec<FollowUp> = Vec::new();
        r.push(FollowUp::CheckConnection);
        if bridge.use_mapper {
            r.push(FollowUp::StartMapper { service: self.cloud.dependent_mapper_service() });
        }
        match self.cloud {
            Cloud::C8y => {
                r.push(FollowUp::CheckTenant);
                if bridge.use_agent {
                    r.push(FollowUp::StartAgent { service: SystemService::TEdgeSMAgent });
                }
            },
            Cloud::Azure => {},
        }
        assert(r@ =~= self.spec_follow_ups(*bridge));
        r
    }
}

/// Compares the tenant URL the cloud reports, if any, with the configured one.
pub fn check_connected_c8y_tenant_as_configured(configured_url: &str, connected_url: &Option<String>) -> (r:
    TenantCheck)
    ensures
        connected_url is None ==> r == TenantCheck::Unavailable,
        connected_url matches Some(u) ==> (r == TenantCheck::Matches <==> u@ == configured_url@),
        connected_url matches Some(u) ==> (r == TenantCheck::Mismatch <==> u@ != configured_url@),
{
    match connected_url {
        None => TenantCheck::Unavailable,
        Some(u) => {
            let configured = String::from_str(configured_url);
            if u.eq(&configured) {
                TenantCheck::Matches
            } else {
                TenantCheck::Mismatch
            }
        },
    }
}

} // verus!
