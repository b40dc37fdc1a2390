//! The two cloud profiles: names, file names, services and the topics of
//! their connectivity check.

use vstd::prelude::*;

verus! {

/// The cloud that one invocation bridges to.
#[derive(Debug, Clone, Copy, PartialEq, Eq, Structural)]
pub enum Cloud {
    Azure,
    C8y,
}

/// The services that establishing a bridge drives through the supervisor.
#[derive(Debug, Clone, Copy, PartialEq, Eq, Structural)]
pub enum SystemService {
    Mosquitto,
    TEdgeMapperAz,
    TEdgeMapperC8y,
    TEdgeSMAgent,
}

/// What a connectivity check established about the device.
#[derive(Debug, Clone, Copy, PartialEq, Eq, Structural)]
pub enum DeviceStatus {
    /// The cloud answered the request: the bridge relays traffic.
    AlreadyExists,
    /// No answer, or an answer that does not prove a connection.
    Unknown,
}

/// The TLS port of both clouds' MQTT endpoints.
pub const MQTT_TLS_PORT: u16 = 8883;

pub open spec fn spec_bridge_conf_dir() -> Seq<char> {
    "mosquitto-conf"@
}

/// The directory, under the configuration root, that holds the bridge files.
pub fn bridge_conf_dir() -> (r: &'static str)
    ensures
        r@ == spec_bridge_conf_dir(),
{
    "mosquitto-conf"
}

/// Seconds to wait for the broker to come back after a restart.
pub const MOSQUITTO_RESTART_TIMEOUT_SECONDS: u64 = 5;

/// Keep-alive interval of the connectivity check, in seconds; it is also
/// the time after which an unanswered check gives up.
pub const RESPONSE_TIMEOUT_SECONDS: u64 = 10;

impl Cloud {
    pub open spec fn spec_as_str(self) -> Seq<char> {
        match self {
            Cloud::Azure => "Azure"@,
            Cloud::C8y => "Cumulocity"@,
        }
    }

    /// The human-readable name of the cloud.
    pub fn as_str(&self) -> (r: &'static str)
        ensures
            r@ == self.spec_as_str(),
    {
        match self {
            Cloud::Azure => "Azure",
            Cloud::C8y => "Cumulocity",
        }
    }

    pub open spec fn spec_mapper_service(self) -> SystemService {
        match self {
            Cloud::Azure => SystemService::TEdgeMapperAz,
            Cloud::C8y => SystemService::TEdgeMapperC8y,
        }
    }

    /// The mapper that converts this cloud's messages.
    pub fn dependent_mapper_service(&self) -> (r: SystemService)
        ensures
            r == self.spec_mapper_service(),
    {
        match self {
            Cloud::Azure => SystemService::TEdgeMapperAz,
            Cloud::C8y => SystemService::TEdgeMapperC8y,
        }
    }

    pub open spec fn spec_bridge_name(self) -> Seq<char> {
        match self {
            Cloud::Azure => "az"@,
            Cloud::C8y => "c8y"@,
        }
    }

    /// The short name of the bridge, which names its connection.
    pub fn bridge_name(&self) -> (r: &'static str)
        ensures
            r@ == self.spec_bridge_name(),
    {
        match self {
            Cloud::Azure => "az",
            Cloud::C8y => "c8y",
        }
    }

    pub open spec fn spec_config_file_name(self) -> Seq<char> {
        match self {
            Cloud::Azure => "az-bridge.conf"@,
            Cloud::C8y => "c8y-bridge.conf"@,
        }
    }

    /// The file name of this cloud's bridge configuration.
    pub fn config_file_name(&self) -> (r: &'static str)
        ensures
            r@ == self.spec_config_file_name(),
    {
        match self {
            Cloud::Azure => "az-bridge.conf",
            Cloud::C8y => "c8y-bridge.conf",
        }
    }

    pub open spec fn spec_uses_agent(self) -> bool {
        self == Cloud::C8y
    }

    /// Only the device-registration capable cloud registers the device
    /// before the bridge exists.
    pub open spec fn spec_registers_device(self) -> bool {
        self == Cloud::C8y
    }

    pub open spec fn spec_probe_client_id(self) -> Seq<char> {
        match self {
            Cloud::Azure => "check_connection_az"@,
            Cloud::C8y => "check_connection_c8y"@,
        }
    }

    /// The client id of the connectivity check's own session.
    pub fn probe_client_id(&self) -> (r: &'static str)
        ensures
            r@ == self.spec_probe_client_id(),
    {
        match self {
            Cloud::Azure => "check_connection_az",
            Cloud::C8y => "check_connection_c8y",
        }
    }

    pub open spec fn spec_response_topic(self) -> Seq<char> {
        match self {
            Cloud::Azure => "az/twin/res/#"@,
            Cloud::C8y => "c8y/s/dat"@,
        }
    }

    /// The topic the connectivity check subscribes to for the answer.
    pub fn response_topic(&self) -> (r: &'static str)
        ensures
            r@ == self.spec_response_topic(),
    {
        match self {
            Cloud::Azure => "az/twin/res/#",
            Cloud::C8y => "c8y/s/dat",
        }
    }

    pub open spec fn spec_request_topic(self) -> Seq<char> {
        match self {
            Cloud::Azure => "az/twin/GET/?$rid=1"@,
            Cloud::C8y => "c8y/s/uat"@,
        }
    }

    /// The topic the connectivity check publishes its empty request to.
    pub fn request_topic(&self) -> (r: &'static str)
        ensures
            r@ == self.spec_request_topic(),
    {
        match self {
            Cloud::Azure => "az/twin/GET/?$rid=1",
            Cloud::C8y => "c8y/s/uat",
        }
    }
}

} // verus!
