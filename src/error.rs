//! The failures of establishing and checking a bridge.

use vstd::prelude::*;
use crate::cloud::Cloud;

verus! {

/// Why establishing or checking a bridge connection did not succeed.
#[derive(Debug, Clone, PartialEq, Eq)]
pub enum ConnectError {
    /// A bridge configuration for this cloud is already on disk.
    ConfigurationExists { cloud: Cloud },
    /// The bridge certificate or key does not name a readable file.
    InvalidCertificate,
    /// The cloud refused to register the device before bridging.
    CloudRegistrationFailed,
    /// Writing, creating or removing a configuration file failed.
    IoFailure,
    /// The service supervisor is not available: the configuration is saved,
    /// and the services have to be started by hand.
    ServiceManagerUnavailable,
    /// The broker service could not be restarted.
    ServiceRestartFailed,
    /// The broker service could not be enabled at boot.
    ServiceEnableFailed,
    /// The connectivity check never got its subscription acknowledged.
    ProbeUnreachable,
    /// A required setting has no value.
    SettingNotConfigured { key: String },
    /// A connection test was asked for a cloud that has no bridge.
    DeviceNotConnected { cloud: Cloud },
}

} // verus!
