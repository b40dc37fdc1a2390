//! The bridge specification and the shared broker options: how they are built
//! from the settings, where they are stored, and the text of their files.

use vstd::prelude::*;
use crate::cloud::{bridge_conf_dir, spec_bridge_conf_dir, Cloud, MQTT_TLS_PORT};
use crate::error::ConnectError;
use crate::text::{decimal, decimal_string, join_path, joined};

verus! {

/// The values of the settings store that establishing a bridge reads; an
/// absent value is `None`.
#[derive(Debug, Clone)]
pub struct Settings {
    pub c8y_url: Option<String>,
    pub azure_url: Option<String>,
    pub c8y_root_cert_path: Option<String>,
    pub azure_root_cert_path: Option<String>,
    pub device_id: Option<String>,
    pub device_cert_path: Option<String>,
    pub device_key_path: Option<String>,
    pub device_type: Option<String>,
    pub c8y_smartrest_templates: Vec<String>,
    pub mqtt_port: Option<u16>,
    pub mqtt_bind_address: Option<String>,
    pub mqtt_external_port: Option<u16>,
    pub mqtt_external_bind_address: Option<String>,
    pub mqtt_external_bind_interface: Option<String>,
    pub mqtt_external_ca_path: Option<String>,
    pub mqtt_external_certfile: Option<String>,
    pub mqtt_external_keyfile: Option<String>,
}

/// The immutable description of one bridge.
#[derive(Debug, Clone)]
pub struct BridgeConfig {
    pub cloud_name: String,
    pub config_file: String,
    pub connect_url: String,
    pub mqtt_tls_port: u16,
    pub bridge_root_cert_path: String,
    pub remote_clientid: String,
    pub bridge_certfile: String,
    pub bridge_keyfile: String,
    pub use_mapper: bool,
    pub use_agent: bool,
    pub smartrest_templates: Vec<String>,
}

/// The options of the local broker that all bridges share.
#[derive(Debug, Clone)]
pub struct CommonMosquittoConfig {
    pub config_file: String,
    pub internal_port: u16,
    pub internal_bind_address: String,
    pub external_port: Option<u16>,
    pub external_bind_address: Option<String>,
    pub external_bind_interface: Option<String>,
    pub external_capath: Option<String>,
    pub external_certfile: Option<String>,
    pub external_keyfile: Option<String>,
}

pub open spec fn key_url(cloud: Cloud) -> Seq<char> {
    match cloud {
        Cloud::Azure => "az.url"@,
        Cloud::C8y => "c8y.url"@,
    }
}

pub open spec fn key_root_cert(cloud: Cloud) -> Seq<char> {
    match cloud {
        Cloud::Azure => "az.root.cert.path"@,
        Cloud::C8y => "c8y.root.cert.path"@,
    }
}

pub open spec fn url_of(cloud: Cloud, s: Settings) -> Option<String> {
    match cloud {
        Cloud::Azure => s.azure_url,
        Cloud::C8y => s.c8y_url,
    }
}

pub open spec fn root_cert_of(cloud: Cloud, s: Settings) -> Option<String> {
    match cloud {
        Cloud::Azure => s.azure_root_cert_path,
        Cloud::C8y => s.c8y_root_cert_path,
    }
}

/// The key of the first setting, in the order they are read, that the bridge
/// of `cloud` needs and `s` lacks.
pub open spec fn missing_bridge_setting(cloud: Cloud, s: Settings) -> Option<Seq<char>> {
    if url_of(cloud, s) is None {
        Some(key_url(cloud))
    } else if root_cert_of(cloud, s) is None {
        Some(key_root_cert(cloud))
    } else if s.device_id is None {
        Some("device.id"@)
    } else if s.device_cert_path is None {
        Some("device.cert.path"@)
    } else if s.device_key_path is None {
        Some("device.key.path"@)
    } else {
        None
    }
}

/// `b` is the bridge of `cloud` described by the settings `s`.
pub open spec fn bridge_from(cloud: Cloud, s: Settings, b: BridgeConfig) -> bool {
    &&& b.cloud_name@ == cloud.spec_bridge_name()
    &&& b.config_file@ == cloud.spec_config_file_name()
    &&& b.connect_url@ == url_of(cloud, s).unwrap()@
    &&& b.mqtt_tls_port == MQTT_TLS_PORT
    &&& b.bridge_root_cert_path@ == root_cert_of(cloud, s).unwrap()@
    &&& b.remote_clientid@ == s.device_id.unwrap()@
    &&& b.bridge_certfile@ == s.device_cert_path.unwrap()@
    &&& b.bridge_keyfile@ == s.device_key_path.unwrap()@
    &&& b.use_mapper
    &&& b.use_agent == cloud.spec_uses_agent()
    &&& b.smartrest_templates@ == match cloud {
        Cloud::Azure => Seq::<String>::empty(),
        Cloud::C8y => s.c8y_smartrest_templates@,
    }
}

/// The value of a required setting, or the error that names its key.
fn required(value: &Option<String>, key: &str) -> (r: Result<String, ConnectError>)
    ensures
        value is Some ==> r == Ok::<String, ConnectError>(value.unwrap()),
        value is None ==> (r matches Err(ConnectError::SettingNotConfigured { key: k }) && k@
            == key@),
{
    match value {
        Some(v) => Ok(v.clone()),
        None => Err(ConnectError::SettingNotConfigured { key: String::from_str(key) }),
    }
}

/// A copy of an optional string.
pub fn copy_opt(o: &Option<String>) -> (r: Option<String>)
    ensures
        r == *o,
{
    match o {
        Some(v) => Some(v.clone()),
        None => None,
    }
}

/// A copy of a list of strings.
pub fn copy_strings(v: &Vec<String>) -> (r: Vec<String>)
    ensures
        r@ == v@,
{
    let mut r: Vec<String> = Vec::new();
    let mut i: usize = 0;
    while i < v.len()
        invariant
            i <= v@.len(),
            r@ == v@.subrange(0, i as int),
        decreases v@.len() - i,
    {
        r.push(v[i].clone());
        i = i + 1;
    }
    assert(r@ =~= v@);
    r
}

/// Builds the bridge of `cloud` from the settings; fails with the key of the
/// first required setting that is absent.
pub fn build_bridge_config(cloud: Cloud, s: &Settings) -> (r: Result<BridgeConfig, ConnectError>)
    ensures
        missing_bridge_setting(cloud, *s) is None <==> r is Ok,
        r matches Ok(b) ==> bridge_from(cloud, *s, b),
        r matches Err(e) ==> (e matches ConnectError::SettingNotConfigured { key } && key@
            == missing_bridge_setting(cloud, *s).unwrap()),
{
    let (url, url_key, root, root_key) = match cloud {
        Cloud::Azure => (&s.azure_url, "az.url", &s.azure_root_cert_path, "az.root.cert.path"),
        Cloud::C8y => (&s.c8y_url, "c8y.url", &s.c8y_root_cert_path, "c8y.root.cert.path"),
    };
    let connect_url = required(url, url_key)?;
    let bridge_root_cert_path = required(root, root_key)?;
    let remote_clientid = required(&s.device_id, "device.id")?;
    let bridge_certfile = required(&s.device_cert_path, "device.cert.path")?;
    let bridge_keyfile = required(&s.device_key_path, "device.key.path")?;
    let (use_agent, smartrest_templates) = match cloud {
        Cloud::Azure => (false, Vec::new()),
        Cloud::C8y => (true, copy_strings(&s.c8y_smartrest_templates)),
    };
    Ok(BridgeConfig {
        cloud_name: String::from_str(cloud.bridge_name()),
        config_file: String::from_str(cloud.config_file_name()),
        connect_url,
        mqtt_tls_port: MQTT_TLS_PORT,
        bridge_root_cert_path,
        remote_clientid,
        bridge_certfile,
        bridge_keyfile,
        use_mapper: true,
        use_agent,
        smartrest_templates,
    })
}

/// One `key value` line of a broker configuration file.
pub open spec fn conf_line(key: Seq<char>, value: Seq<char>) -> Seq<char> {
    key + " "@ + value + "\n"@
}

/// A configuration line for an optional value; nothing when it is absent.
pub open spec fn opt_line(key: Seq<char>, value: Option<String>) -> Seq<char> {
    match value {
        Some(v) => conf_line(key, v@),
        None => Seq::empty(),
    }
}

/// The two topic lines that relay one message template.
pub open spec fn template_lines(t: Seq<char>) -> Seq<char> {
    "topic s/uc/"@ + t + " out 2 c8y/ \"\"\n"@ + "topic s/dc/"@ + t + " in 2 c8y/ \"\"\n"@
}

pub open spec fn templates_text(ts: Seq<String>) -> Seq<char>
    decreases ts.len(),
{
    if ts.len() == 0 {
        Seq::empty()
    } else {
        templates_text(ts.drop_last()) + template_lines(ts.last()@)
    }
}

/// Appends one `key value` line.
fn push_line(out: &mut String, key: &str, value: &str)
    ensures
        final(out)@ == old(out)@ + conf_line(key@, value@),
{
    out.append(key);
    out.append(" ");
    out.append(value);
    out.append("\n");
    assert(final(out)@ =~= old(out)@ + conf_line(key@, value@));
}

/// Appends a line for an optional value.
fn push_opt_line(out: &mut String, key: &str, value: &Option<String>)
    ensures
        final(out)@ == old(out)@ + opt_line(key@, *value),
{
    match value {
        Some(v) => push_line(out, key, v.as_str()),
        None => {
            assert(old(out)@ + opt_line(key@, *value) =~= old(out)@);
        },
    }
}

impl BridgeConfig {
    /// The text of the bridge's configuration file.
    pub open spec fn spec_text(self) -> Seq<char> {
        conf_line("connection"@, "edge_to_"@ + self.cloud_name@)
            + conf_line("address"@, self.connect_url@ + ":"@ + decimal(self.mqtt_tls_port as nat))
            + conf_line("bridge_capath"@, self.bridge_root_cert_path@)
            + conf_line("remote_clientid"@, self.remote_clientid@)
            + conf_line("bridge_certfile"@, self.bridge_certfile@)
            + conf_line("bridge_keyfile"@, self.bridge_keyfile@)
            + conf_line("try_private"@, "false"@)
            + conf_line("start_type"@, "automatic"@)
            + conf_line("cleansession"@, "true"@)
            + conf_line("notifications"@, "false"@)
            + templates_text(self.smartrest_templates@)
    }

    /// Renders the bridge's configuration file.
    pub fn serialize(&self) -> (r: String)
        ensures
            r@ == self.spec_text(),
    {
        let mut out = String::new();
        let conn = String::from_str("edge_to_").concat(self.cloud_name.as_str());
        push_line(&mut out, "connection", conn.as_str());
        let port = decimal_string(self.mqtt_tls_port);
        let address = self.connect_url.clone().concat(":").concat(port.as_str());
        push_line(&mut out, "address", address.as_str());
        push_line(&mut out, "bridge_capath", self.bridge_root_cert_path.as_str());
        push_line(&mut out, "remote_clientid", self.remote_clientid.as_str());
        push_line(&mut out, "bridge_certfile", self.bridge_certfile.as_str());
        push_line(&mut out, "bridge_keyfile", self.bridge_keyfile.as_str());
        push_line(&mut out, "try_private", "false");
        push_line(&mut out, "start_type", "automatic");
        push_line(&mut out, "cleansession", "true");
        push_line(&mut out, "notifications", "false");
        let ghost head = out@;
        let ts = &self.smartrest_templates;
        let mut i: usize = 0;
        assert(ts@.subrange(0, 0) =~= Seq::<String>::empty());
        while i < ts.len()
            invariant
                i <= ts@.len(),
                out@ == head + templates_text(ts@.subrange(0, i as int)),
            decreases ts@.len() - i,
        {
            let t = ts[i].as_str();
            out.append("topic s/uc/");
            out.append(t);
            out.append(" out 2 c8y/ \"\"\n");
            out.append("topic s/dc/");
            out.append(t);
            out.append(" in 2 c8y/ \"\"\n");
            assert(ts@.subrange(0, i + 1).drop_last() =~= ts@.subrange(0, i as int));
            assert(out@ =~= head + templates_text(ts@.subrange(0, i + 1)));
            i = i + 1;
        }
        assert(ts@.subrange(0, ts@.len() as int) =~= ts@);
        out
    }
}

impl CommonMosquittoConfig {
    /// A copy of these options.
    pub fn copy(&self) -> (r: CommonMosquittoConfig)
        ensures
            r == *self,
    {
        CommonMosquittoConfig {
            config_file: self.config_file.clone(),
            internal_port: self.internal_port,
            internal_bind_address: self.internal_bind_address.clone(),
            external_port: self.external_port,
            external_bind_address: copy_opt(&self.external_bind_address),
            external_bind_interface: copy_opt(&self.external_bind_interface),
            external_capath: copy_opt(&self.external_capath),
            external_certfile: copy_opt(&self.external_certfile),
            external_keyfile: copy_opt(&self.external_keyfile),
        }
    }

    /// The shared options before any setting is applied.
    pub fn new() -> (r: CommonMosquittoConfig)
        ensures
            r.config_file@ == "tedge-mosquitto.conf"@,
            r.internal_port == 1883,
            r.internal_bind_address@ == "localhost"@,
            r.external_port is None,
            r.external_bind_address is None,
            r.external_bind_interface is None,
            r.external_capath is None,
            r.external_certfile is None,
            r.external_keyfile is None,
    {
        CommonMosquittoConfig {
            config_file: String::from_str("tedge-mosquitto.conf"),
            internal_port: 1883,
            internal_bind_address: String::from_str("localhost"),
            external_port: None,
            external_bind_address: None,
            external_bind_interface: None,
            external_capath: None,
            external_certfile: None,
            external_keyfile: None,
        }
    }

    /// The same options with the local listener moved to `port` on `bind_address`.
    pub fn with_internal_opts(self, port: u16, bind_address: String) -> (r: CommonMosquittoConfig)
        ensures
            r == (CommonMosquittoConfig {
                internal_port: port,
                internal_bind_address: bind_address,
                ..self
            }),
    {
        CommonMosquittoConfig { internal_port: port, internal_bind_address: bind_address, ..self }
    }

    /// The same options with the external listener set to the given values.
    pub fn with_external_opts(
        self,
        port: Option<u16>,
        bind_address: Option<String>,
        bind_interface: Option<String>,
        capath: Option<String>,
        certfile: Option<String>,
        keyfile: Option<String>,
    ) -> (r: CommonMosquittoConfig)
        ensures
            r == (CommonMosquittoConfig {
                external_port: port,
                external_bind_address: bind_address,
                external_bind_interface: bind_interface,
                external_capath: capath,
                external_certfile: certfile,
                external_keyfile: keyfile,
                ..self
            }),
    {
        CommonMosquittoConfig {
            external_port: port,
            external_bind_address: bind_address,
            external_bind_interface: bind_interface,
            external_capath: capath,
            external_certfile: certfile,
            external_keyfile: keyfile,
            ..self
        }
    }

    /// The external listener's lines: present only when its port is set.
    pub open spec fn spec_external_text(self) -> Seq<char> {
        match self.external_port {
            None => Seq::empty(),
            Some(p) => conf_line(
                "listener"@,
                decimal(p as nat) + match self.external_bind_address {
                    Some(a) => " "@ + a@,
                    None => Seq::empty(),
                },
            ) + opt_line("bind_interface"@, self.external_bind_interface) + opt_line(
                "capath"@,
                self.external_capath,
            ) + opt_line("certfile"@, self.external_certfile) + opt_line(
                "keyfile"@,
                self.external_keyfile,
            ),
        }
    }

    /// The text of the shared options' file.
    pub open spec fn spec_text(self) -> Seq<char> {
        conf_line(
            "listener"@,
            decimal(self.internal_port as nat) + " "@ + self.internal_bind_address@,
        ) + conf_line("allow_anonymous"@, "true"@) + conf_line("require_certificate"@, "false"@)
            + self.spec_external_text()
    }

    /// Renders the shared options' file.
    pub fn serialize(&self) -> (r: String)
        ensures
            r@ == self.spec_text(),
    {
        let mut out = String::new();
        let internal = decimal_string(self.internal_port).concat(" ").concat(
            self.internal_bind_address.as_str(),
        );
        push_line(&mut out, "listener", internal.as_str());
        push_line(&mut out, "allow_anonymous", "true");
        push_line(&mut out, "require_certificate", "false");
        let ghost head = out@;
        match self.external_port {
            None => {
                assert(out@ =~= head + self.spec_external_text());
            },
            Some(p) => {
                let mut listener = decimal_string(p);
                match &self.external_bind_address {
                    Some(a) => {
                        listener = listener.concat(" ").concat(a.as_str());
                    },
                    None => {},
                }
                push_line(&mut out, "listener", listener.as_str());
                push_opt_line(&mut out, "bind_interface", &self.external_bind_interface);
                push_opt_line(&mut out, "capath", &self.external_capath);
                push_opt_line(&mut out, "certfile", &self.external_certfile);
                push_opt_line(&mut out, "keyfile", &self.external_keyfile);
                assert(listener@ =~= decimal(p as nat) + match self.external_bind_address {
                    Some(a) => " "@ + a@,
                    None => Seq::empty(),
                });
                assert(out@ =~= head + self.spec_external_text());
            },
        }
        assert(out@ =~= self.spec_text());
        out
    }
}

/// Where the file `name` of the bridge directory lies under `root`.
pub open spec fn conf_path(root: Seq<char>, name: Seq<char>) -> Seq<char> {
    joined(joined(root, spec_bridge_conf_dir()), name)
}

/// The bridge directory under the configuration root.
pub fn bridge_conf_dir_path(root: &str) -> (r: String)
    ensures
        r@ == joined(root@, spec_bridge_conf_dir()),
{
    join_path(root, bridge_conf_dir())
}

/// The path of a bridge's configuration file under the configuration root.
pub fn get_bridge_config_file_path(root: &str, bridge: &BridgeConfig) -> (r: String)
    ensures
        r@ == conf_path(root@, bridge.config_file@),
{
    let dir = bridge_conf_dir_path(root);
    join_path(dir.as_str(), bridge.config_file.as_str())
}

/// The path of the shared options' file under the configuration root.
pub fn get_common_mosquitto_config_file_path(root: &str, common: &CommonMosquittoConfig) -> (r:
    String)
    ensures
        r@ == conf_path(root@, common.config_file@),
{
    let dir = bridge_conf_dir_path(root);
    join_path(dir.as_str(), common.config_file.as_str())
}

} // verus!
