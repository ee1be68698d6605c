//! The authenticated publish/subscribe session towards the cloud endpoint:
//! who the device is, how it names its topics, and which options it connects
//! with.

pub mod credential;
pub mod forwarder;
pub mod message;
pub mod session;

use vstd::prelude::*;

verus! {

/// The component of the cell that a telemetry message originates from.
#[derive(Clone, Copy, Debug, PartialEq, Eq, Structural)]
pub enum EventSource {
    Robot,
    Feeder,
    Piston,
}

impl EventSource {
    /// The last segment of the topic that this source publishes to.
    pub open spec fn spec_segment(self) -> Seq<char> {
        match self {
            EventSource::Robot => "robot"@,
            EventSource::Feeder => "feeder"@,
            EventSource::Piston => "piston"@,
        }
    }

    pub fn segment(self) -> (r: &'static str)
        ensures
            r@ == self.spec_segment(),
    {
        match self {
            EventSource::Robot => "robot",
            EventSource::Feeder => "feeder",
            EventSource::Piston => "piston",
        }
    }
}

/// The hierarchical identity of one device, as plain text.
pub struct DeviceIdentityView {
    pub project: Seq<char>,
    pub region: Seq<char>,
    pub registry: Seq<char>,
    pub device: Seq<char>,
}

impl DeviceIdentityView {
    /// `projects/{project}/locations/{region}/registries/{registry}/devices/{device}`
    pub open spec fn client_id(self) -> Seq<char> {
        "projects/"@ + self.project + "/locations/"@ + self.region + "/registries/"@
            + self.registry + "/devices/"@ + self.device
    }

    /// `/devices/{device}/config`
    pub open spec fn config_topic(self) -> Seq<char> {
        "/devices/"@ + self.device + "/config"@
    }

    /// `/devices/{device}/events/{source}`
    pub open spec fn events_topic(self, source: EventSource) -> Seq<char> {
        "/devices/"@ + self.device + "/events/"@ + source.spec_segment()
    }
}

/// The identity under which the device connects. It is fixed when it is
/// made: no method changes it.
pub struct DeviceIdentity {
    project: String,
    region: String,
    registry: String,
    device: String,
}

impl View for DeviceIdentity {
    type V = DeviceIdentityView;

    closed spec fn view(&self) -> DeviceIdentityView {
        DeviceIdentityView {
            project: self.project@,
            region: self.region@,
            registry: self.registry@,
            device: self.device@,
        }
    }
}

impl DeviceIdentity {
    pub fn new(project: &str, region: &str, registry: &str, device: &str) -> (r: DeviceIdentity)
        ensures
            r@ == (DeviceIdentityView {
                project: project@,
                region: region@,
                registry: registry@,
                device: device@,
            }),
    {
        DeviceIdentity {
            project: String::from_str(project),
            region: String::from_str(region),
            registry: String::from_str(registry),
            device: String::from_str(device),
        }
    }

    pub fn project(&self) -> (r: &str)
        ensures
            r@ == self@.project,
    {
        self.project.as_str()
    }

    pub fn region(&self) -> (r: &str)
        ensures
            r@ == self@.region,
    {
        self.region.as_str()
    }

    pub fn registry(&self) -> (r: &str)
        ensures
            r@ == self@.registry,
    {
        self.registry.as_str()
    }

    pub fn device(&self) -> (r: &str)
        ensures
            r@ == self@.device,
    {
        self.device.as_str()
    }

    /// The client identifier that the session presents to the endpoint.
    pub fn client_id(&self) -> (r: String)
        ensures
            r@ == self@.client_id(),
    {
        let mut id = String::from_str("projects/");
        id.append(self.project.as_str());
        id.append("/locations/");
        id.append(self.region.as_str());
        id.append("/registries/");
        id.append(self.registry.as_str());
        id.append("/devices/");
        id.append(self.device.as_str());
        id
    }

    /// The topic on which commands for this device arrive.
    pub fn config_topic(&self) -> (r: String)
        ensures
            r@ == self@.config_topic(),
    {
        let mut topic = String::from_str("/devices/");
        topic.append(self.device.as_str());
        topic.append("/config");
        topic
    }

    /// The topic on which this device publishes what `source` reports.
    pub fn events_topic(&self, source: EventSource) -> (r: String)
        ensures
            r@ == self@.events_topic(source),
    {
        let mut topic = String::from_str("/devices/");
        topic.append(self.device.as_str());
        topic.append("/events/");
        topic.append(source.segment());
        topic
    }
}

/// The endpoint that every session connects to.
pub const SERVER_URI: &'static str = "ssl://mqtt.googleapis.com:8883";

/// The user name of every session. The endpoint ignores it: the password
/// carries the credential.
pub const USER_NAME: &'static str = "ignore";

/// The keep-alive interval of a session, in seconds: twenty minutes, the
/// endpoint's ceiling on inactivity.
pub const KEEP_ALIVE_SECS: u64 = 60 * 20;

/// The versions of TLS that the transport can be held to.
#[derive(Clone, Copy, Debug, PartialEq, Eq, Structural)]
pub enum TlsVersion {
    Default,
    Tls1_0,
    Tls1_1,
    Tls1_2,
}

/// The versions of the protocol that the transport can speak.
#[derive(Clone, Copy, Debug, PartialEq, Eq, Structural)]
pub enum MqttVersion {
    Default,
    V3_1,
    V3_1_1,
    V5,
}

/// How the transport secures the connection.
#[derive(Clone, Debug, PartialEq, Eq)]
pub struct SslSettings {
    /// Path of the CA certificate that the endpoint is checked against.
    pub trust_store: String,
    /// Path of the device's private key.
    pub private_key: String,
    pub version: TlsVersion,
}

/// What a client is created with.
#[derive(Clone, Debug, PartialEq, Eq)]
pub struct CreateSettings {
    pub server_uri: String,
    pub client_id: String,
}

/// What one connection attempt is made with.
#[derive(Clone, Debug, PartialEq, Eq)]
pub struct ConnectSettings {
    pub mqtt_version: MqttVersion,
    pub keep_alive_secs: u64,
    pub user_name: String,
    pub clean_session: bool,
    pub password: String,
    pub ssl: SslSettings,
}

impl SslSettings {
    /// A copy with the same paths and version.
    pub fn duplicate(&self) -> (r: SslSettings)
        ensures
            r.trust_store@ == self.trust_store@,
            r.private_key@ == self.private_key@,
            r.version == self.version,
    {
        SslSettings {
            trust_store: self.trust_store.clone(),
            private_key: self.private_key.clone(),
            version: self.version,
        }
    }
}

/// Whether `options` are those of a connection attempt that authenticates
/// with `password` and is secured by `ssl`: protocol 3.1.1, a clean session,
/// the twenty-minute keep-alive and the fixed user name.
pub open spec fn is_connect_settings(
    options: ConnectSettings,
    ssl: SslSettings,
    password: Seq<char>,
) -> bool {
    &&& options.mqtt_version == MqttVersion::V3_1_1
    &&& options.keep_alive_secs == KEEP_ALIVE_SECS
    &&& options.user_name@ == USER_NAME@
    &&& options.clean_session
    &&& options.password@ == password
    &&& options.ssl.trust_store@ == ssl.trust_store@
    &&& options.ssl.private_key@ == ssl.private_key@
    &&& options.ssl.version == ssl.version
}

/// The security settings of a session: the endpoint is checked against the
/// certificate at `ca_certificate`, the device presents the key at
/// `private_key`, and TLS 1.2 is spoken.
pub fn get_ssl_ops(ca_certificate: &str, private_key: &str) -> (r: SslSettings)
    ensures
        r.trust_store@ == ca_certificate@,
        r.private_key@ == private_key@,
        r.version == TlsVersion::Tls1_2,
{
    SslSettings {
        trust_store: String::from_str(ca_certificate),
        private_key: String::from_str(private_key),
        version: TlsVersion::Tls1_2,
    }
}

/// The options of one connection attempt that authenticates with the token
/// `jwt`.
pub fn get_connect_ops(ssl_ops: SslSettings, jwt: &str) -> (r: ConnectSettings)
    ensures
        is_connect_settings(r, ssl_ops, jwt@),
{
    ConnectSettings {
        mqtt_version: MqttVersion::V3_1_1,
        keep_alive_secs: KEEP_ALIVE_SECS,
        user_name: String::from_str(USER_NAME),
        clean_session: true,
        password: String::from_str(jwt),
        ssl: ssl_ops,
    }
}

/// What the client of `identity` is created with: the fixed endpoint, and
/// the identity's client identifier.
pub fn get_create_ops(identity: &DeviceIdentity) -> (r: CreateSettings)
    ensures
        r.server_uri@ == SERVER_URI@,
        r.client_id@ == identity@.client_id(),
{
    CreateSettings { server_uri: String::from_str(SERVER_URI), client_id: identity.client_id() }
}

} // verus!
