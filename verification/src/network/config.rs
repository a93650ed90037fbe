//! The configuration of the network and of its sessions.

use vstd::prelude::*;
use vstd::string::*;
use crate::errors::MessageError;
use crate::network::endpoint;
use crate::text;
use crate::time::Duration;

verus! {

/// The first part of the keys of a cluster, unless another one is configured.
pub const DEFAULT_KEY_PREFIX: &'static str = "zenoh_raft";

/// How many seconds a request may take, unless another time is configured.
pub const DEFAULT_TIMEOUT_SECS: u64 = 5;

/// Which of the nodes that match a key answer a query.
#[derive(Clone, Copy, Debug, PartialEq, Eq, Structural)]
pub enum QueryTarget {
    /// The nearest one that matches the whole key.
    BestMatching,
    /// Every one.
    All,
    /// Every one that matches the whole key.
    AllComplete,
}

/// Whether a text is a key expression.
pub uninterp spec fn key_expr_valid(key: Seq<char>) -> bool;

/// `zenoh::key_expr::KeyExpr::try_from`: whether a text is a key expression.
///
/// The error is a text.  Nothing is claimed of it: it tells a place in the source of the outside
/// crate, as that was built.
#[verifier::external_body]
pub(crate) fn check_key_expr(key: &str) -> (r: Result<(), String>)
    ensures
        r is Ok == key_expr_valid(key@),
{
    match zenoh::key_expr::KeyExpr::try_from(key) {
        Ok(_) => Ok(()),
        Err(e) => Err(e.to_string()),
    }
}

/// The configuration of the network.
#[derive(Clone, Debug, PartialEq, Eq)]
pub struct ZenohNetworkConfig {
    /// The first part of every key.
    pub key_prefix: String,
    /// How long a request may take.
    pub default_timeout: Duration,
    /// Which nodes answer a query.
    pub query_target: QueryTarget,
}

impl Default for ZenohNetworkConfig {
    fn default() -> (r: ZenohNetworkConfig)
        ensures
            r.key_prefix@ == DEFAULT_KEY_PREFIX@,
            r.default_timeout.nanos == DEFAULT_TIMEOUT_SECS * 1_000_000_000,
            r.query_target == QueryTarget::BestMatching,
    {
        ZenohNetworkConfig {
            key_prefix: DEFAULT_KEY_PREFIX.to_owned(),
            default_timeout: Duration::from_secs(DEFAULT_TIMEOUT_SECS),
            query_target: QueryTarget::BestMatching,
        }
    }
}

impl ZenohNetworkConfig {
    /// What a check of the key prefix, if one was made, makes of a configuration.
    pub open spec fn validated(self, checked: Result<(), Seq<char>>) -> Result<(), Seq<char>> {
        if self.key_prefix@.len() == 0 {
            Err("key_prefix cannot be empty"@)
        } else {
            match checked {
                Ok(_) => Ok(()),
                Err(e) => Err("invalid key_prefix: "@ + e),
            }
        }
    }

    /// What a configuration is whose key prefix is a key expression or, for a reason, is not.
    pub open spec fn judged(self, valid: bool, reason: Seq<char>) -> Result<(), Seq<char>> {
        self.validated(
            if valid {
                Ok(())
            } else {
                Err(reason)
            },
        )
    }

    /// Judge the configuration by a check of its key prefix.
    pub fn validate_with(&self, checked: Result<(), String>) -> (r: Result<(), MessageError>)
        ensures
            message_view(r) == self.validated(text_view(checked)),
    {
        if self.key_prefix.as_str().unicode_len() == 0 {
            return Err(MessageError { message: "key_prefix cannot be empty".to_owned() });
        }
        match checked {
            Ok(_) => Ok(()),
            Err(e) => Err(
                MessageError { message: "invalid key_prefix: ".to_owned().concat(e.as_str()) },
            ),
        }
    }

    /// The configuration is valid if its key prefix is a key expression, which is never empty.
    pub fn validate(&self) -> (r: Result<(), MessageError>)
        ensures
            r is Ok == (self.key_prefix@.len() > 0 && key_expr_valid(self.key_prefix@)),
            exists|e: Seq<char>| #[trigger]
                self.judged(key_expr_valid(self.key_prefix@), e) == message_view(r),
    {
        let checked = check_key_expr(self.key_prefix.as_str());
        let ghost e = text_view(checked)->Err_0;
        let r = self.validate_with(checked);
        assert(self.judged(key_expr_valid(self.key_prefix@), e) == message_view(r));
        r
    }

    /// A copy.
    pub fn duplicate(&self) -> (r: ZenohNetworkConfig)
        ensures
            r.same(*self),
    {
        ZenohNetworkConfig {
            key_prefix: self.key_prefix.as_str().to_owned(),
            default_timeout: self.default_timeout,
            query_target: self.query_target,
        }
    }

    /// Whether two configurations are the same.
    pub open spec fn same(self, other: ZenohNetworkConfig) -> bool {
        &&& self.key_prefix@ == other.key_prefix@
        &&& self.default_timeout == other.default_timeout
        &&& self.query_target == other.query_target
    }
}

/// An error that is a text, as mathematics.
pub open spec fn text_view<T>(r: Result<T, String>) -> Result<T, Seq<char>> {
    match r {
        Ok(t) => Ok(t),
        Err(e) => Err(e@),
    }
}

/// An error that is a message, as mathematics.
pub open spec fn message_view<T>(r: Result<T, MessageError>) -> Result<T, Seq<char>> {
    match r {
        Ok(t) => Ok(t),
        Err(e) => Err(e.message@),
    }
}

/// The Base64 character of six bits.
pub open spec fn base64_char(d: int) -> char {
    if d < 26 {
        (65 + d) as char
    } else if d < 52 {
        (97 + d - 26) as char
    } else if d < 62 {
        (48 + d - 52) as char
    } else if d == 62 {
        '+'
    } else {
        '/'
    }
}

/// The padded Base64 notation of bytes: four characters for each three bytes.
pub open spec fn base64_spec(b: Seq<u8>) -> Seq<char>
    decreases b.len(),
{
    if b.len() == 0 {
        Seq::empty()
    } else if b.len() == 1 {
        let n = b[0] * 65536;
        seq![base64_char(n / 262144), base64_char(n / 4096 % 64), '=', '=']
    } else if b.len() == 2 {
        let n = b[0] * 65536 + b[1] * 256;
        seq![base64_char(n / 262144), base64_char(n / 4096 % 64), base64_char(n / 64 % 64), '=']
    } else {
        let n = b[0] * 65536 + b[1] * 256 + b[2];
        seq![
            base64_char(n / 262144),
            base64_char(n / 4096 % 64),
            base64_char(n / 64 % 64),
            base64_char(n % 64),
        ] + base64_spec(b.skip(3))
    }
}

/// `encode` on `data_encoding::BASE64`: the padded Base64 notation of bytes.
#[verifier::external_body]
fn base64(bytes: &[u8]) -> (r: String)
    ensures
        r@ == base64_spec(bytes@),
{
    data_encoding::BASE64.encode(bytes)
}

/// The credentials of a TLS transport.
#[derive(Clone, Debug, PartialEq, Eq)]
pub struct ZenohTlsConfig {
    /// The certificate in Base64.
    pub cert_base64: String,
    /// The private key in Base64.
    pub key_base64: String,
    /// The certificate of the root in Base64; without one, the certificate itself.
    pub root_ca_base64: Option<String>,
    /// Whether the name of a server is verified on connection.
    pub verify_name_on_connect: bool,
}

impl ZenohTlsConfig {
    /// Credentials in Base64.
    pub fn new(
        cert_base64: &str,
        key_base64: &str,
        root_ca_base64: Option<String>,
        verify_name_on_connect: bool,
    ) -> (r: ZenohTlsConfig)
        ensures
            r.cert_base64@ == cert_base64@,
            r.key_base64@ == key_base64@,
            r.root_ca_base64 == root_ca_base64,
            r.verify_name_on_connect == verify_name_on_connect,
    {
        ZenohTlsConfig {
            cert_base64: cert_base64.to_owned(),
            key_base64: key_base64.to_owned(),
            root_ca_base64,
            verify_name_on_connect,
        }
    }

    /// Credentials in PEM, which is written in Base64 as it stands.
    pub fn from_pem(
        cert_pem: &str,
        key_pem: &str,
        root_ca_pem: Option<&str>,
        verify_name_on_connect: bool,
    ) -> (r: ZenohTlsConfig)
        ensures
            r.cert_base64@ == base64_spec(cert_pem.spec_bytes()),
            r.key_base64@ == base64_spec(key_pem.spec_bytes()),
            match (root_ca_pem, r.root_ca_base64) {
                (Some(ca), Some(b)) => b@ == base64_spec(ca.spec_bytes()),
                (None, None) => true,
                _ => false,
            },
            r.verify_name_on_connect == verify_name_on_connect,
    {
        let root_ca_base64 = match root_ca_pem {
            Some(ca) => Some(base64(ca.as_bytes())),
            None => None,
        };
        ZenohTlsConfig {
            cert_base64: base64(cert_pem.as_bytes()),
            key_base64: base64(key_pem.as_bytes()),
            root_ca_base64,
            verify_name_on_connect,
        }
    }

    /// The certificate of the root, in Base64.
    pub open spec fn root_ca(self) -> Seq<char> {
        match self.root_ca_base64 {
            Some(ca) => ca@,
            None => self.cert_base64@,
        }
    }
}

/// What a session is opened with.
#[derive(Clone, Debug, PartialEq, Eq)]
pub struct ZenohSessionBuilder {
    pub listen_endpoints: Vec<String>,
    pub connect_endpoints: Vec<String>,
    pub tls: Option<ZenohTlsConfig>,
    pub enable_multicast: bool,
    pub enable_gossip: bool,
}

/// The keys of the settings of a session.
pub const KEY_SCOUTING_MULTICAST: &'static str = "scouting/multicast/enabled";

pub const KEY_SCOUTING_GOSSIP: &'static str = "scouting/gossip/enabled";

pub const KEY_LISTEN_ENDPOINTS: &'static str = "listen/endpoints";

pub const KEY_CONNECT_ENDPOINTS: &'static str = "connect/endpoints";

pub const KEY_TLS_LISTEN_CERT: &'static str = "transport/link/tls/listen_certificate_base64";

pub const KEY_TLS_LISTEN_KEY: &'static str = "transport/link/tls/listen_private_key_base64";

pub const KEY_TLS_CONNECT_CERT: &'static str = "transport/link/tls/connect_certificate_base64";

pub const KEY_TLS_CONNECT_KEY: &'static str = "transport/link/tls/connect_private_key_base64";

pub const KEY_TLS_ROOT_CA: &'static str = "transport/link/tls/root_ca_certificate_base64";

pub const KEY_TLS_VERIFY_NAME: &'static str = "transport/link/tls/verify_name_on_connect";

/// The value of a setting.
#[derive(Clone, Debug, PartialEq, Eq)]
pub enum SettingValue {
    Flag(bool),
    Text(String),
    List(Vec<String>),
}

/// The value of a setting, as mathematics.
pub enum SettingView {
    Flag(bool),
    Text(Seq<char>),
    List(Seq<Seq<char>>),
}

impl View for SettingValue {
    type V = SettingView;

    open spec fn view(&self) -> SettingView {
        match self {
            SettingValue::Flag(b) => SettingView::Flag(*b),
            SettingValue::Text(t) => SettingView::Text(t@),
            SettingValue::List(l) => SettingView::List(text::views(l@)),
        }
    }
}

/// A setting of a session.
#[derive(Clone, Debug, PartialEq, Eq)]
pub struct Setting {
    pub key: &'static str,
    pub value: SettingValue,
}

/// Settings as mathematics.
pub open spec fn settings_view(settings: Seq<Setting>) -> Seq<(Seq<char>, SettingView)> {
    settings.map_values(|s: Setting| (s.key@, s.value@))
}

fn duplicate_list(list: &Vec<String>) -> (r: Vec<String>)
    ensures
        text::views(r@) == text::views(list@),
{
    let mut r: Vec<String> = Vec::new();
    let mut i: usize = 0;
    while i < list.len()
        invariant
            i <= list.len(),
            r@.len() == i,
            forall|j: int| 0 <= j < i ==> r@[j]@ == list@[j]@,
        decreases list.len() - i,
    {
        r.push(list[i].as_str().to_owned());
        i = i + 1;
    }
    assert(text::views(r@) =~= text::views(list@));
    r
}

/// The JSON notation of a text, if it can be written.
pub uninterp spec fn json_text(s: Seq<char>) -> Option<Seq<char>>;

/// The JSON notation of a list of texts, if it can be written.
pub uninterp spec fn json_list(l: Seq<Seq<char>>) -> Option<Seq<char>>;

/// `sonic_rs::to_string` on a `String`: the text as JSON.
///
/// Nothing is claimed of the text of an error.
#[verifier::external_body]
fn text_to_json(s: &String) -> (r: Result<String, String>)
    ensures
        match r {
            Ok(j) => json_text(s@) == Some(j@),
            Err(_) => json_text(s@) is None,
        },
{
    match sonic_rs::to_string(s) {
        Ok(j) => Ok(j),
        Err(e) => Err(e.to_string()),
    }
}

/// `sonic_rs::to_string` on a `Vec<String>`: the texts as a JSON array.
///
/// Nothing is claimed of the text of an error.
#[verifier::external_body]
fn list_to_json(l: &Vec<String>) -> (r: Result<String, String>)
    ensures
        match r {
            Ok(j) => json_list(text::views(l@)) == Some(j@),
            Err(_) => json_list(text::views(l@)) is None,
        },
{
    match sonic_rs::to_string(l) {
        Ok(j) => Ok(j),
        Err(e) => Err(e.to_string()),
    }
}

/// The configuration of a session.
#[verifier::external_type_specification]
#[verifier::external_body]
pub struct ExConfig(zenoh::Config);

/// What becomes of a configuration when a JSON value is inserted at a key, if that can be done.
pub uninterp spec fn config_with(
    config: zenoh::Config,
    key: Seq<char>,
    json: Seq<char>,
) -> Option<zenoh::Config>;

/// Whether a configuration is the default one, with nothing inserted.
pub uninterp spec fn is_default(config: zenoh::Config) -> bool;

/// `zenoh::Config::default`: the default configuration.
///
/// Nothing is claimed of what it holds.
#[verifier::external_body]
fn default_config() -> (r: zenoh::Config)
    ensures
        is_default(r),
{
    zenoh::Config::default()
}

/// Whether a key is one that a session sets.
pub open spec fn is_session_key(key: Seq<char>) -> bool {
    ||| key == KEY_SCOUTING_MULTICAST@
    ||| key == KEY_SCOUTING_GOSSIP@
    ||| key == KEY_LISTEN_ENDPOINTS@
    ||| key == KEY_CONNECT_ENDPOINTS@
    ||| key == KEY_TLS_LISTEN_CERT@
    ||| key == KEY_TLS_LISTEN_KEY@
    ||| key == KEY_TLS_CONNECT_CERT@
    ||| key == KEY_TLS_CONNECT_KEY@
    ||| key == KEY_TLS_ROOT_CA@
    ||| key == KEY_TLS_VERIFY_NAME@
}

/// `zenoh::Config::insert_json5`: the value at a key is set.
///
/// The key is one that a session sets.  There are keys at which the insertion panics, such as one
/// below `plugins` where that is no object.  The error is a text.  Nothing is claimed of it, nor of
/// the configuration after an error.
#[verifier::external_body]
fn insert_json5(config: &mut zenoh::Config, key: &str, json: &str) -> (r: Result<(), String>)
    requires
        is_session_key(key@),
    ensures
        match r {
            Ok(_) => config_with(*old(config), key@, json@) == Some(*final(config)),
            Err(_) => config_with(*old(config), key@, json@) is None,
        },
{
    match config.insert_json5(key, json) {
        Ok(_) => Ok(()),
        Err(e) => Err(e.to_string()),
    }
}

/// The JSON notation of a value, if it can be written.
pub open spec fn json_of(value: SettingView) -> Option<Seq<char>> {
    match value {
        SettingView::Flag(b) => Some(text::bool_spec(b)),
        SettingView::Text(t) => json_text(t),
        SettingView::List(l) => json_list(l),
    }
}

/// What becomes of a configuration when settings are inserted one after the other, if each can be.
pub open spec fn configured(
    config: zenoh::Config,
    settings: Seq<(Seq<char>, SettingView)>,
) -> Option<zenoh::Config>
    decreases settings.len(),
{
    if settings.len() == 0 {
        Some(config)
    } else {
        match configured(config, settings.drop_last()) {
            None => None,
            Some(c) => match json_of(settings.last().1) {
                None => None,
                Some(j) => config_with(c, settings.last().0, j),
            },
        }
    }
}

/// A setting that cannot be inserted fails the whole configuration.
proof fn lemma_failure_stays(
    config: zenoh::Config,
    settings: Seq<(Seq<char>, SettingView)>,
    n: int,
)
    requires
        0 <= n <= settings.len(),
        configured(config, settings.take(n)) is None,
    ensures
        configured(config, settings) is None,
    decreases settings.len() - n,
{
    if n == settings.len() {
        assert(settings.take(n) =~= settings);
    } else {
        assert(settings.take(n + 1).drop_last() =~= settings.take(n));
        lemma_failure_stays(config, settings, n + 1);
    }
}

fn insert_setting(config: &mut zenoh::Config, setting: &Setting) -> (r: Result<(), String>)
    requires
        is_session_key(setting.key@),
    ensures
        match r {
            Ok(_) => json_of(setting.value@) is Some && config_with(
                *old(config),
                setting.key@,
                json_of(setting.value@)->0,
            ) == Some(*final(config)),
            Err(_) => json_of(setting.value@) is None || config_with(
                *old(config),
                setting.key@,
                json_of(setting.value@)->0,
            ) is None,
        },
{
    let json = match &setting.value {
        SettingValue::Flag(b) => Ok(text::bool_text(*b).to_owned()),
        SettingValue::Text(t) => text_to_json(t),
        SettingValue::List(l) => list_to_json(l),
    };
    match json {
        Ok(j) => insert_json5(config, setting.key, j.as_str()),
        Err(e) => Err(e),
    }
}

/// Insert settings one after the other; the first one that cannot be inserted is an error.
pub fn configure(config: zenoh::Config, settings: &Vec<Setting>) -> (r: Result<
    zenoh::Config,
    MessageError,
>)
    requires
        forall|i: int| 0 <= i < settings@.len() ==> is_session_key(#[trigger] settings@[i].key@),
    ensures
        match r {
            Ok(c) => configured(config, settings_view(settings@)) == Some(c),
            Err(_) => configured(config, settings_view(settings@)) is None,
        },
{
    let ghost all = settings_view(settings@);
    let mut built = config;
    let mut i: usize = 0;
    assert(all.take(0) =~= Seq::empty());
    while i < settings.len()
        invariant
            i <= settings.len(),
            forall|j: int|
                0 <= j < settings@.len() ==> is_session_key(#[trigger] settings@[j].key@),
            all == settings_view(settings@),
            configured(config, all.take(i as int)) == Some(built),
        decreases settings.len() - i,
    {
        proof {
            assert(all.take(i + 1).drop_last() =~= all.take(i as int));
            assert(all.take(i + 1).last() == (settings[i as int].key@, settings[i as int].value@));
        }
        let ghost before = built;
        match insert_setting(&mut built, &settings[i]) {
            Ok(_) => {},
            Err(e) => {
                proof {
                    assert(configured(config, all.take(i + 1).drop_last()) == Some(before));
                    assert(configured(config, all.take(i + 1)) is None);
                    lemma_failure_stays(config, all, i + 1);
                }
                return Err(MessageError { message: e });
            },
        }
        i = i + 1;
    }
    assert(all.take(settings.len() as int) =~= all);
    Ok(built)
}

impl Default for ZenohSessionBuilder {
    /// A builder without endpoints and credentials, which does not look for other nodes.
    fn default() -> (r: ZenohSessionBuilder)
        ensures
            r.listen_endpoints@ == Seq::<String>::empty(),
            r.connect_endpoints@ == Seq::<String>::empty(),
            r.tls is None,
            !r.enable_multicast,
            !r.enable_gossip,
    {
        ZenohSessionBuilder {
            listen_endpoints: Vec::new(),
            connect_endpoints: Vec::new(),
            tls: None,
            enable_multicast: false,
            enable_gossip: false,
        }
    }
}

impl ZenohSessionBuilder {
    /// A builder without endpoints and credentials, which does not look for other nodes.
    pub fn new() -> (r: ZenohSessionBuilder)
        ensures
            r.listen_endpoints@ == Seq::<String>::empty(),
            r.connect_endpoints@ == Seq::<String>::empty(),
            r.tls is None,
            !r.enable_multicast,
            !r.enable_gossip,
    {
        Self::default()
    }

    /// Whether `new` is this builder with another endpoint, to listen at or to connect to.
    pub open spec fn with_endpoint(self, ep: Seq<char>, is_listener: bool, new: Self) -> bool {
        &&& text::views(new.listen_endpoints@) == (if is_listener {
            text::views(self.listen_endpoints@).push(ep)
        } else {
            text::views(self.listen_endpoints@)
        })
        &&& text::views(new.connect_endpoints@) == (if is_listener {
            text::views(self.connect_endpoints@)
        } else {
            text::views(self.connect_endpoints@).push(ep)
        })
        &&& new.enable_multicast == self.enable_multicast
        &&& new.enable_gossip == self.enable_gossip
    }

    fn push(self, ep: String, is_listener: bool) -> (r: ZenohSessionBuilder)
        ensures
            self.with_endpoint(ep@, is_listener, r),
            r.tls == self.tls,
    {
        let ghost before = self;
        let mut b = self;
        if is_listener {
            b.listen_endpoints.push(ep);
            assert(text::views(b.listen_endpoints@) =~= text::views(before.listen_endpoints@).push(
                ep@,
            ));
        } else {
            b.connect_endpoints.push(ep);
            assert(text::views(b.connect_endpoints@) =~= text::views(
                before.connect_endpoints@,
            ).push(ep@));
        }
        b
    }

    /// Add an endpoint of a QUIC transport that needs no certificate.
    pub fn quic_plain(self, endpoint: &str, is_listener: bool) -> (r: ZenohSessionBuilder)
        ensures
            self.with_endpoint(endpoint::plain_spec(endpoint@), is_listener, r),
            r.tls == self.tls,
    {
        self.push(endpoint::format_quic_plain_endpoint(endpoint), is_listener)
    }

    /// The same as [`ZenohSessionBuilder::quic_plain`].
    pub fn udp_reliable(self, endpoint: &str, is_listener: bool) -> (r: ZenohSessionBuilder)
        ensures
            self.with_endpoint(endpoint::plain_spec(endpoint@), is_listener, r),
            r.tls == self.tls,
    {
        self.quic_plain(endpoint, is_listener)
    }

    /// Add an endpoint of a plain TCP transport.
    pub fn tcp(self, endpoint: &str, is_listener: bool) -> (r: ZenohSessionBuilder)
        ensures
            self.with_endpoint(
                endpoint::with_scheme_spec(endpoint@, "tcp/"@),
                is_listener,
                r,
            ),
            r.tls == self.tls,
    {
        self.push(endpoint::format_tcp_endpoint(endpoint), is_listener)
    }

    /// Add an endpoint of a best-effort UDP transport.
    pub fn udp(self, endpoint: &str, is_listener: bool) -> (r: ZenohSessionBuilder)
        ensures
            self.with_endpoint(
                endpoint::with_scheme_spec(endpoint@, "udp/"@),
                is_listener,
                r,
            ),
            r.tls == self.tls,
    {
        self.push(endpoint::format_udp_endpoint(endpoint), is_listener)
    }

    /// Add any endpoint as it is, trimmed.
    pub fn endpoint(self, endpoint: &str, is_listener: bool) -> (r: ZenohSessionBuilder)
        ensures
            self.with_endpoint(crate::strs::trim_spec(endpoint@), is_listener, r),
            r.tls == self.tls,
    {
        self.push(crate::strs::trim(endpoint).to_owned(), is_listener)
    }

    /// Add an endpoint of a QUIC transport with TLS, and set the credentials.
    pub fn quic_tls(self, endpoint: &str, is_listener: bool, tls: ZenohTlsConfig) -> (r:
        ZenohSessionBuilder)
        ensures
            self.with_endpoint(
                endpoint::with_scheme_spec(endpoint@, "quic/"@),
                is_listener,
                r,
            ),
            r.tls == Some(tls),
    {
        let mut b = self.push(endpoint::format_quic_endpoint(endpoint), is_listener);
        b.tls = Some(tls);
        b
    }

    /// Set the credentials.
    pub fn tls(self, tls: ZenohTlsConfig) -> (r: ZenohSessionBuilder)
        ensures
            r == (ZenohSessionBuilder { tls: Some(tls), ..self }),
    {
        let mut b = self;
        b.tls = Some(tls);
        b
    }

    /// The settings of the session, in the order in which they are inserted.  Without endpoints the
    /// setting of the endpoints is left as it is.
    pub open spec fn settings_spec(self) -> Seq<(Seq<char>, SettingView)> {
        let listen = text::views(self.listen_endpoints@);
        let connect = text::views(self.connect_endpoints@);
        seq![
            (KEY_SCOUTING_MULTICAST@, SettingView::Flag(self.enable_multicast)),
            (KEY_SCOUTING_GOSSIP@, SettingView::Flag(self.enable_gossip)),
        ] + (if listen.len() > 0 {
            seq![(KEY_LISTEN_ENDPOINTS@, SettingView::List(listen))]
        } else {
            Seq::empty()
        }) + (if connect.len() > 0 {
            seq![(KEY_CONNECT_ENDPOINTS@, SettingView::List(connect))]
        } else {
            Seq::empty()
        }) + (match self.tls {
            Some(tls) => seq![
                (KEY_TLS_LISTEN_CERT@, SettingView::Text(tls.cert_base64@)),
                (KEY_TLS_LISTEN_KEY@, SettingView::Text(tls.key_base64@)),
                (KEY_TLS_CONNECT_CERT@, SettingView::Text(tls.cert_base64@)),
                (KEY_TLS_CONNECT_KEY@, SettingView::Text(tls.key_base64@)),
                (KEY_TLS_ROOT_CA@, SettingView::Text(tls.root_ca())),
                (KEY_TLS_VERIFY_NAME@, SettingView::Flag(tls.verify_name_on_connect)),
            ],
            None => Seq::empty(),
        })
    }

    /// The settings of the session, in the order in which they are inserted.
    pub fn settings(&self) -> (r: Vec<Setting>)
        ensures
            settings_view(r@) == self.settings_spec(),
            forall|i: int| 0 <= i < r@.len() ==> is_session_key(#[trigger] r@[i].key@),
    {
        let mut r: Vec<Setting> = Vec::new();
        r.push(
            Setting {
                key: KEY_SCOUTING_MULTICAST,
                value: SettingValue::Flag(self.enable_multicast),
            },
        );
        r.push(Setting { key: KEY_SCOUTING_GOSSIP, value: SettingValue::Flag(self.enable_gossip) });
        if self.listen_endpoints.len() > 0 {
            r.push(
                Setting {
                    key: KEY_LISTEN_ENDPOINTS,
                    value: SettingValue::List(duplicate_list(&self.listen_endpoints)),
                },
            );
        }
        if self.connect_endpoints.len() > 0 {
            r.push(
                Setting {
                    key: KEY_CONNECT_ENDPOINTS,
                    value: SettingValue::List(duplicate_list(&self.connect_endpoints)),
                },
            );
        }
        if let Some(tls) = &self.tls {
            let cert = tls.cert_base64.as_str();
            let key = tls.key_base64.as_str();
            let root_ca = match &tls.root_ca_base64 {
                Some(ca) => ca.as_str(),
                None => cert,
            };
            r.push(text_setting(KEY_TLS_LISTEN_CERT, cert));
            r.push(text_setting(KEY_TLS_LISTEN_KEY, key));
            r.push(text_setting(KEY_TLS_CONNECT_CERT, cert));
            r.push(text_setting(KEY_TLS_CONNECT_KEY, key));
            r.push(text_setting(KEY_TLS_ROOT_CA, root_ca));
            r.push(
                Setting {
                    key: KEY_TLS_VERIFY_NAME,
                    value: SettingValue::Flag(tls.verify_name_on_connect),
                },
            );
        }
        assert(settings_view(r@) =~= self.settings_spec());
        r
    }

    /// The configuration of the session: the default one with the settings inserted.
    pub fn build_config(&self) -> (r: Result<zenoh::Config, MessageError>)
        ensures
            exists|base: zenoh::Config|
                is_default(base) && #[trigger] configured(base, self.settings_spec()) == (match r {
                    Ok(c) => Some(c),
                    Err(_) => None,
                }),
    {
        let base = default_config();
        let settings = self.settings();
        let r = configure(base, &settings);
        assert(configured(base, self.settings_spec()) == (match r {
            Ok(c) => Some(c),
            Err(_) => None,
        }));
        r
    }
}

fn text_setting(key: &'static str, value: &str) -> (r: Setting)
    ensures
        r.key == key,
        r.value@ == SettingView::Text(value@),
{
    Setting { key, value: SettingValue::Text(value.to_owned()) }
}

/// A configuration is valid exactly if it has a key prefix and that is taken; an empty prefix is
/// refused whatever the check says, and a prefix that is not taken with the reason.
pub proof fn prefixes_must_be_taken(c: ZenohNetworkConfig, reason: Seq<char>, valid: bool)
    ensures
        c.validated(Ok(())) is Ok <==> c.key_prefix@.len() > 0,
        c.key_prefix@.len() == 0 ==> c.validated(Ok(())) == Err::<(), Seq<char>>(
            "key_prefix cannot be empty"@,
        ) && c.validated(Err(reason)) == Err::<(), Seq<char>>("key_prefix cannot be empty"@),
        c.key_prefix@.len() > 0 ==> c.validated(Err(reason)) == Err::<(), Seq<char>>(
            "invalid key_prefix: "@ + reason,
        ),
        c.judged(valid, reason) is Ok <==> valid && c.key_prefix@.len() > 0,
{
}

/// Configurations are the same where prefix, timeout and target of queries are.
pub proof fn same_configurations_agree(a: ZenohNetworkConfig, b: ZenohNetworkConfig)
    ensures
        a.same(b) <==> a.key_prefix@ == b.key_prefix@ && a.default_timeout == b.default_timeout
            && a.query_target == b.query_target,
{
}

/// The root is the given one, and the certificate itself where none is given.
pub proof fn certificates_are_their_own_root(tls: ZenohTlsConfig)
    ensures
        tls.root_ca_base64 matches Some(ca) ==> tls.root_ca() == ca@,
        tls.root_ca_base64 is None ==> tls.root_ca() == tls.cert_base64@,
{
}

/// An endpoint joins those of its own kind, at their end; the others, and whether other nodes are
/// looked for, stay.
pub proof fn endpoints_join_their_kind(
    b: ZenohSessionBuilder,
    ep: Seq<char>,
    is_listener: bool,
    new: ZenohSessionBuilder,
)
    requires
        b.with_endpoint(ep, is_listener, new),
    ensures
        is_listener ==> {
            &&& new.listen_endpoints@.len() == b.listen_endpoints@.len() + 1
            &&& new.listen_endpoints@.last()@ == ep
            &&& text::views(new.connect_endpoints@) == text::views(b.connect_endpoints@)
        },
        !is_listener ==> {
            &&& new.connect_endpoints@.len() == b.connect_endpoints@.len() + 1
            &&& new.connect_endpoints@.last()@ == ep
            &&& text::views(new.listen_endpoints@) == text::views(b.listen_endpoints@)
        },
        new.enable_multicast == b.enable_multicast,
        new.enable_gossip == b.enable_gossip,
{
    let l = text::views(new.listen_endpoints@);
    let c = text::views(new.connect_endpoints@);
    assert(l.len() == new.listen_endpoints@.len());
    assert(c.len() == new.connect_endpoints@.len());
    assert(text::views(b.listen_endpoints@).len() == b.listen_endpoints@.len());
    assert(text::views(b.connect_endpoints@).len() == b.connect_endpoints@.len());
    if is_listener {
        assert(l.last() == ep);
    } else {
        assert(c.last() == ep);
    }
}

/// A session sets whether it looks for other nodes, the endpoints of each kind where there are any,
/// and with credentials the certificate and the key for both directions, the root, and whether names
/// are verified.
pub proof fn sessions_set_what_they_are_built_with(b: ZenohSessionBuilder)
    ensures
        ({
            let s = b.settings_spec();
            let listens = b.listen_endpoints@.len() > 0;
            let connects = b.connect_endpoints@.len() > 0;
            let l = if listens {
                1int
            } else {
                0
            };
            let c = if connects {
                1int
            } else {
                0
            };
            &&& s[0] == ("scouting/multicast/enabled"@, SettingView::Flag(b.enable_multicast))
            &&& s[1] == ("scouting/gossip/enabled"@, SettingView::Flag(b.enable_gossip))
            &&& listens ==> s[2] == (
                "listen/endpoints"@,
                SettingView::List(text::views(b.listen_endpoints@)),
            )
            &&& connects ==> s[2 + l] == (
                "connect/endpoints"@,
                SettingView::List(text::views(b.connect_endpoints@)),
            )
            &&& b.tls is None ==> s.len() == 2 + l + c
            &&& b.tls matches Some(tls) ==> {
                &&& s.len() == 2 + l + c + 6
                &&& s[2 + l + c] == (
                    "transport/link/tls/listen_certificate_base64"@,
                    SettingView::Text(tls.cert_base64@),
                )
                &&& s[3 + l + c] == (
                    "transport/link/tls/listen_private_key_base64"@,
                    SettingView::Text(tls.key_base64@),
                )
                &&& s[4 + l + c] == (
                    "transport/link/tls/connect_certificate_base64"@,
                    SettingView::Text(tls.cert_base64@),
                )
                &&& s[5 + l + c] == (
                    "transport/link/tls/connect_private_key_base64"@,
                    SettingView::Text(tls.key_base64@),
                )
                &&& s[6 + l + c].0 == "transport/link/tls/root_ca_certificate_base64"@
                &&& tls.root_ca_base64 matches Some(ca) ==> s[6 + l + c].1 == SettingView::Text(ca@)
                &&& tls.root_ca_base64 is None ==> s[6 + l + c].1 == SettingView::Text(
                    tls.cert_base64@,
                )
                &&& s[7 + l + c] == (
                    "transport/link/tls/verify_name_on_connect"@,
                    SettingView::Flag(tls.verify_name_on_connect),
                )
            }
        }),
{
    assert(text::views(b.listen_endpoints@).len() == b.listen_endpoints@.len());
    assert(text::views(b.connect_endpoints@).len() == b.connect_endpoints@.len());
}

/// Settings are inserted one after the other: those of two lists as those of the first and then of
/// the second, and not at all where one of them cannot be.
pub proof fn settings_are_inserted_in_order(
    config: zenoh::Config,
    a: Seq<(Seq<char>, SettingView)>,
    b: Seq<(Seq<char>, SettingView)>,
)
    ensures
        configured(config, Seq::empty()) == Some(config),
        configured(config, a) is None ==> configured(config, a + b) is None,
        configured(config, a) matches Some(c) ==> configured(config, a + b) == configured(c, b),
    decreases b.len(),
{
    if b.len() == 0 {
        assert(a + b =~= a);
    } else {
        settings_are_inserted_in_order(config, a, b.drop_last());
        assert((a + b).drop_last() =~= a + b.drop_last());
        assert((a + b).last() == b.last());
    }
}

/// A value is written by its kind: a flag as a word, texts and lists as JSON has them.
pub proof fn values_are_written_by_their_kind(b: bool, t: Seq<char>, l: Seq<Seq<char>>)
    ensures
        json_of(SettingView::Flag(true)) == Some("true"@),
        json_of(SettingView::Flag(false)) == Some("false"@),
        json_of(SettingView::Text(t)) == json_text(t),
        json_of(SettingView::List(l)) == json_list(l),
{
}

/// A single setting is inserted under its key as its value is written, and fails where that cannot be.
pub proof fn settings_are_inserted_under_their_keys(
    config: zenoh::Config,
    key: Seq<char>,
    value: SettingView,
)
    ensures
        json_of(value) matches Some(j) ==> configured(config, seq![(key, value)]) == config_with(
            config,
            key,
            j,
        ),
        json_of(value) is None ==> configured(config, seq![(key, value)]) is None,
{
    let one = seq![(key, value)];
    assert(one.drop_last() =~= Seq::empty());
    reveal_with_fuel(configured, 2);
}

/// Without a configuration of its own, the network uses its own prefix, five seconds and the nearest
/// node; a session begins without endpoints and credentials and looks for nobody.
pub proof fn default_calls(c: ZenohNetworkConfig, b: ZenohSessionBuilder)
    ensures
        call_ensures(<ZenohNetworkConfig as Default>::default, (), c) ==> c.key_prefix@
            == "zenoh_raft"@ && c.default_timeout.nanos == 5_000_000_000
            && c.query_target is BestMatching,
        call_ensures(ZenohSessionBuilder::new, (), b) ==> b.listen_endpoints@.len() == 0
            && b.connect_endpoints@.len() == 0 && b.tls is None && !b.enable_multicast
            && !b.enable_gossip,
{
}

/// Each kind of transport adds its own endpoint; credentials come with the transport that needs them
/// and stay with every other.
pub proof fn transport_calls(
    b: ZenohSessionBuilder,
    ep: &str,
    is_listener: bool,
    tls: ZenohTlsConfig,
    r: ZenohSessionBuilder,
)
    ensures
        call_ensures(ZenohSessionBuilder::tcp, (b, ep, is_listener), r) ==> b.with_endpoint(
            endpoint::with_scheme_spec(ep@, "tcp/"@),
            is_listener,
            r,
        ) && r.tls == b.tls,
        call_ensures(ZenohSessionBuilder::udp, (b, ep, is_listener), r) ==> b.with_endpoint(
            endpoint::with_scheme_spec(ep@, "udp/"@),
            is_listener,
            r,
        ) && r.tls == b.tls,
        call_ensures(ZenohSessionBuilder::quic_plain, (b, ep, is_listener), r) ==> b.with_endpoint(
            endpoint::plain_spec(ep@),
            is_listener,
            r,
        ) && r.tls == b.tls,
        call_ensures(ZenohSessionBuilder::quic_tls, (b, ep, is_listener, tls), r)
            ==> b.with_endpoint(
            endpoint::with_scheme_spec(ep@, "quic/"@),
            is_listener,
            r,
        ) && r.tls == Some(tls),
        call_ensures(ZenohSessionBuilder::tls, (b, tls), r) ==> r.tls == Some(tls)
            && r.listen_endpoints == b.listen_endpoints && r.connect_endpoints
            == b.connect_endpoints && r.enable_multicast == b.enable_multicast && r.enable_gossip
            == b.enable_gossip,
{
}

} // verus!
