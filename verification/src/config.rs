//! The gateway's configuration, read from the values of environment variables.
use crate::text;
use crate::text::{
    format_debug, is_blank, parse_u16, same_text, trimmed_lowercase, NumberError,
};
use vstd::prelude::*;

verus! {

pub const FALLBACK_DESKTOP_WIDTH: u16 = 1280;

pub const FALLBACK_DESKTOP_HEIGHT: u16 = 720;

pub const MIN_DESKTOP_SIDE: u16 = 200;

pub const DEFAULT_UI_PORT: u16 = 8081;

/// A variable of the environment.
#[derive(Debug, Clone)]
pub enum EnvValue {
    Missing,
    /// The value is no Unicode text; this is its quoted and escaped form.
    NotUnicode(String),
    Text(String),
}

/// An IP address, by its bytes.
#[derive(Debug, Clone, Copy, PartialEq, Eq)]
pub enum IpAddress {
    V4([u8; 4]),
    V6([u8; 16]),
}

/// An IP address and a port.
#[derive(Debug, Clone, Copy, PartialEq, Eq)]
pub struct SocketAddress {
    pub ip: IpAddress,
    pub port: u16,
}

/// All that the configuration depends on.
#[derive(Debug, Clone)]
pub struct Environment {
    pub rdp_host: EnvValue,
    pub rdp_port: EnvValue,
    pub rdp_user: EnvValue,
    pub rdp_password: EnvValue,
    pub rdp_domain: EnvValue,
    pub rdp_mode: EnvValue,
    pub rdp_width: EnvValue,
    pub rdp_height: EnvValue,
    pub ui_port: EnvValue,
    pub ui_tls_cert: EnvValue,
    pub ui_tls_key: EnvValue,
    /// The address that the UI host's text spells, if it spells one.
    pub ui_ip: Option<IpAddress>,
    /// Whether the file at the default certificate path exists.
    pub default_cert_exists: bool,
    /// Whether the file at the default key path exists.
    pub default_key_exists: bool,
}

/// The whole configuration.
#[derive(Debug, Clone)]
pub struct AppConfig {
    pub ui_bind: SocketAddress,
    pub tls: TlsConfig,
    pub rdp: RdpConfig,
}

/// The files of the web server's certificate and private key.
#[derive(Debug, Clone)]
pub struct TlsConfig {
    pub cert_path: String,
    pub key_path: String,
}

/// The RDP endpoint and how to log in to it.
#[derive(Debug)]
pub struct RdpConfig {
    pub host: String,
    pub port: u16,
    pub username: String,
    pub password: String,
    pub domain: Option<String>,
    pub mode: RdpMode,
    pub routing_token: Option<String>,
    pub redirection_auth: Option<RdpRedirectionAuth>,
    pub width: u16,
    pub height: u16,
}

/// The credentials that a server redirection brought.
#[derive(Debug)]
pub struct RdpRedirectionAuth {
    pub flags: u32,
    pub username: Option<String>,
    pub domain: Option<String>,
    pub password: Option<Vec<u8>>,
    pub redirection_guid: Option<Vec<u8>>,
}

/// The kind of RDP endpoint.
#[derive(Debug, Clone, Copy, PartialEq, Eq, Structural)]
pub enum RdpMode {
    Shared,
    Session,
}

/// The part of the configuration that any browser may see.
#[derive(Debug, Clone, Copy, PartialEq, Eq, Structural)]
pub struct PublicConfig {
    pub default_width: u16,
    pub default_height: u16,
}

/// A setting, each read from one environment variable.
#[derive(Debug, Clone, Copy, PartialEq, Eq, Structural)]
pub enum Setting {
    RdpHost,
    RdpPort,
    RdpUser,
    RdpPassword,
    RdpMode,
    RdpWidth,
    RdpHeight,
    UiPort,
}

/// Why a variable has no text.
#[derive(Debug, Clone)]
pub enum VariableError {
    NotPresent,
    /// With the quoted and escaped form of the value.
    NotUnicode(String),
}

/// A `VariableError` with its text as characters.
pub enum VariableErrorView {
    NotPresent,
    NotUnicode(Seq<char>),
}

impl View for VariableError {
    type V = VariableErrorView;

    open spec fn view(&self) -> VariableErrorView {
        match *self {
            VariableError::NotPresent => VariableErrorView::NotPresent,
            VariableError::NotUnicode(quoted) => VariableErrorView::NotUnicode(quoted@),
        }
    }
}

impl VariableErrorView {
    /// The text that describes the error.
    pub open spec fn text(self) -> Seq<char> {
        match self {
            VariableErrorView::NotPresent => "environment variable not found"@,
            VariableErrorView::NotUnicode(quoted) => "environment variable was not valid unicode: "@
                + quoted,
        }
    }
}

/// Why no configuration could be made, and what brought it about where there is
/// more to say.
#[derive(Debug, Clone)]
pub enum ConfigError {
    Required(Setting, VariableError),
    Empty(Setting),
    NotU16(Setting, NumberError),
    Unreadable(Setting, VariableError),
    InvalidMode(String),
    DesktopTooSmall,
    TlsKeyRequired,
    TlsCertRequired,
    TlsRequired,
}

/// A `ConfigError` with its text as characters.
pub enum ConfigErrorView {
    Required(Setting, VariableErrorView),
    Empty(Setting),
    NotU16(Setting, NumberError),
    Unreadable(Setting, VariableErrorView),
    InvalidMode(Seq<char>),
    DesktopTooSmall,
    TlsKeyRequired,
    TlsCertRequired,
    TlsRequired,
}

impl View for ConfigError {
    type V = ConfigErrorView;

    open spec fn view(&self) -> ConfigErrorView {
        match *self {
            ConfigError::Required(setting, cause) => ConfigErrorView::Required(setting, cause@),
            ConfigError::Empty(setting) => ConfigErrorView::Empty(setting),
            ConfigError::NotU16(setting, cause) => ConfigErrorView::NotU16(setting, cause),
            ConfigError::Unreadable(setting, cause) => ConfigErrorView::Unreadable(setting, cause@),
            ConfigError::InvalidMode(mode) => ConfigErrorView::InvalidMode(mode@),
            ConfigError::DesktopTooSmall => ConfigErrorView::DesktopTooSmall,
            ConfigError::TlsKeyRequired => ConfigErrorView::TlsKeyRequired,
            ConfigError::TlsCertRequired => ConfigErrorView::TlsCertRequired,
            ConfigError::TlsRequired => ConfigErrorView::TlsRequired,
        }
    }
}

impl Setting {
    /// The name of the environment variable.
    pub open spec fn name(self) -> Seq<char> {
        match self {
            Setting::RdpHost => "RDP_HOST"@,
            Setting::RdpPort => "RDP_PORT"@,
            Setting::RdpUser => "RDP_USER"@,
            Setting::RdpPassword => "RDP_PASSWORD"@,
            Setting::RdpMode => "RDP_MODE"@,
            Setting::RdpWidth => "RDP_WIDTH"@,
            Setting::RdpHeight => "RDP_HEIGHT"@,
            Setting::UiPort => "UI_PORT"@,
        }
    }

    /// The name of the environment variable.
    pub fn key(&self) -> (key: &'static str)
        ensures
            key@ == self.name(),
    {
        match self {
            Setting::RdpHost => "RDP_HOST",
            Setting::RdpPort => "RDP_PORT",
            Setting::RdpUser => "RDP_USER",
            Setting::RdpPassword => "RDP_PASSWORD",
            Setting::RdpMode => "RDP_MODE",
            Setting::RdpWidth => "RDP_WIDTH",
            Setting::RdpHeight => "RDP_HEIGHT",
            Setting::UiPort => "UI_PORT",
        }
    }
}

impl ConfigErrorView {
    /// The text that describes the error.
    pub open spec fn text(self) -> Seq<char> {
        match self {
            ConfigErrorView::Required(setting, _) => setting.name() + " is required"@,
            ConfigErrorView::Empty(setting) => setting.name() + " must not be empty"@,
            ConfigErrorView::NotU16(setting, _) => setting.name() + " must be a u16"@,
            ConfigErrorView::Unreadable(setting, _) => "read "@ + setting.name(),
            ConfigErrorView::InvalidMode(mode) => "RDP_MODE must be shared or session; got "@
                + text::debug_text(mode),
            ConfigErrorView::DesktopTooSmall => "RDP_WIDTH and RDP_HEIGHT must be at least 200"@,
            ConfigErrorView::TlsKeyRequired => "UI_TLS_KEY is required when UI_TLS_CERT is set"@,
            ConfigErrorView::TlsCertRequired => "UI_TLS_CERT is required when UI_TLS_KEY is set"@,
            ConfigErrorView::TlsRequired =>
                "UI TLS certificate is required; set UI_TLS_CERT/UI_TLS_KEY or create certs/rdp2web.crt and certs/rdp2web.key"@,
        }
    }

    /// The text that describes what brought the error about.
    pub open spec fn cause(self) -> Option<Seq<char>> {
        match self {
            ConfigErrorView::Required(_, cause) => Some(cause.text()),
            ConfigErrorView::NotU16(_, cause) => Some(cause.text()),
            ConfigErrorView::Unreadable(_, cause) => Some(cause.text()),
            _ => None,
        }
    }
}

/// Two texts, one behind the other.
fn join(first: &str, second: &str) -> (joined: String)
    ensures
        joined@ == first@ + second@,
{
    first.to_owned().concat(second)
}

impl VariableError {
    /// The message shown for the error.
    pub fn message(&self) -> (message: String)
        ensures
            message@ == self@.text(),
    {
        match self {
            VariableError::NotPresent => "environment variable not found".to_owned(),
            VariableError::NotUnicode(quoted) => join(
                "environment variable was not valid unicode: ",
                quoted.as_str(),
            ),
        }
    }
}

impl ConfigError {
    /// The message shown for what brought the error about.
    pub fn cause(&self) -> (message: Option<String>)
        ensures
            text::optional(message) == self@.cause(),
    {
        match self {
            ConfigError::Required(_, cause) => Some(cause.message()),
            ConfigError::NotU16(_, cause) => Some(cause.message().to_owned()),
            ConfigError::Unreadable(_, cause) => Some(cause.message()),
            _ => None,
        }
    }

    /// The message shown for the error.
    pub fn message(&self) -> (message: String)
        ensures
            message@ == self@.text(),
    {
        match self {
            ConfigError::Required(setting, _) => join(setting.key(), " is required"),
            ConfigError::Empty(setting) => join(setting.key(), " must not be empty"),
            ConfigError::NotU16(setting, _) => join(setting.key(), " must be a u16"),
            ConfigError::Unreadable(setting, _) => join("read ", setting.key()),
            ConfigError::InvalidMode(mode) => {
                let quoted = format_debug(mode.as_str());
                join("RDP_MODE must be shared or session; got ", quoted.as_str())
            },
            ConfigError::DesktopTooSmall => {
                "RDP_WIDTH and RDP_HEIGHT must be at least 200".to_owned()
            },
            ConfigError::TlsKeyRequired => {
                "UI_TLS_KEY is required when UI_TLS_CERT is set".to_owned()
            },
            ConfigError::TlsCertRequired => {
                "UI_TLS_CERT is required when UI_TLS_KEY is set".to_owned()
            },
            ConfigError::TlsRequired => {
                "UI TLS certificate is required; set UI_TLS_CERT/UI_TLS_KEY or create certs/rdp2web.crt and certs/rdp2web.key".to_owned()
            },
        }
    }
}

/// The bytes of an optional byte string.
pub open spec fn optional_bytes(bytes: Option<Vec<u8>>) -> Option<Seq<u8>> {
    match bytes {
        Some(bytes) => Some(bytes@),
        None => None,
    }
}

impl RdpRedirectionAuth {
    /// Holds the same values.
    pub open spec fn same(self, other: RdpRedirectionAuth) -> bool {
        &&& self.flags == other.flags
        &&& text::optional(self.username) == text::optional(other.username)
        &&& text::optional(self.domain) == text::optional(other.domain)
        &&& optional_bytes(self.password) == optional_bytes(other.password)
        &&& optional_bytes(self.redirection_guid) == optional_bytes(other.redirection_guid)
    }
}

impl RdpConfig {
    /// Names the same endpoint and the same credentials.
    pub open spec fn same_endpoint(self, other: RdpConfig) -> bool {
        &&& self.host@ == other.host@
        &&& self.port == other.port
        &&& self.username@ == other.username@
        &&& self.password@ == other.password@
        &&& text::optional(self.domain) == text::optional(other.domain)
        &&& self.mode == other.mode
        &&& text::optional(self.routing_token) == text::optional(other.routing_token)
        &&& match (self.redirection_auth, other.redirection_auth) {
            (Some(a), Some(b)) => a.same(b),
            (None, None) => true,
            _ => false,
        }
    }
}

/// A copy of an optional text.
fn copy_text(text: &Option<String>) -> (copy: Option<String>)
    ensures
        text::optional(copy) == text::optional(*text),
{
    match text {
        Some(text) => Some(text.clone()),
        None => None,
    }
}

/// A copy of an optional byte string.
fn copy_bytes(bytes: &Option<Vec<u8>>) -> (copy: Option<Vec<u8>>)
    ensures
        optional_bytes(copy) == optional_bytes(*bytes),
{
    match bytes {
        Some(bytes) => {
            let copy = bytes.clone();
            assert(copy@ =~= bytes@);
            Some(copy)
        },
        None => None,
    }
}

impl Clone for RdpRedirectionAuth {
    fn clone(&self) -> (copy: RdpRedirectionAuth)
        ensures
            copy.same(*self),
    {
        RdpRedirectionAuth {
            flags: self.flags,
            username: copy_text(&self.username),
            domain: copy_text(&self.domain),
            password: copy_bytes(&self.password),
            redirection_guid: copy_bytes(&self.redirection_guid),
        }
    }
}

impl Clone for RdpConfig {
    fn clone(&self) -> (copy: RdpConfig)
        ensures
            copy.same_endpoint(*self),
            copy.width == self.width,
            copy.height == self.height,
    {
        RdpConfig {
            host: self.host.clone(),
            port: self.port,
            username: self.username.clone(),
            password: self.password.clone(),
            domain: copy_text(&self.domain),
            mode: self.mode,
            routing_token: copy_text(&self.routing_token),
            redirection_auth: match &self.redirection_auth {
                Some(auth) => Some(auth.clone()),
                None => None,
            },
            width: self.width,
            height: self.height,
        }
    }
}

/// The text of a variable that is set and is Unicode.
pub open spec fn present(value: EnvValue) -> Option<Seq<char>> {
    match value {
        EnvValue::Text(text) => Some(text@),
        _ => None,
    }
}

/// The text of a variable that is set, is Unicode and is not blank.
pub open spec fn filled(value: EnvValue) -> Option<Seq<char>> {
    match value {
        EnvValue::Text(text) if !text::blank(text@) => Some(text@),
        _ => None,
    }
}

/// What a setting that must be there gives.
pub open spec fn required(setting: Setting, value: EnvValue) -> Result<Seq<char>, ConfigErrorView> {
    match value {
        EnvValue::Text(text) if text::blank(text@) => Err(ConfigErrorView::Empty(setting)),
        EnvValue::Text(text) => Ok(text@),
        EnvValue::Missing => Err(
            ConfigErrorView::Required(setting, VariableErrorView::NotPresent),
        ),
        EnvValue::NotUnicode(quoted) => Err(
            ConfigErrorView::Required(setting, VariableErrorView::NotUnicode(quoted@)),
        ),
    }
}

/// What an optional number gives.
pub open spec fn optional_u16(setting: Setting, value: EnvValue) -> Result<
    Option<u16>,
    ConfigErrorView,
> {
    match value {
        EnvValue::Missing => Ok(None),
        EnvValue::NotUnicode(quoted) => Err(
            ConfigErrorView::Unreadable(setting, VariableErrorView::NotUnicode(quoted@)),
        ),
        EnvValue::Text(text) => if text::blank(text@) {
            Ok(None)
        } else {
            match text::u16_result(text@) {
                Ok(number) => Ok(Some(number)),
                Err(cause) => Err(ConfigErrorView::NotU16(setting, cause)),
            }
        },
    }
}

/// The names of the shared mode.
pub open spec fn names_shared(word: Seq<char>) -> bool {
    word == "shared"@ || word == "share"@ || word == "screen-share"@ || word == "screen-sharing"@
        || word == "remote-assistance"@ || word == "assistance"@
}

/// The names of the session mode.
pub open spec fn names_session(word: Seq<char>) -> bool {
    word == "session"@ || word == "login"@ || word == "remote-login"@ || word == "headless"@
}

/// The mode that a text names, whatever its case and the white space around it.
pub open spec fn mode_of_text(value: Seq<char>) -> Result<RdpMode, ConfigErrorView> {
    let word = text::lower(text::trim(value));
    if names_shared(word) {
        Ok(RdpMode::Shared)
    } else if names_session(word) {
        Ok(RdpMode::Session)
    } else {
        Err(ConfigErrorView::InvalidMode(word))
    }
}

/// The mode that an optional text names: shared if there is none or it is blank.
pub open spec fn mode_of_value(value: Option<Seq<char>>) -> Result<RdpMode, ConfigErrorView> {
    match value {
        Some(value) if !text::blank(value) => mode_of_text(value),
        _ => Ok(RdpMode::Shared),
    }
}

/// The mode that the environment asks for.
pub open spec fn mode_of_env(value: EnvValue) -> Result<RdpMode, ConfigErrorView> {
    match value {
        EnvValue::NotUnicode(quoted) => Err(
            ConfigErrorView::Unreadable(Setting::RdpMode, VariableErrorView::NotUnicode(quoted@)),
        ),
        _ => mode_of_value(present(value)),
    }
}

/// The port of the RDP endpoint.
pub open spec fn rdp_port(value: EnvValue) -> Result<u16, ConfigErrorView> {
    match required(Setting::RdpPort, value) {
        Ok(text) => match text::u16_result(text) {
            Ok(port) => Ok(port),
            Err(cause) => Err(ConfigErrorView::NotU16(Setting::RdpPort, cause)),
        },
        Err(error) => Err(error),
    }
}

/// The port of the web server.
pub open spec fn ui_port(value: EnvValue) -> Result<u16, ConfigErrorView> {
    match present(value) {
        Some(text) => match text::u16_result(text) {
            Ok(port) => Ok(port),
            Err(cause) => Err(ConfigErrorView::NotU16(Setting::UiPort, cause)),
        },
        None => Ok(DEFAULT_UI_PORT),
    }
}

/// The paths of the certificate and the private key.
pub open spec fn tls_paths(
    cert: EnvValue,
    key: EnvValue,
    default_cert_exists: bool,
    default_key_exists: bool,
) -> Result<(Seq<char>, Seq<char>), ConfigErrorView> {
    match (filled(cert), filled(key)) {
        (Some(cert), Some(key)) => Ok((cert, key)),
        (Some(_), None) => Err(ConfigErrorView::TlsKeyRequired),
        (None, Some(_)) => Err(ConfigErrorView::TlsCertRequired),
        (None, None) => if default_cert_exists && default_key_exists {
            Ok(("certs/rdp2web.crt"@, "certs/rdp2web.key"@))
        } else {
            Err(ConfigErrorView::TlsRequired)
        },
    }
}

/// A desktop that is wide and high enough.
pub open spec fn usable_size(width: u16, height: u16) -> bool {
    width >= MIN_DESKTOP_SIDE && height >= MIN_DESKTOP_SIDE
}

/// The desktop's width, once its setting is known to be good.
pub open spec fn desktop_width(env: Environment) -> u16 {
    match optional_u16(Setting::RdpWidth, env.rdp_width) {
        Ok(Some(width)) => width,
        _ => FALLBACK_DESKTOP_WIDTH,
    }
}

/// The desktop's height, once its setting is known to be good.
pub open spec fn desktop_height(env: Environment) -> u16 {
    match optional_u16(Setting::RdpHeight, env.rdp_height) {
        Ok(Some(height)) => height,
        _ => FALLBACK_DESKTOP_HEIGHT,
    }
}

/// The error of the first bad setting, in the order in which they are read.
pub open spec fn config_error(env: Environment) -> Option<ConfigErrorView> {
    if let Err(error) = optional_u16(Setting::RdpWidth, env.rdp_width) {
        Some(error)
    } else if let Err(error) = optional_u16(Setting::RdpHeight, env.rdp_height) {
        Some(error)
    } else if let Err(error) = required(Setting::RdpHost, env.rdp_host) {
        Some(error)
    } else if let Err(error) = rdp_port(env.rdp_port) {
        Some(error)
    } else if let Err(error) = required(Setting::RdpUser, env.rdp_user) {
        Some(error)
    } else if let Err(error) = required(Setting::RdpPassword, env.rdp_password) {
        Some(error)
    } else if let Err(error) = mode_of_env(env.rdp_mode) {
        Some(error)
    } else if !usable_size(desktop_width(env), desktop_height(env)) {
        Some(ConfigErrorView::DesktopTooSmall)
    } else if let Err(error) = ui_port(env.ui_port) {
        Some(error)
    } else if let Err(error) = tls_paths(
        env.ui_tls_cert,
        env.ui_tls_key,
        env.default_cert_exists,
        env.default_key_exists,
    ) {
        Some(error)
    } else {
        None
    }
}

/// Whether `config` is what the environment asks for.
pub open spec fn configures(env: Environment, config: AppConfig) -> bool {
    &&& required(Setting::RdpHost, env.rdp_host) == Ok::<Seq<char>, ConfigErrorView>(
        config.rdp.host@,
    )
    &&& rdp_port(env.rdp_port) == Ok::<u16, ConfigErrorView>(config.rdp.port)
    &&& required(Setting::RdpUser, env.rdp_user) == Ok::<Seq<char>, ConfigErrorView>(
        config.rdp.username@,
    )
    &&& required(Setting::RdpPassword, env.rdp_password) == Ok::<Seq<char>, ConfigErrorView>(
        config.rdp.password@,
    )
    &&& text::optional(config.rdp.domain) == match present(env.rdp_domain) {
        Some(domain) if domain.len() > 0 => Some(domain),
        _ => None,
    }
    &&& mode_of_env(env.rdp_mode) == Ok::<RdpMode, ConfigErrorView>(config.rdp.mode)
    &&& config.rdp.routing_token is None
    &&& config.rdp.redirection_auth is None
    &&& config.rdp.width == desktop_width(env)
    &&& config.rdp.height == desktop_height(env)
    &&& config.ui_bind.ip == match env.ui_ip {
        Some(ip) => ip,
        None => IpAddress::V4([0u8, 0u8, 0u8, 0u8]),
    }
    &&& ui_port(env.ui_port) == Ok::<u16, ConfigErrorView>(config.ui_bind.port)
    &&& tls_paths(
        env.ui_tls_cert,
        env.ui_tls_key,
        env.default_cert_exists,
        env.default_key_exists,
    ) == Ok::<(Seq<char>, Seq<char>), ConfigErrorView>((config.tls.cert_path@, config.tls.key_path@))
}

/// The public part of a configuration.
pub open spec fn public_part(config: AppConfig) -> PublicConfig {
    PublicConfig { default_width: config.rdp.width, default_height: config.rdp.height }
}

/// The text of an optional setting that is not blank.
fn filled_value(value: &EnvValue) -> (found: Option<String>)
    ensures
        text::optional(found) == filled(*value),
{
    match value {
        EnvValue::Text(text) => if is_blank(text.as_str()) {
            None
        } else {
            Some(text.clone())
        },
        _ => None,
    }
}

/// The file that further variables are read from.
pub open spec fn dotenv_file(value: EnvValue) -> Seq<char> {
    match filled(value) {
        Some(path) => path,
        None => ".env"@,
    }
}

/// The text of the address that the web server listens on.
pub open spec fn host_text(value: EnvValue) -> Seq<char> {
    match present(value) {
        Some(host) => host,
        None => "0.0.0.0"@,
    }
}

/// The file that further variables are read from.
pub fn dotenv_path(value: &EnvValue) -> (path: String)
    ensures
        path@ == dotenv_file(*value),
{
    match filled_value(value) {
        Some(path) => path,
        None => ".env".to_owned(),
    }
}

/// The text of the address that the web server listens on.
pub fn ui_host(value: &EnvValue) -> (host: String)
    ensures
        host@ == host_text(*value),
{
    match value {
        EnvValue::Text(host) => host.clone(),
        _ => "0.0.0.0".to_owned(),
    }
}

/// The value of a setting that must be there.
pub fn env_var(setting: Setting, value: &EnvValue) -> (result: Result<String, ConfigError>)
    ensures
        match result {
            Ok(text) => required(setting, *value) == Ok::<Seq<char>, ConfigErrorView>(text@),
            Err(error) => required(setting, *value) == Err::<Seq<char>, ConfigErrorView>(error@),
        },
{
    match value {
        EnvValue::Text(text) => if is_blank(text.as_str()) {
            Err(ConfigError::Empty(setting))
        } else {
            Ok(text.clone())
        },
        EnvValue::Missing => Err(ConfigError::Required(setting, VariableError::NotPresent)),
        EnvValue::NotUnicode(quoted) => Err(
            ConfigError::Required(setting, VariableError::NotUnicode(quoted.clone())),
        ),
    }
}

/// The value of an optional number.
pub fn optional_u16_env(setting: Setting, value: &EnvValue) -> (result: Result<
    Option<u16>,
    ConfigError,
>)
    ensures
        match result {
            Ok(number) => optional_u16(setting, *value) == Ok::<Option<u16>, ConfigErrorView>(
                number,
            ),
            Err(error) => optional_u16(setting, *value) == Err::<Option<u16>, ConfigErrorView>(
                error@,
            ),
        },
{
    match value {
        EnvValue::Missing => Ok(None),
        EnvValue::NotUnicode(quoted) => Err(
            ConfigError::Unreadable(setting, VariableError::NotUnicode(quoted.clone())),
        ),
        EnvValue::Text(text) => if is_blank(text.as_str()) {
            Ok(None)
        } else {
            match parse_u16(text.as_str()) {
                Ok(number) => Ok(Some(number)),
                Err(cause) => Err(ConfigError::NotU16(setting, cause)),
            }
        },
    }
}

impl RdpMode {
    /// The mode that a text names.
    pub fn parse(value: &str) -> (result: Result<RdpMode, ConfigError>)
        ensures
            match result {
                Ok(mode) => mode_of_text(value@) == Ok::<RdpMode, ConfigErrorView>(mode),
                Err(error) => mode_of_text(value@) == Err::<RdpMode, ConfigErrorView>(error@),
            },
    {
        let owned = trimmed_lowercase(value);
        let word = owned.as_str();
        if same_text(word, "shared") || same_text(word, "share") || same_text(word, "screen-share")
            || same_text(word, "screen-sharing") || same_text(word, "remote-assistance")
            || same_text(word, "assistance") {
            Ok(RdpMode::Shared)
        } else if same_text(word, "session") || same_text(word, "login") || same_text(
            word,
            "remote-login",
        ) || same_text(word, "headless") {
            Ok(RdpMode::Session)
        } else {
            Err(ConfigError::InvalidMode(owned))
        }
    }
}

/// The mode that an optional text names.
pub fn rdp_mode_from_value(value: Option<&str>) -> (result: Result<RdpMode, ConfigError>)
    ensures
        ({
            let mode = mode_of_value(
                match value {
                    Some(text) => Some(text@),
                    None => None,
                },
            );
            match result {
                Ok(found) => mode == Ok::<RdpMode, ConfigErrorView>(found),
                Err(error) => mode == Err::<RdpMode, ConfigErrorView>(error@),
            }
        }),
{
    match value {
        Some(text) => if is_blank(text) {
            Ok(RdpMode::Shared)
        } else {
            RdpMode::parse(text)
        },
        None => Ok(RdpMode::Shared),
    }
}

/// The mode that the environment asks for.
pub fn rdp_mode_from_env(value: &EnvValue) -> (result: Result<RdpMode, ConfigError>)
    ensures
        match result {
            Ok(mode) => mode_of_env(*value) == Ok::<RdpMode, ConfigErrorView>(mode),
            Err(error) => mode_of_env(*value) == Err::<RdpMode, ConfigErrorView>(error@),
        },
{
    match value {
        EnvValue::Text(text) => rdp_mode_from_value(Some(text.as_str())),
        EnvValue::Missing => Ok(RdpMode::Shared),
        EnvValue::NotUnicode(quoted) => Err(
            ConfigError::Unreadable(Setting::RdpMode, VariableError::NotUnicode(quoted.clone())),
        ),
    }
}

/// The paths of the certificate and the private key.
pub fn tls_config_from_env(
    cert: &EnvValue,
    key: &EnvValue,
    default_cert_exists: bool,
    default_key_exists: bool,
) -> (result: Result<TlsConfig, ConfigError>)
    ensures
        ({
            let paths = tls_paths(*cert, *key, default_cert_exists, default_key_exists);
            match result {
                Ok(tls) => paths == Ok::<(Seq<char>, Seq<char>), ConfigErrorView>(
                    (tls.cert_path@, tls.key_path@),
                ),
                Err(error) => paths == Err::<(Seq<char>, Seq<char>), ConfigErrorView>(error@),
            }
        }),
{
    match (filled_value(cert), filled_value(key)) {
        (Some(cert_path), Some(key_path)) => Ok(TlsConfig { cert_path, key_path }),
        (Some(_), None) => Err(ConfigError::TlsKeyRequired),
        (None, Some(_)) => Err(ConfigError::TlsCertRequired),
        (None, None) => if default_cert_exists && default_key_exists {
            Ok(
                TlsConfig {
                    cert_path: "certs/rdp2web.crt".to_owned(),
                    key_path: "certs/rdp2web.key".to_owned(),
                },
            )
        } else {
            Err(ConfigError::TlsRequired)
        },
    }
}

/// The number in a text, or the setting's error.
fn u16_setting(setting: Setting, value: &str) -> (result: Result<u16, ConfigError>)
    ensures
        match result {
            Ok(number) => text::u16_result(value@) == Ok::<u16, NumberError>(number),
            Err(error) => text::u16_result(value@) matches Err(cause) && error@
                == ConfigErrorView::NotU16(setting, cause),
        },
{
    match parse_u16(value) {
        Ok(number) => Ok(number),
        Err(cause) => Err(ConfigError::NotU16(setting, cause)),
    }
}

impl AppConfig {
    /// Makes the configuration, or says which setting is bad. A configuration
    /// that is made has a desktop of a usable size.
    pub fn from_env(env: &Environment) -> (result: Result<AppConfig, ConfigError>)
        ensures
            match result {
                Ok(config) => {
                    &&& config_error(*env) is None
                    &&& configures(*env, config)
                    &&& usable_size(config.rdp.width, config.rdp.height)
                },
                Err(error) => config_error(*env) == Some(error@),
            },
    {
        let width: u16 = match optional_u16_env(Setting::RdpWidth, &env.rdp_width)? {
            Some(width) => width,
            None => FALLBACK_DESKTOP_WIDTH,
        };
        let height: u16 = match optional_u16_env(Setting::RdpHeight, &env.rdp_height)? {
            Some(height) => height,
            None => FALLBACK_DESKTOP_HEIGHT,
        };
        let host = env_var(Setting::RdpHost, &env.rdp_host)?;
        let port_text = env_var(Setting::RdpPort, &env.rdp_port)?;
        let port: u16 = u16_setting(Setting::RdpPort, port_text.as_str())?;
        let username = env_var(Setting::RdpUser, &env.rdp_user)?;
        let password = env_var(Setting::RdpPassword, &env.rdp_password)?;
        let domain = match &env.rdp_domain {
            EnvValue::Text(domain) => if domain.as_str().is_empty() {
                None
            } else {
                Some(domain.clone())
            },
            _ => None,
        };
        let mode = rdp_mode_from_env(&env.rdp_mode)?;
        if width < MIN_DESKTOP_SIDE || height < MIN_DESKTOP_SIDE {
            return Err(ConfigError::DesktopTooSmall);
        }
        let ui_port: u16 = match &env.ui_port {
            EnvValue::Text(port) => u16_setting(Setting::UiPort, port.as_str())?,
            _ => DEFAULT_UI_PORT,
        };
        let ui_ip = match env.ui_ip {
            Some(ip) => ip,
            None => IpAddress::V4([0u8, 0u8, 0u8, 0u8]),
        };
        let tls = tls_config_from_env(
            &env.ui_tls_cert,
            &env.ui_tls_key,
            env.default_cert_exists,
            env.default_key_exists,
        )?;
        Ok(
            AppConfig {
                ui_bind: SocketAddress { ip: ui_ip, port: ui_port },
                tls,
                rdp: RdpConfig {
                    host,
                    port,
                    username,
                    password,
                    domain,
                    mode,
                    routing_token: None,
                    redirection_auth: None,
                    width,
                    height,
                },
            },
        )
    }

    /// The part of the configuration that any browser may see.
    pub fn public_config(&self) -> (public: PublicConfig)
        ensures
            public == public_part(*self),
    {
        PublicConfig { default_width: self.rdp.width, default_height: self.rdp.height }
    }
}

}
