//! How the gateway presents itself to an RDP server.
use crate::config::RdpConfig;
use crate::text;
use crate::text::same_text;
use ironrdp_pdu::rdp::capability_sets::{client_codecs_capabilities, BitmapCodecs};
use ironrdp_pdu::rdp::client_info::{PerformanceFlags, TimezoneInfo};
use vstd::prelude::*;

verus! {

/// The number of the enhanced keyboard with 101 or 102 keys.
pub const KEYBOARD_IBM_ENHANCED: u32 = 4;

/// The number of the bulk compression of RDP 6.1.
pub const COMPRESSION_RDP61: u8 = 3;

/// `ironrdp_pdu`'s list of bitmap codecs.
#[verifier::external_type_specification]
#[verifier::external_body]
pub struct ExBitmapCodecs(ironrdp_pdu::rdp::capability_sets::BitmapCodecs);

/// The identifiers of the codecs in a list, in order.
pub uninterp spec fn codec_ids(codecs: BitmapCodecs) -> Seq<u8>;

/// RemoteFX and nothing else.
pub open spec fn only_remotefx(names: Seq<&str>) -> bool {
    forall|i: int| 0 <= i < names.len() ==> (#[trigger] names[i])@ == "remotefx"@
}

/// `client_codecs_capabilities`, in a build without its QOI features: asked for
/// RemoteFX and for nothing else, it gives the list of that one codec, whose
/// identifier is 3. Nothing is said of other requests.
pub assume_specification[ client_codecs_capabilities ](names: &[&str]) -> (result: Result<
    BitmapCodecs,
    String,
>)
    ensures
        only_remotefx(names@) ==> result is Ok && codec_ids(result->Ok_0) == seq![3u8],
;

/// Calls `PerformanceFlags::default` and gives its bits: no full-window drag, no
/// menu animations, font smoothing.
#[verifier::external_body]
fn default_performance_flags() -> (bits: u32)
    ensures
        bits == 0x86,
{
    PerformanceFlags::default().bits()
}

/// The moment of the year at which a time zone changes its offset.
#[derive(Debug)]
pub struct TransitionDate {
    pub month: u16,
    pub day_of_week: u16,
    pub day: u16,
    pub hour: u16,
    pub minute: u16,
    pub second: u16,
    pub milliseconds: u16,
}

/// A time zone: the offsets are in minutes.
#[derive(Debug)]
pub struct TimeZone {
    pub bias: i32,
    pub standard_name: String,
    pub standard_date: Option<TransitionDate>,
    pub standard_bias: i32,
    pub daylight_name: String,
    pub daylight_date: Option<TransitionDate>,
    pub daylight_bias: i32,
}

/// Universal time, under no name and without daylight saving.
pub open spec fn is_universal_time(zone: TimeZone) -> bool {
    &&& zone.bias == 0
    &&& zone.standard_name@.len() == 0
    &&& zone.standard_date is None
    &&& zone.standard_bias == 0
    &&& zone.daylight_name@.len() == 0
    &&& zone.daylight_date is None
    &&& zone.daylight_bias == 0
}

/// Calls `TimezoneInfo::default`: the names are empty, the offsets 0, and there
/// are no dates.
#[verifier::external_body]
fn default_time_zone() -> (zone: TimeZone)
    ensures
        is_universal_time(zone),
{
    let info = TimezoneInfo::default();
    let [standard_date, daylight_date] = [info.standard_date, info.daylight_date].map(|date| date.0.map(|at| {
        let (month, day_of_week, day) = (at.month as u16, at.day_of_week as u16, at.day as u16);
        let (hour, minute, second, milliseconds) = (at.hour, at.minute, at.second, at.milliseconds);
        TransitionDate { month, day_of_week, day, hour, minute, second, milliseconds }
    }));
    let (bias, standard_bias, daylight_bias) = (info.bias, info.standard_bias, info.daylight_bias);
    let (standard_name, daylight_name) = (info.standard_name, info.daylight_name);
    TimeZone { bias, standard_name, standard_date, standard_bias, daylight_name, daylight_date, daylight_bias }
}

/// The platform that the client says it runs on.
#[derive(Debug, Clone, Copy, PartialEq, Eq, Structural)]
pub enum Platform {
    Windows,
    Macintosh,
    Ios,
    Unix,
    Android,
}

/// The platform of an operating system, by its name; nothing if the gateway does
/// not run there.
pub open spec fn platform_of(os: Seq<char>) -> Option<Platform> {
    if os == "windows"@ {
        Some(Platform::Windows)
    } else if os == "macos"@ {
        Some(Platform::Macintosh)
    } else if os == "ios"@ {
        Some(Platform::Ios)
    } else if os == "android"@ {
        Some(Platform::Android)
    } else if os == "linux"@ || os == "freebsd"@ || os == "dragonfly"@ || os == "openbsd"@ || os
        == "netbsd"@ {
        Some(Platform::Unix)
    } else {
        None
    }
}

/// The platform to name to the server on an operating system.
pub fn platform_for_os(os: &str) -> (platform: Option<Platform>)
    ensures
        platform == platform_of(os@),
{
    if same_text(os, "windows") {
        Some(Platform::Windows)
    } else if same_text(os, "macos") {
        Some(Platform::Macintosh)
    } else if same_text(os, "ios") {
        Some(Platform::Ios)
    } else if same_text(os, "android") {
        Some(Platform::Android)
    } else if same_text(os, "linux") || same_text(os, "freebsd") || same_text(os, "dragonfly")
        || same_text(os, "openbsd") || same_text(os, "netbsd") {
        Some(Platform::Unix)
    } else {
        None
    }
}

/// What the client tells the server of itself, and how it logs in.
#[derive(Debug)]
pub struct ConnectorConfig {
    pub username: String,
    pub password: String,
    pub domain: Option<String>,
    pub enable_tls: bool,
    pub enable_credssp: bool,
    pub keyboard_type: u32,
    pub keyboard_subtype: u32,
    pub keyboard_layout: u32,
    pub keyboard_functional_keys_count: u32,
    pub ime_file_name: String,
    pub dig_product_id: String,
    pub desktop_width: u16,
    pub desktop_height: u16,
    pub lossy_compression: bool,
    pub color_depth: u32,
    pub codecs: BitmapCodecs,
    pub client_build: u32,
    pub client_name: String,
    pub client_dir: String,
    pub platform: Platform,
    pub enable_server_pointer: bool,
    pub request_data: Option<String>,
    pub autologon: bool,
    pub enable_audio_playback: bool,
    pub compression_type: Option<u8>,
    pub pointer_software_rendering: bool,
    pub multitransport_flags: Option<u32>,
    pub performance_flags: u32,
    pub desktop_scale_factor: u32,
    pub hardware_id: Option<[u32; 4]>,
    /// Whether licenses are kept for later sessions.
    pub keep_licenses: bool,
    pub time_zone: TimeZone,
    pub alternate_shell: String,
    pub work_dir: String,
}

/// The login and the desktop size are those of the configuration.
pub open spec fn logs_in_as(connector: ConnectorConfig, config: RdpConfig) -> bool {
    &&& connector.username@ == config.username@
    &&& connector.password@ == config.password@
    &&& text::optional(connector.domain) == text::optional(config.domain)
    &&& connector.desktop_width == config.width
    &&& connector.desktop_height == config.height
}

/// What every session has in common: network level authentication, 32-bit
/// lossless bitmaps with RemoteFX, universal time, no sound, no automatic logon,
/// no license kept.
pub open spec fn common_settings(connector: ConnectorConfig) -> bool {
    &&& !connector.enable_tls
    &&& connector.enable_credssp
    &&& connector.keyboard_type == KEYBOARD_IBM_ENHANCED
    &&& connector.keyboard_subtype == 0
    &&& connector.keyboard_layout == 0
    &&& connector.keyboard_functional_keys_count == 12
    &&& connector.ime_file_name@.len() == 0
    &&& connector.dig_product_id@.len() == 0
    &&& !connector.lossy_compression
    &&& connector.color_depth == 32
    &&& codec_ids(connector.codecs) == seq![3u8]
    &&& connector.client_build == 0
    &&& connector.client_name@ == "rdp2web"@
    &&& connector.client_dir@ == "C:\\Windows\\System32\\mstscax.dll"@
    &&& connector.enable_server_pointer
    &&& connector.request_data is None
    &&& !connector.autologon
    &&& !connector.enable_audio_playback
    &&& connector.compression_type == Some(COMPRESSION_RDP61)
    &&& !connector.pointer_software_rendering
    &&& connector.multitransport_flags is None
    &&& connector.performance_flags == 0x86
    &&& connector.desktop_scale_factor == 0
    &&& connector.hardware_id is None
    &&& !connector.keep_licenses
    &&& is_universal_time(connector.time_zone)
    &&& connector.alternate_shell@.len() == 0
    &&& connector.work_dir@.len() == 0
}

/// The connector settings for a configuration, on the operating system with the
/// given name. There are some exactly if the gateway runs there.
pub fn build_connector_config(config: &RdpConfig, os: &str) -> (result: Result<
    ConnectorConfig,
    String,
>)
    ensures
        match result {
            Ok(connector) => {
                &&& logs_in_as(connector, *config)
                &&& platform_of(os@) == Some(connector.platform)
                &&& common_settings(connector)
            },
            Err(message) => {
                &&& platform_of(os@) is None
                &&& message@ == "the gateway does not run on "@ + os@
            },
        },
{
    let platform = match platform_for_os(os) {
        Some(platform) => platform,
        None => {
            return Err("the gateway does not run on ".to_owned().concat(os));
        },
    };
    let wanted: [&str; 1] = ["remotefx"];
    let codecs = client_codecs_capabilities(&wanted)?;
    Ok(
        ConnectorConfig {
            username: config.username.clone(),
            password: config.password.clone(),
            domain: match &config.domain {
                Some(domain) => Some(domain.clone()),
                None => None,
            },
            enable_tls: false,
            enable_credssp: true,
            keyboard_type: KEYBOARD_IBM_ENHANCED,
            keyboard_subtype: 0,
            keyboard_layout: 0,
            keyboard_functional_keys_count: 12,
            ime_file_name: String::new(),
            dig_product_id: String::new(),
            desktop_width: config.width,
            desktop_height: config.height,
            lossy_compression: false,
            color_depth: 32,
            codecs,
            client_build: 0,
            client_name: "rdp2web".to_owned(),
            client_dir: "C:\\Windows\\System32\\mstscax.dll".to_owned(),
            platform,
            enable_server_pointer: true,
            request_data: None,
            autologon: false,
            enable_audio_playback: false,
            compression_type: Some(COMPRESSION_RDP61),
            pointer_software_rendering: false,
            multitransport_flags: None,
            performance_flags: default_performance_flags(),
            desktop_scale_factor: 0,
            hardware_id: None,
            keep_licenses: false,
            time_zone: default_time_zone(),
            alternate_shell: String::new(),
            work_dir: String::new(),
        },
    )
}

/// A session is opened with the login and the desktop size of the configuration,
/// whatever they are.
pub proof fn law_login_is_the_configured_one(connector: ConnectorConfig, config: RdpConfig)
    requires
        logs_in_as(connector, config),
    ensures
        connector.username@ == config.username@,
        connector.password@ == config.password@,
        connector.domain is Some == config.domain is Some,
        connector.domain is Some ==> connector.domain->Some_0@ == config.domain->Some_0@,
        connector.desktop_width == config.width,
        connector.desktop_height == config.height,
{
}

/// Two configurations that the server is told the same of have the same login and
/// the same desktop size.
pub proof fn law_logins_are_told_apart(connector: ConnectorConfig, one: RdpConfig, other: RdpConfig)
    requires
        logs_in_as(connector, one),
        logs_in_as(connector, other),
    ensures
        one.username@ == other.username@,
        one.password@ == other.password@,
        one.domain is Some == other.domain is Some,
        one.domain is Some ==> one.domain->Some_0@ == other.domain->Some_0@,
        one.width == other.width,
        one.height == other.height,
{
}

/// What every session is opened with: network level authentication and not plain
/// TLS, an enhanced keyboard with twelve function keys, 32-bit bitmaps that lose
/// nothing, RemoteFX alone, the pointer drawn by the server, the bulk compression
/// of RDP 6.1, universal time, and nothing else.
pub proof fn law_every_session_has_the_same_settings(connector: ConnectorConfig)
    requires
        common_settings(connector),
    ensures
        connector.enable_credssp && !connector.enable_tls,
        connector.keyboard_type == 4,
        connector.keyboard_subtype == 0 && connector.keyboard_layout == 0,
        connector.keyboard_functional_keys_count == 12,
        connector.ime_file_name@.len() == 0 && connector.dig_product_id@.len() == 0,
        connector.color_depth == 32 && !connector.lossy_compression,
        codec_ids(connector.codecs).len() == 1 && codec_ids(connector.codecs)[0] == 3,
        connector.client_build == 0,
        connector.client_name@ == "rdp2web"@,
        connector.client_dir@ == "C:\\Windows\\System32\\mstscax.dll"@,
        connector.enable_server_pointer && !connector.pointer_software_rendering,
        connector.request_data is None && connector.multitransport_flags is None,
        connector.hardware_id is None && !connector.keep_licenses,
        !connector.autologon && !connector.enable_audio_playback,
        connector.compression_type == Some(3u8),
        connector.performance_flags == 0x02 + 0x04 + 0x80,
        connector.desktop_scale_factor == 0,
        connector.time_zone.bias == 0 && connector.time_zone.standard_bias == 0
            && connector.time_zone.daylight_bias == 0,
        connector.time_zone.standard_date is None && connector.time_zone.daylight_date is None,
        connector.time_zone.standard_name@.len() == 0 && connector.time_zone.daylight_name@.len()
            == 0,
        connector.alternate_shell@.len() == 0 && connector.work_dir@.len() == 0,
{
}

/// Every Unix has the same platform, and no other system shares one.
pub proof fn law_platforms(os: Seq<char>)
    ensures
        platform_of(os) == Some(Platform::Windows) <==> os == "windows"@,
        platform_of(os) == Some(Platform::Macintosh) <==> os == "macos"@,
        platform_of(os) == Some(Platform::Ios) <==> os == "ios"@,
        platform_of(os) == Some(Platform::Android) <==> os == "android"@,
        platform_of(os) == Some(Platform::Unix) <==> (os == "linux"@ || os == "freebsd"@ || os
            == "dragonfly"@ || os == "openbsd"@ || os == "netbsd"@),
{
    reveal_strlit("windows");
    reveal_strlit("macos");
    reveal_strlit("ios");
    reveal_strlit("android");
    reveal_strlit("linux");
    reveal_strlit("freebsd");
    reveal_strlit("dragonfly");
    reveal_strlit("openbsd");
    reveal_strlit("netbsd");
    assert("windows"@.len() == 7 && "macos"@.len() == 5 && "ios"@.len() == 3 && "android"@.len() == 7
        && "linux"@.len() == 5 && "freebsd"@.len() == 7 && "dragonfly"@.len() == 9
        && "openbsd"@.len() == 7 && "netbsd"@.len() == 6);
    assert("windows"@[0] == 'w' && "android"@[0] == 'a' && "freebsd"@[0] == 'f' && "openbsd"@[0]
        == 'o' && "macos"@[0] == 'm' && "linux"@[0] == 'l');
}

}
