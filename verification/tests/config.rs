use rdp2web::config::{
    dotenv_path, env_var, optional_u16_env, rdp_mode_from_env, rdp_mode_from_value,
    tls_config_from_env, ui_host, AppConfig, ConfigError, EnvValue, Environment, IpAddress,
    RdpConfig, RdpMode, RdpRedirectionAuth, Setting, SocketAddress, TlsConfig,
};
use rdp2web::text::{
    is_blank, is_white_space, parse_u16, same_text, trimmed_lowercase, NumberError,
};

fn set(text: &str) -> EnvValue {
    EnvValue::Text(text.to_owned())
}

fn not_unicode() -> EnvValue {
    EnvValue::NotUnicode("\"\\xFF\"".to_owned())
}

fn minimal() -> Environment {
    Environment {
        rdp_host: set("127.0.0.1"),
        rdp_port: set("3389"),
        rdp_user: set("user"),
        rdp_password: set("secret"),
        rdp_domain: EnvValue::Missing,
        rdp_mode: EnvValue::Missing,
        rdp_width: EnvValue::Missing,
        rdp_height: EnvValue::Missing,
        ui_port: EnvValue::Missing,
        ui_tls_cert: set("test.crt"),
        ui_tls_key: set("test.key"),
        ui_ip: None,
        default_cert_exists: false,
        default_key_exists: false,
    }
}

fn message(env: &Environment) -> String {
    AppConfig::from_env(env).unwrap_err().message()
}

#[test]
fn public_config_excludes_credentials() {
    let config = AppConfig {
        ui_bind: SocketAddress {
            ip: IpAddress::V4([0, 0, 0, 0]),
            port: 8081,
        },
        tls: TlsConfig {
            cert_path: "test.crt".to_owned(),
            key_path: "test.key".to_owned(),
        },
        rdp: RdpConfig {
            host: "127.0.0.1".to_owned(),
            port: 3389,
            username: "user".to_owned(),
            password: "secret".to_owned(),
            domain: None,
            mode: RdpMode::Shared,
            routing_token: None,
            redirection_auth: None,
            width: 1280,
            height: 720,
        },
    };

    let public = config.public_config();
    let mut object = serde_json::Map::new();
    object.insert(
        "default_width".to_owned(),
        serde_json::Value::from(public.default_width),
    );
    object.insert(
        "default_height".to_owned(),
        serde_json::Value::from(public.default_height),
    );
    let json = serde_json::to_string(&object).unwrap();
    assert_eq!((public.default_width, public.default_height), (1280, 720));
    assert!(!json.contains("127.0.0.1"));
    assert!(!json.contains("user"));
    assert!(!json.contains("secret"));
}

#[test]
fn missing_mode_defaults_to_shared_mode() {
    assert_eq!(rdp_mode_from_value(None).unwrap(), RdpMode::Shared);
}

#[test]
fn empty_mode_defaults_to_shared_mode() {
    assert_eq!(rdp_mode_from_value(Some("")).unwrap(), RdpMode::Shared);
}

#[test]
fn parses_remote_login_mode_alias() {
    assert_eq!(RdpMode::parse("remote-login").unwrap(), RdpMode::Session);
}

#[test]
fn every_mode_name_is_known_in_any_case_and_with_white_space() {
    for name in [
        "shared",
        "share",
        "screen-share",
        "screen-sharing",
        "remote-assistance",
        "assistance",
        "  Shared\t",
        "SCREEN-SHARE",
    ] {
        assert_eq!(RdpMode::parse(name).unwrap(), RdpMode::Shared, "{name}");
    }
    for name in ["session", "login", "headless", "Remote-LOGIN\u{a0}"] {
        assert_eq!(RdpMode::parse(name).unwrap(), RdpMode::Session, "{name}");
    }
    assert_eq!(rdp_mode_from_value(Some(" \n")).unwrap(), RdpMode::Shared);
}

#[test]
fn an_unknown_mode_is_quoted() {
    let error = RdpMode::parse(" Foo\"Bar ").unwrap_err();
    assert_eq!(
        error.message(),
        "RDP_MODE must be shared or session; got \"foo\\\"bar\""
    );
    assert!(matches!(error, ConfigError::InvalidMode(mode) if mode == "foo\"bar"));
    assert!(RdpMode::parse("").is_err());
}

#[test]
fn an_unreadable_mode_is_an_error() {
    assert_eq!(
        rdp_mode_from_env(&not_unicode())
            .unwrap_err()
            .message(),
        "read RDP_MODE"
    );
    assert_eq!(
        rdp_mode_from_env(&EnvValue::Missing).unwrap(),
        RdpMode::Shared
    );
    assert_eq!(
        rdp_mode_from_env(&set("login")).unwrap(),
        RdpMode::Session
    );
}

#[test]
fn defaults_are_used_where_nothing_is_set() {
    let config = AppConfig::from_env(&minimal()).unwrap();
    assert_eq!(config.rdp.host, "127.0.0.1");
    assert_eq!(config.rdp.port, 3389);
    assert_eq!(config.rdp.username, "user");
    assert_eq!(config.rdp.password, "secret");
    assert_eq!(config.rdp.domain, None);
    assert_eq!(config.rdp.mode, RdpMode::Shared);
    assert_eq!((config.rdp.width, config.rdp.height), (1280, 720));
    assert_eq!(config.ui_bind.port, 8081);
    assert_eq!(config.ui_bind.ip, IpAddress::V4([0, 0, 0, 0]));
    assert_eq!(config.tls.cert_path, "test.crt");
    assert_eq!(config.tls.key_path, "test.key");
    assert!(config.rdp.routing_token.is_none());
    assert!(config.rdp.redirection_auth.is_none());
}

#[test]
fn every_setting_is_used() {
    let mut env = minimal();
    env.rdp_domain = set("CORP");
    env.rdp_mode = set("session");
    env.rdp_width = set("1920");
    env.rdp_height = set("1080");
    env.ui_port = set("443");
    env.ui_ip = Some(IpAddress::V6([1; 16]));
    let config = AppConfig::from_env(&env).unwrap();
    assert_eq!(config.rdp.domain.as_deref(), Some("CORP"));
    assert_eq!(config.rdp.mode, RdpMode::Session);
    assert_eq!((config.rdp.width, config.rdp.height), (1920, 1080));
    assert_eq!(config.ui_bind.port, 443);
    assert_eq!(config.ui_bind.ip, IpAddress::V6([1; 16]));
    env.rdp_domain = set("");
    assert_eq!(AppConfig::from_env(&env).unwrap().rdp.domain, None);
}

#[test]
fn each_bad_setting_has_its_message() {
    let mut env = minimal();
    env.rdp_host = EnvValue::Missing;
    assert_eq!(message(&env), "RDP_HOST is required");
    let mut env = minimal();
    env.rdp_user = set("  ");
    assert_eq!(message(&env), "RDP_USER must not be empty");
    let mut env = minimal();
    env.rdp_password = not_unicode();
    assert_eq!(message(&env), "RDP_PASSWORD is required");
    let mut env = minimal();
    env.rdp_port = set("65536");
    assert_eq!(message(&env), "RDP_PORT must be a u16");
    let mut env = minimal();
    env.rdp_width = not_unicode();
    assert_eq!(message(&env), "read RDP_WIDTH");
    let mut env = minimal();
    env.rdp_height = set("72o");
    assert_eq!(message(&env), "RDP_HEIGHT must be a u16");
    let mut env = minimal();
    env.rdp_width = set("199");
    assert_eq!(
        message(&env),
        "RDP_WIDTH and RDP_HEIGHT must be at least 200"
    );
    let mut env = minimal();
    env.ui_port = set("");
    assert_eq!(message(&env), "UI_PORT must be a u16");
    let mut env = minimal();
    env.rdp_mode = set("x");
    assert_eq!(
        message(&env),
        "RDP_MODE must be shared or session; got \"x\""
    );
}

#[test]
fn the_first_bad_setting_is_reported() {
    let mut env = minimal();
    env.rdp_host = EnvValue::Missing;
    env.rdp_height = set("no");
    env.ui_tls_key = EnvValue::Missing;
    assert_eq!(message(&env), "RDP_HEIGHT must be a u16");
    env.rdp_height = EnvValue::Missing;
    assert_eq!(message(&env), "RDP_HOST is required");
    env.rdp_host = set("h");
    assert_eq!(
        message(&env),
        "UI_TLS_KEY is required when UI_TLS_CERT is set"
    );
}

#[test]
fn certificate_and_key_come_together() {
    let tls = tls_config_from_env(&EnvValue::Missing, &set(" "), true, true).unwrap();
    assert_eq!(tls.cert_path, "certs/rdp2web.crt");
    assert_eq!(tls.key_path, "certs/rdp2web.key");
    assert_eq!(
        tls_config_from_env(&EnvValue::Missing, &set("k"), true, true)
            .unwrap_err()
            .message(),
        "UI_TLS_CERT is required when UI_TLS_KEY is set"
    );
    assert_eq!(
        tls_config_from_env(&set("c"), &not_unicode(), true, true)
            .unwrap_err()
            .message(),
        "UI_TLS_KEY is required when UI_TLS_CERT is set"
    );
    assert_eq!(
        tls_config_from_env(&EnvValue::Missing, &EnvValue::Missing, true, false)
            .unwrap_err()
            .message(),
        "UI TLS certificate is required; set UI_TLS_CERT/UI_TLS_KEY or create certs/rdp2web.crt and certs/rdp2web.key"
    );
}

#[test]
fn paths_and_hosts_have_defaults() {
    assert_eq!(dotenv_path(&EnvValue::Missing), ".env");
    assert_eq!(dotenv_path(&set("\t")), ".env");
    assert_eq!(dotenv_path(&set("my.env")), "my.env");
    assert_eq!(ui_host(&not_unicode()), "0.0.0.0");
    assert_eq!(ui_host(&set("")), "");
    assert_eq!(ui_host(&set("::1")), "::1");
}

#[test]
fn single_values_are_read() {
    assert_eq!(env_var(Setting::RdpHost, &set(" h ")).unwrap(), " h ");
    assert!(matches!(
        env_var(Setting::RdpHost, &set("")),
        Err(ConfigError::Empty(Setting::RdpHost))
    ));
    assert_eq!(
        optional_u16_env(Setting::RdpWidth, &set("+640")).unwrap(),
        Some(640)
    );
    assert_eq!(
        optional_u16_env(Setting::RdpWidth, &set(" ")).unwrap(),
        None
    );
    assert!(matches!(
        optional_u16_env(Setting::RdpWidth, &set(" 640")),
        Err(ConfigError::NotU16(
            Setting::RdpWidth,
            NumberError::InvalidDigit
        ))
    ));
    assert_eq!(Setting::UiPort.key(), "UI_PORT");
}

#[test]
fn a_copy_of_a_configuration_holds_the_same() {
    let mut config = AppConfig::from_env(&minimal()).unwrap();
    config.rdp.routing_token = Some("token".to_owned());
    config.rdp.redirection_auth = Some(RdpRedirectionAuth {
        flags: 7,
        username: Some("other".to_owned()),
        domain: None,
        password: Some(vec![1, 2]),
        redirection_guid: None,
    });
    let copy = config.rdp.clone();
    assert_eq!(format!("{copy:?}"), format!("{:?}", config.rdp));
}

#[test]
fn white_space_is_unicode_white_space() {
    for ch in '\0'..=char::MAX {
        assert_eq!(is_white_space(ch), ch.is_whitespace(), "{:x}", ch as u32);
    }
    assert!(is_blank(""));
    assert!(is_blank(" \u{2003}"));
    assert!(!is_blank(" a"));
}

#[test]
fn numbers_are_read_as_the_standard_library_reads_them() {
    for text in [
        "", "+", "-", "0", "+0", "-0", "00012", "65535", "65536", "99999999999999999999", "1 ", " 1",
        "1_0", "0x1", "99999x", "6553x", "000000000065535", "000000000065536", "\u{662}", "++1", "1+", "4294967297",
    ] {
        let expected = text.parse::<u16>().map_err(|error| error.to_string());
        let found = parse_u16(text).map_err(|error| error.message().to_owned());
        assert_eq!(found, expected, "{text:?}");
    }
}

#[test]
fn words_are_trimmed_and_lowered_as_the_standard_library_does() {
    for text in ["", "  ", "\u{3000}Ab C\u{85}", "ÄÖ X", "MiXeD", " [Z]@ "] {
        assert_eq!(
            trimmed_lowercase(text),
            text.trim().to_ascii_lowercase(),
            "{text:?}"
        );
        assert_eq!(is_blank(text), text.trim().is_empty(), "{text:?}");
    }
    assert!(same_text("é", "é"));
    assert!(!same_text("é", "e"));
    assert!(!same_text("ab", "abc"));
}

fn cause(env: &Environment) -> Option<String> {
    AppConfig::from_env(env).unwrap_err().cause()
}

#[test]
fn errors_keep_their_cause() {
    let mut env = minimal();
    env.rdp_host = EnvValue::Missing;
    assert_eq!(
        cause(&env).as_deref(),
        Some("environment variable not found")
    );
    env.rdp_host = not_unicode();
    assert_eq!(
        cause(&env).as_deref(),
        Some("environment variable was not valid unicode: \"\\xFF\"")
    );
    let mut env = minimal();
    env.rdp_mode = not_unicode();
    assert_eq!(
        cause(&env).as_deref(),
        Some("environment variable was not valid unicode: \"\\xFF\"")
    );
    let mut env = minimal();
    env.rdp_port = set("65536");
    assert_eq!(
        cause(&env).as_deref(),
        Some("number too large to fit in target type")
    );
    env.rdp_port = set("x");
    assert_eq!(
        cause(&env).as_deref(),
        Some("invalid digit found in string")
    );
    let mut env = minimal();
    env.ui_port = set("");
    assert_eq!(
        cause(&env).as_deref(),
        Some("cannot parse integer from empty string")
    );
    let mut env = minimal();
    env.rdp_user = set("");
    assert_eq!(cause(&env), None);
}
