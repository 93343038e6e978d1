//! What holds of every configuration and of every text in it.
use crate::config;
use crate::config::{
    AppConfig, ConfigErrorView, EnvValue, Environment, IpAddress, RdpMode, Setting,
    VariableErrorView,
};
use crate::text;
use crate::text::NumberError;
use vstd::prelude::*;

verus! {

proof fn lemma_trim_start_parts(value: Seq<char>)
    ensures
        text::blank(value) ==> text::trim_start(value).len() == 0,
        !text::blank(value) ==> {
            &&& text::trim_start(value).len() > 0
            &&& !text::white_space(text::trim_start(value)[0])
        },
    decreases value.len(),
{
    if value.len() > 0 && text::white_space(value[0]) {
        let rest = value.drop_first();
        lemma_trim_start_parts(rest);
        if text::blank(rest) {
            assert forall|i: int| 0 <= i < value.len() implies text::white_space(
                #[trigger] value[i],
            ) by {
                if i > 0 {
                    assert(value[i] == rest[i - 1]);
                }
            }
        } else {
            let i = choose|i: int| 0 <= i < rest.len() && !text::white_space(#[trigger] rest[i]);
            assert(!text::white_space(value[i + 1]));
        }
    } else if value.len() > 0 {
        assert(!text::white_space(value[0]));
    }
}

proof fn lemma_trim_end_keeps(value: Seq<char>)
    requires
        value.len() > 0,
        !text::white_space(value[0]),
    ensures
        text::trim_end(value).len() > 0,
    decreases value.len(),
{
    if text::white_space(value.last()) {
        lemma_trim_end_keeps(value.drop_last());
    }
}

/// A text is blank exactly if nothing is left of it once it is trimmed.
pub proof fn law_blank_is_trimmed_to_nothing(value: Seq<char>)
    ensures
        text::blank(value) == (text::trim(value).len() == 0),
{
    lemma_trim_start_parts(value);
    if !text::blank(value) {
        lemma_trim_end_keeps(text::trim_start(value));
    }
}

proof fn lemma_lower_char(ch: char)
    ensures
        text::white_space(text::ascii_lower(ch)) == text::white_space(ch),
        text::ascii_lower(text::ascii_lower(ch)) == text::ascii_lower(ch),
{
}

proof fn lemma_lower_trim_start(value: Seq<char>)
    ensures
        text::trim_start(text::lower(value)) == text::lower(text::trim_start(value)),
    decreases value.len(),
{
    if value.len() > 0 {
        lemma_lower_char(value[0]);
        if text::white_space(value[0]) {
            lemma_lower_trim_start(value.drop_first());
            assert(text::lower(value).drop_first() =~= text::lower(value.drop_first()));
        }
    }
}

proof fn lemma_lower_trim_end(value: Seq<char>)
    ensures
        text::trim_end(text::lower(value)) == text::lower(text::trim_end(value)),
    decreases value.len(),
{
    if value.len() > 0 {
        lemma_lower_char(value.last());
        if text::white_space(value.last()) {
            lemma_lower_trim_end(value.drop_last());
            assert(text::lower(value).drop_last() =~= text::lower(value.drop_last()));
        }
    }
}

/// The case of ASCII letters does not matter in a mode's name.
pub proof fn law_mode_ignores_case(value: Seq<char>)
    ensures
        config::mode_of_text(text::lower(value)) == config::mode_of_text(value),
{
    lemma_lower_trim_start(value);
    lemma_lower_trim_end(text::trim_start(value));
    let word = text::trim(value);
    assert forall|i: int| 0 <= i < word.len() implies text::lower(text::lower(word))[i]
        == #[trigger] text::lower(word)[i] by {
        lemma_lower_char(word[i]);
    }
    assert(text::lower(text::lower(word)) =~= text::lower(word));
}

proof fn lemma_trim_start_skips(pad: Seq<char>, value: Seq<char>)
    requires
        text::blank(pad),
    ensures
        text::trim_start(pad + value) == text::trim_start(value),
    decreases pad.len(),
{
    if pad.len() == 0 {
        assert(pad + value =~= value);
    } else {
        let rest = pad.drop_first();
        assert(text::white_space(pad[0]));
        assert forall|i: int| 0 <= i < rest.len() implies text::white_space(#[trigger] rest[i]) by {
            assert(rest[i] == pad[i + 1]);
        }
        lemma_trim_start_skips(rest, value);
        assert((pad + value).drop_first() =~= rest + value);
    }
}

proof fn lemma_trim_end_skips(value: Seq<char>, pad: Seq<char>)
    requires
        text::blank(pad),
    ensures
        text::trim_end(value + pad) == text::trim_end(value),
    decreases pad.len(),
{
    if pad.len() == 0 {
        assert(value + pad =~= value);
    } else {
        let rest = pad.drop_last();
        assert(text::white_space(pad[pad.len() - 1]));
        assert forall|i: int| 0 <= i < rest.len() implies text::white_space(#[trigger] rest[i]) by {
            assert(rest[i] == pad[i]);
        }
        lemma_trim_end_skips(value, rest);
        assert((value + pad).drop_last() =~= value + rest);
    }
}

proof fn lemma_trim_start_before(value: Seq<char>, pad: Seq<char>)
    requires
        !text::blank(value),
    ensures
        text::trim_start(value + pad) == text::trim_start(value) + pad,
    decreases value.len(),
{
    if text::white_space(value[0]) {
        let rest = value.drop_first();
        let i = choose|i: int| 0 <= i < value.len() && !text::white_space(#[trigger] value[i]);
        assert(!text::white_space(rest[i - 1]));
        lemma_trim_start_before(rest, pad);
        assert((value + pad).drop_first() =~= rest + pad);
    }
}

proof fn lemma_blank_joined(a: Seq<char>, b: Seq<char>)
    requires
        text::blank(a),
        text::blank(b),
    ensures
        text::blank(a + b),
{
    assert forall|i: int| 0 <= i < (a + b).len() implies text::white_space(
        #[trigger] (a + b)[i],
    ) by {
        if i < a.len() {
            assert(text::white_space(a[i]));
        } else {
            assert(text::white_space(b[i - a.len()]));
        }
    }
}

/// White space around a mode's name does not matter.
pub proof fn law_mode_ignores_white_space(before: Seq<char>, value: Seq<char>, behind: Seq<char>)
    requires
        text::blank(before),
        text::blank(behind),
    ensures
        config::mode_of_text(before + value + behind) == config::mode_of_text(value),
{
    assert(before + value + behind =~= before + (value + behind));
    lemma_trim_start_skips(before, value + behind);
    if text::blank(value) {
        lemma_blank_joined(value, behind);
        law_blank_is_trimmed_to_nothing(value);
        law_blank_is_trimmed_to_nothing(value + behind);
        assert(text::trim(value + behind) =~= text::trim(value));
    } else {
        lemma_trim_start_before(value, behind);
        lemma_trim_end_skips(text::trim_start(value), behind);
    }
}

/// A browser sees nothing of the endpoint and the credentials: configurations
/// of the same desktop size look the same to it, whatever else they hold.
pub proof fn law_public_config_hides_the_rest(one: AppConfig, other: AppConfig)
    requires
        one.rdp.width == other.rdp.width,
        one.rdp.height == other.rdp.height,
    ensures
        config::public_part(one) == config::public_part(other),
{
}

/// What is used where nothing is set: an environment that gives the endpoint,
/// the credentials and a certificate, and nothing else, asks for a shared
/// desktop of 1280 by 720 without a domain, served at port 8081.
pub proof fn law_defaults(env: Environment, app: AppConfig)
    requires
        config::filled(env.rdp_host) is Some,
        config::filled(env.rdp_user) is Some,
        config::filled(env.rdp_password) is Some,
        config::filled(env.rdp_port) matches Some(port) && text::u16_of(port) is Some,
        env.rdp_domain is Missing,
        env.rdp_mode is Missing,
        env.rdp_width is Missing,
        env.rdp_height is Missing,
        env.ui_port is Missing,
        (config::filled(env.ui_tls_cert) is Some && config::filled(env.ui_tls_key) is Some) || (
        config::filled(env.ui_tls_cert) is None && config::filled(env.ui_tls_key) is None
            && env.default_cert_exists && env.default_key_exists),
    ensures
        config::config_error(env) is None,
        config::configures(env, app) ==> {
            &&& app.rdp.width == 1280
            &&& app.rdp.height == 720
            &&& app.rdp.mode == RdpMode::Shared
            &&& app.rdp.domain is None
            &&& app.ui_bind.port == 8081
        },
{
    text::law_numbers_are_decimal(config::filled(env.rdp_port)->Some_0);
}

/// The certificate and the key are set together or not at all.
pub proof fn law_half_a_certificate_is_refused(env: Environment)
    requires
        config::filled(env.ui_tls_cert) is Some != config::filled(env.ui_tls_key) is Some,
    ensures
        config::config_error(env) is Some,
{
}

/// Each setting that must be there is asked for: without it there is no
/// configuration.
pub proof fn law_required_settings(env: Environment)
    requires
        config::config_error(env) is None,
    ensures
        config::filled(env.rdp_host) is Some,
        config::filled(env.rdp_port) is Some,
        config::filled(env.rdp_user) is Some,
        config::filled(env.rdp_password) is Some,
{
}

/// No configuration has a desktop that is narrower or lower than 200.
pub proof fn law_small_desktop_is_refused(env: Environment)
    requires
        config::desktop_width(env) < 200 || config::desktop_height(env) < 200,
    ensures
        config::config_error(env) is Some,
{
}

/// Trimming takes the white space around a text away and leaves the text.
pub proof fn law_trim_leaves_the_text(before: Seq<char>, value: Seq<char>, behind: Seq<char>)
    requires
        text::blank(before),
        text::blank(behind),
        value.len() > 0,
        !text::white_space(value[0]),
        !text::white_space(value[value.len() - 1]),
    ensures
        text::trim(before + value + behind) == value,
{
    assert(before + value + behind =~= before + (value + behind));
    lemma_trim_start_skips(before, value + behind);
    assert(!text::blank(value));
    lemma_trim_start_before(value, behind);
    lemma_trim_end_skips(text::trim_start(value), behind);
}

/// Which words name which mode; any other word is refused, and given back as it
/// was understood.
pub proof fn law_words_for_modes(value: Seq<char>)
    ensures
        ({
            let word = text::lower(text::trim(value));
            let shared = word == "shared"@ || word == "share"@ || word == "screen-share"@ || word
                == "screen-sharing"@ || word == "remote-assistance"@ || word == "assistance"@;
            let session = word == "session"@ || word == "login"@ || word == "remote-login"@ || word
                == "headless"@;
            &&& shared ==> config::mode_of_text(value) == Ok::<RdpMode, ConfigErrorView>(
                RdpMode::Shared,
            )
            &&& !shared && session ==> config::mode_of_text(value) == Ok::<
                RdpMode,
                ConfigErrorView,
            >(RdpMode::Session)
            &&& !shared && !session ==> config::mode_of_text(value) == Err::<
                RdpMode,
                ConfigErrorView,
            >(ConfigErrorView::InvalidMode(word))
        }),
{
}

/// The text of a variable, if it has one that is not blank.
pub open spec fn words(value: EnvValue) -> Option<Seq<char>> {
    if value is Text && !text::blank(value->Text_0@) {
        Some(value->Text_0@)
    } else {
        None
    }
}

/// Whether a side of the desktop is what its variable asks for: its number, or
/// `fallback` if the variable is missing or blank.
pub open spec fn side_is(value: EnvValue, side: u16, fallback: u16) -> bool {
    match words(value) {
        Some(number) => text::u16_of(number) == Some(side),
        None => side == fallback,
    }
}

/// Every setting ends up where it belongs: a configuration holds the host, the
/// port, the user, the password and the domain that are set, the size that is
/// asked for or 1280 by 720, the mode that is named or the shared one, the address
/// and port that the web server is given or the default ones, and the certificate
/// and key that are set or the default ones.
pub proof fn law_a_configuration_is_what_was_set(env: Environment, app: AppConfig)
    requires
        config::config_error(env) is None,
        config::configures(env, app),
    ensures
        words(env.rdp_host) == Some(app.rdp.host@),
        words(env.rdp_user) == Some(app.rdp.username@),
        words(env.rdp_password) == Some(app.rdp.password@),
        words(env.rdp_port) matches Some(port) && text::u16_of(port) == Some(app.rdp.port),
        env.rdp_domain is Text && env.rdp_domain->Text_0@.len() > 0 ==> app.rdp.domain is Some
            && app.rdp.domain->Some_0@ == env.rdp_domain->Text_0@,
        !(env.rdp_domain is Text && env.rdp_domain->Text_0@.len() > 0) ==> app.rdp.domain is None,
        env.rdp_mode !is NotUnicode,
        words(env.rdp_mode) is None ==> app.rdp.mode == RdpMode::Shared,
        words(env.rdp_mode) matches Some(mode) ==> config::mode_of_text(mode) == Ok::<
            RdpMode,
            ConfigErrorView,
        >(app.rdp.mode),
        side_is(env.rdp_width, app.rdp.width, 1280),
        side_is(env.rdp_height, app.rdp.height, 720),
        app.rdp.width >= 200,
        app.rdp.height >= 200,
        app.rdp.routing_token is None,
        app.rdp.redirection_auth is None,
        env.ui_port is Text ==> text::u16_of(env.ui_port->Text_0@) == Some(app.ui_bind.port),
        env.ui_port !is Text ==> app.ui_bind.port == 8081,
        env.ui_ip matches Some(ip) ==> app.ui_bind.ip == ip,
        env.ui_ip is None ==> app.ui_bind.ip == IpAddress::V4([0u8, 0u8, 0u8, 0u8]),
        words(env.ui_tls_cert) is Some == words(env.ui_tls_key) is Some,
        words(env.ui_tls_cert) matches Some(cert) ==> app.tls.cert_path@ == cert,
        words(env.ui_tls_key) matches Some(key) ==> app.tls.key_path@ == key,
        words(env.ui_tls_cert) is None ==> {
            &&& app.tls.cert_path@ == "certs/rdp2web.crt"@
            &&& app.tls.key_path@ == "certs/rdp2web.key"@
            &&& env.default_cert_exists
            &&& env.default_key_exists
        },
{
    text::law_numbers_are_decimal(env.rdp_port->Text_0@);
    text::law_numbers_are_decimal(env.rdp_width->Text_0@);
    text::law_numbers_are_decimal(env.rdp_height->Text_0@);
    text::law_numbers_are_decimal(env.ui_port->Text_0@);
}

/// Whether the variable that is read at a place, counted from 0, is good: width,
/// height, host, port, user, password, mode, the size as a whole, the web server's
/// port, and its certificate and key.
pub open spec fn good(env: Environment, place: int) -> bool {
    if place == 0 {
        good_side(env.rdp_width)
    } else if place == 1 {
        good_side(env.rdp_height)
    } else if place == 2 {
        words(env.rdp_host) is Some
    } else if place == 3 {
        words(env.rdp_port) matches Some(port) && text::u16_of(port) is Some
    } else if place == 4 {
        words(env.rdp_user) is Some
    } else if place == 5 {
        words(env.rdp_password) is Some
    } else if place == 6 {
        env.rdp_mode !is NotUnicode && (words(env.rdp_mode) matches Some(mode)
            ==> config::mode_of_text(mode) is Ok)
    } else if place == 7 {
        &&& words(env.rdp_width) matches Some(width) ==> text::u16_of(width)->Some_0 >= 200
        &&& words(env.rdp_height) matches Some(height) ==> text::u16_of(height)->Some_0 >= 200
    } else if place == 8 {
        env.ui_port is Text ==> text::u16_of(env.ui_port->Text_0@) is Some
    } else {
        if words(env.ui_tls_cert) is None && words(env.ui_tls_key) is None {
            env.default_cert_exists && env.default_key_exists
        } else {
            words(env.ui_tls_cert) is Some && words(env.ui_tls_key) is Some
        }
    }
}

/// A variable for a side of the desktop that is missing, blank or a number.
pub open spec fn good_side(value: EnvValue) -> bool {
    &&& value !is NotUnicode
    &&& words(value) matches Some(number) ==> text::u16_of(number) is Some
}

/// The place of a setting in the order in which they are read.
pub open spec fn place_of_setting(setting: Setting) -> int {
    match setting {
        Setting::RdpWidth => 0,
        Setting::RdpHeight => 1,
        Setting::RdpHost => 2,
        Setting::RdpPort => 3,
        Setting::RdpUser => 4,
        Setting::RdpPassword => 5,
        Setting::RdpMode => 6,
        Setting::UiPort => 8,
    }
}

/// The place that an error speaks of.
pub open spec fn place_of_error(error: ConfigErrorView) -> int {
    match error {
        ConfigErrorView::Required(setting, _) => place_of_setting(setting),
        ConfigErrorView::Empty(setting) => place_of_setting(setting),
        ConfigErrorView::NotU16(setting, _) => place_of_setting(setting),
        ConfigErrorView::Unreadable(setting, _) => place_of_setting(setting),
        ConfigErrorView::InvalidMode(_) => 6,
        ConfigErrorView::DesktopTooSmall => 7,
        ConfigErrorView::TlsKeyRequired => 9,
        ConfigErrorView::TlsCertRequired => 9,
        ConfigErrorView::TlsRequired => 9,
    }
}

/// A configuration is made exactly if every setting is good, and otherwise the
/// first that is not is the one that the error speaks of.
pub proof fn law_the_first_bad_setting_is_reported(env: Environment)
    ensures
        config::config_error(env) is None <==> forall|place: int|
            0 <= place <= 9 ==> #[trigger] good(env, place),
        config::config_error(env) matches Some(error) ==> {
            &&& 0 <= place_of_error(error) <= 9
            &&& !good(env, place_of_error(error))
            &&& forall|place: int|
                0 <= place < place_of_error(error) ==> #[trigger] good(env, place)
        },
{
    text::law_numbers_are_decimal(env.rdp_port->Text_0@);
    text::law_numbers_are_decimal(env.rdp_width->Text_0@);
    text::law_numbers_are_decimal(env.rdp_height->Text_0@);
    text::law_numbers_are_decimal(env.ui_port->Text_0@);
    if forall|place: int| 0 <= place <= 9 ==> #[trigger] good(env, place) {
        assert(good(env, 0) && good(env, 1) && good(env, 2) && good(env, 3) && good(env, 4) && good(
            env,
            5,
        ) && good(env, 6) && good(env, 7) && good(env, 8) && good(env, 9));
    }
}

/// The variable that a setting is read from.
pub open spec fn variable(env: Environment, setting: Setting) -> EnvValue {
    match setting {
        Setting::RdpWidth => env.rdp_width,
        Setting::RdpHeight => env.rdp_height,
        Setting::RdpHost => env.rdp_host,
        Setting::RdpPort => env.rdp_port,
        Setting::RdpUser => env.rdp_user,
        Setting::RdpPassword => env.rdp_password,
        Setting::RdpMode => env.rdp_mode,
        Setting::UiPort => env.ui_port,
    }
}

/// What each error says of its variable is so: one that is required has no text,
/// an empty one has a blank text, one that is no number has a text that spells
/// none, and one that is unreadable is no Unicode text. Without the key or the
/// certificate the other alone is set, and without both the default files are not
/// there.
pub proof fn law_errors_say_what_is_wrong(env: Environment, error: ConfigErrorView)
    requires
        config::config_error(env) == Some(error),
    ensures
        match error {
            ConfigErrorView::Required(setting, cause) => match variable(env, setting) {
                EnvValue::Missing => cause is NotPresent,
                EnvValue::NotUnicode(quoted) => cause == VariableErrorView::NotUnicode(quoted@),
                EnvValue::Text(_) => false,
            },
            ConfigErrorView::Empty(setting) => variable(env, setting) matches EnvValue::Text(value)
                && text::blank(value@),
            ConfigErrorView::NotU16(setting, cause) => variable(
                env,
                setting,
            ) matches EnvValue::Text(value) && text::u16_of(value@) is None && text::u16_result(
                value@,
            ) == Err::<u16, NumberError>(cause),
            ConfigErrorView::Unreadable(setting, cause) => variable(
                env,
                setting,
            ) matches EnvValue::NotUnicode(quoted) && cause == VariableErrorView::NotUnicode(
                quoted@,
            ),
            ConfigErrorView::InvalidMode(word) => words(env.rdp_mode) matches Some(mode) && word
                == text::lower(text::trim(mode)),
            ConfigErrorView::DesktopTooSmall => !good(env, 7),
            ConfigErrorView::TlsKeyRequired => words(env.ui_tls_cert) is Some && words(
                env.ui_tls_key,
            ) is None,
            ConfigErrorView::TlsCertRequired => words(env.ui_tls_cert) is None && words(
                env.ui_tls_key,
            ) is Some,
            ConfigErrorView::TlsRequired => words(env.ui_tls_cert) is None && words(
                env.ui_tls_key,
            ) is None,
        },
{
    text::law_numbers_are_decimal(env.rdp_port->Text_0@);
    text::law_numbers_are_decimal(env.rdp_width->Text_0@);
    text::law_numbers_are_decimal(env.rdp_height->Text_0@);
    text::law_numbers_are_decimal(env.ui_port->Text_0@);
}

/// The variables that the settings are read from.
pub proof fn law_names_of_variables()
    ensures
        Setting::RdpHost.name() == "RDP_HOST"@,
        Setting::RdpPort.name() == "RDP_PORT"@,
        Setting::RdpUser.name() == "RDP_USER"@,
        Setting::RdpPassword.name() == "RDP_PASSWORD"@,
        Setting::RdpMode.name() == "RDP_MODE"@,
        Setting::RdpWidth.name() == "RDP_WIDTH"@,
        Setting::RdpHeight.name() == "RDP_HEIGHT"@,
        Setting::UiPort.name() == "UI_PORT"@,
{
}

/// What each error is told as, and what is told of its cause.
pub proof fn law_messages_of_errors(
    setting: Setting,
    cause: VariableErrorView,
    number: NumberError,
    word: Seq<char>,
)
    ensures
        ConfigErrorView::Required(setting, cause).text() == setting.name() + " is required"@,
        ConfigErrorView::Required(setting, cause).cause() == Some(cause.text()),
        ConfigErrorView::Empty(setting).text() == setting.name() + " must not be empty"@,
        ConfigErrorView::Empty(setting).cause() is None,
        ConfigErrorView::NotU16(setting, number).text() == setting.name() + " must be a u16"@,
        ConfigErrorView::NotU16(setting, number).cause() == Some(number.text()),
        ConfigErrorView::Unreadable(setting, cause).text() == "read "@ + setting.name(),
        ConfigErrorView::Unreadable(setting, cause).cause() == Some(cause.text()),
        ConfigErrorView::InvalidMode(word).text() == "RDP_MODE must be shared or session; got "@
            + text::debug_text(word),
        VariableErrorView::NotPresent.text() == "environment variable not found"@,
        VariableErrorView::NotUnicode(word).text()
            == "environment variable was not valid unicode: "@ + word,
        NumberError::Empty.text() == "cannot parse integer from empty string"@,
        NumberError::InvalidDigit.text() == "invalid digit found in string"@,
        NumberError::TooLarge.text() == "number too large to fit in target type"@,
{
}

/// A browser is shown the configured width and height.
pub proof fn law_browser_sees_the_size(app: AppConfig)
    ensures
        config::public_part(app).default_width == app.rdp.width,
        config::public_part(app).default_height == app.rdp.height,
{
}

/// The variables are read from the file that is named, or from `.env` if none is;
/// the web server listens on the host that is named, however it is spelled, or on
/// every address if none is.
pub proof fn law_named_file_and_host(value: EnvValue)
    ensures
        words(value) matches Some(path) ==> config::dotenv_file(value) == path,
        words(value) is None ==> config::dotenv_file(value) == ".env"@,
        value matches EnvValue::Text(host) ==> config::host_text(value) == host@,
        value !is Text ==> config::host_text(value) == "0.0.0.0"@,
{
}

}
