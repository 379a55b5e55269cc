//! From the configuration file's values to what the receiver is set up with.
//!
//! [`Config`] holds the values of a configuration file as they were written,
//! each of them optional. [`Setup::from_config`] fills in the defaults, checks
//! what can be checked without touching the machine, and says what is wrong
//! with the first value that does not pass.

use crate::credentials::{AuthKind, Credentials, CredentialsView};
use crate::device::{check_proxy, parse_volume_ctrl, same_text, spec_bitrate, spec_check_proxy};
use crate::device::{spec_device_type_named, volume_ctrl_named};
use crate::device::{Bitrate, DeviceType, ProxyError, VolumeCtrl};
use crate::encoding::{device_id, spec_device_id};
use crate::meta_pipe::MetaPipeConfig;
use crate::version::{pipe_version, spec_pipe_version, BuildInfo};
use crate::volume::{initial_volume, spec_initial_volume};
use vstd::prelude::*;
use vstd::string::StringExecFns;

verus! {

/// The section `Authentication`.
#[derive(Clone, Debug, PartialEq, Eq)]
pub struct Authentication {
    pub shared: Option<bool>,
    pub username: Option<String>,
    pub password: Option<String>,
    pub device_name: Option<String>,
}

/// The section `Playback`.
#[derive(Clone, Debug, PartialEq, Eq)]
pub struct Playback {
    pub bitrate: Option<i16>,
    pub enable_volume_normalisation: Option<bool>,
    pub volume_ctrl: Option<String>,
    pub autoplay: Option<bool>,
    pub gapless: Option<bool>,
}

/// The section `Output`.
#[derive(Clone, Debug, PartialEq, Eq)]
pub struct Output {
    pub device: Option<String>,
    pub initial_volume: Option<u16>,
    pub mixer: Option<String>,
    pub mixer_name: Option<String>,
    pub mixer_card: Option<String>,
    pub mixer_index: Option<u32>,
    pub mixer_linear_volume: Option<bool>,
    pub backend: Option<String>,
}

/// The section `Misc`.
#[derive(Clone, Debug, PartialEq, Eq)]
pub struct Misc {
    pub disable_audio_cache: Option<bool>,
    pub cache_location: Option<String>,
    pub metadata_port: Option<u16>,
    pub ap_port: Option<u16>,
    pub zeroconf_port: Option<u16>,
    pub proxy: Option<String>,
    pub device_type: Option<String>,
}

/// The values of a configuration file.
#[derive(Clone, Debug, PartialEq, Eq)]
pub struct Config {
    pub authentication: Authentication,
    pub playback: Playback,
    pub output: Output,
    pub misc: Misc,
}

/// What an optional string holds.
pub open spec fn spec_opt_text(text: Option<String>) -> Option<Seq<char>> {
    match text {
        Some(text) => Some(text@),
        None => None,
    }
}

impl Default for Authentication {
    /// Shared with the local network, under the name `Vollibrespot`, and
    /// without an account.
    fn default() -> (r: Authentication)
        ensures
            r.shared == Some(true),
            r.username is None,
            r.password is None,
            spec_opt_text(r.device_name) == Some("Vollibrespot"@),
    {
        Authentication {
            shared: Some(true),
            username: None,
            password: None,
            device_name: Some(String::from_str("Vollibrespot")),
        }
    }
}

impl Default for Playback {
    /// 320 kbit/s, normalised, linear volume, gapless, no autoplay.
    fn default() -> (r: Playback)
        ensures
            r.bitrate == Some(320i16),
            r.enable_volume_normalisation == Some(true),
            spec_opt_text(r.volume_ctrl) == Some("linear"@),
            r.autoplay == Some(false),
            r.gapless == Some(true),
    {
        Playback {
            bitrate: Some(320),
            enable_volume_normalisation: Some(true),
            volume_ctrl: Some(String::from_str("linear")),
            autoplay: Some(false),
            gapless: Some(true),
        }
    }
}

impl Default for Output {
    /// The default device through ALSA, a software mixer with linear volume,
    /// and half volume at the start.
    fn default() -> (r: Output)
        ensures
            spec_opt_text(r.device) == Some("default"@),
            r.initial_volume == Some(50u16),
            spec_opt_text(r.mixer) == Some("softvol"@),
            r.mixer_name is None,
            r.mixer_card is None,
            r.mixer_index is None,
            r.mixer_linear_volume == Some(true),
            spec_opt_text(r.backend) == Some("alsa"@),
    {
        Output {
            device: Some(String::from_str("default")),
            initial_volume: Some(50),
            mixer: Some(String::from_str("softvol")),
            mixer_name: None,
            mixer_card: None,
            mixer_index: None,
            mixer_linear_volume: Some(true),
            backend: Some(String::from_str("alsa")),
        }
    }
}

impl Default for Misc {
    /// An audio cache under `/tmp`, the pipe at port 5030, and a speaker.
    fn default() -> (r: Misc)
        ensures
            r.disable_audio_cache == Some(false),
            spec_opt_text(r.cache_location) == Some("/tmp"@),
            r.metadata_port == Some(5030u16),
            r.ap_port is None,
            r.zeroconf_port == Some(0u16),
            r.proxy is None,
            spec_opt_text(r.device_type) == Some("Speaker"@),
    {
        Misc {
            disable_audio_cache: Some(false),
            cache_location: Some(String::from_str("/tmp")),
            metadata_port: Some(5030),
            ap_port: None,
            zeroconf_port: Some(0),
            proxy: None,
            device_type: Some(String::from_str("Speaker")),
        }
    }
}

/// Whether `config` is the configuration that stands in for a missing
/// file.
pub open spec fn spec_is_default(config: Config) -> bool {
    &&& config.authentication.shared == Some(true)
    &&& config.authentication.username is None
    &&& config.authentication.password is None
    &&& spec_opt_text(config.authentication.device_name) == Some("Vollibrespot"@)
    &&& config.playback.bitrate == Some(320i16)
    &&& config.playback.enable_volume_normalisation == Some(true)
    &&& spec_opt_text(config.playback.volume_ctrl) == Some("linear"@)
    &&& config.playback.autoplay == Some(false)
    &&& config.playback.gapless == Some(true)
    &&& spec_opt_text(config.output.device) == Some("default"@)
    &&& config.output.initial_volume == Some(50u16)
    &&& spec_opt_text(config.output.mixer) == Some("softvol"@)
    &&& config.output.mixer_name is None
    &&& config.output.mixer_card is None
    &&& config.output.mixer_index is None
    &&& config.output.mixer_linear_volume == Some(true)
    &&& spec_opt_text(config.output.backend) == Some("alsa"@)
    &&& config.misc.disable_audio_cache == Some(false)
    &&& spec_opt_text(config.misc.cache_location) == Some("/tmp"@)
    &&& config.misc.metadata_port == Some(5030u16)
    &&& config.misc.ap_port is None
    &&& config.misc.zeroconf_port == Some(0u16)
    &&& config.misc.proxy is None
    &&& spec_opt_text(config.misc.device_type) == Some("Speaker"@)
}

impl Default for Config {
    /// The configuration that stands in for a missing file.
    fn default() -> (r: Config)
        ensures
            spec_is_default(r),
    {
        Config {
            authentication: Authentication::default(),
            playback: Playback::default(),
            output: Output::default(),
            misc: Misc::default(),
        }
    }
}

/// What the machine adds to the configuration: what the credentials cache
/// holds, and the proxy that the environment names.
#[derive(Clone, Debug, PartialEq, Eq)]
pub struct Environment {
    pub cached_credentials: Option<Credentials>,
    pub cached_volume: Option<u16>,
    pub http_proxy: Option<String>,
}

/// Why a configuration is refused.
#[derive(Clone, Copy, Debug, PartialEq, Eq, Structural)]
pub enum SetupError {
    /// The output device is named by an empty string.
    InvalidOutputDevice,
    /// The backend is neither `pipe` nor `alsa`.
    UnsupportedBackend,
    /// No output device is named.
    MissingOutputDevice,
    /// The proxy is no `http` URL with a host and a port.
    Proxy(ProxyError),
    /// The bitrate is none of 96, 160 and 320.
    InvalidBitrate,
    /// The device type names no kind of device.
    InvalidDeviceType,
    /// The volume control names no way of volume control.
    InvalidVolumeCtrl,
}

/// How the session is reached. The proxy, where there is one, has passed the
/// proxy check.
#[derive(Clone, Debug, PartialEq, Eq)]
pub struct SessionConfig {
    pub device_id: String,
    pub proxy: Option<String>,
    pub ap_port: Option<u16>,
}

/// How the receiver shows itself to controlling apps.
#[derive(Clone, Debug, PartialEq, Eq)]
pub struct ConnectConfig {
    pub name: String,
    pub device_type: DeviceType,
    pub volume: u16,
    pub volume_ctrl: VolumeCtrl,
    pub autoplay: bool,
}

/// How the player plays.
#[derive(Clone, Copy, Debug, PartialEq, Eq, Structural)]
pub struct PlayerConfig {
    pub bitrate: Bitrate,
    pub normalisation: bool,
    pub gapless: bool,
}

/// Which mixer control is used.
#[derive(Clone, Debug, PartialEq, Eq)]
pub struct MixerConfig {
    pub card: String,
    pub mixer: String,
    pub index: u32,
    pub mapped_volume: bool,
}

/// What the receiver is set up with.
#[derive(Clone, Debug, PartialEq, Eq)]
pub struct Setup {
    pub credentials: Option<Credentials>,
    pub session_config: SessionConfig,
    pub connect_config: ConnectConfig,
    /// The name of the audio backend.
    pub backend: Option<String>,
    pub device: Option<String>,
    /// The name of the mixer.
    pub mixer: Option<String>,
    /// Where the cache lives, if there is to be one.
    pub cache_location: Option<String>,
    /// Whether the cache holds audio as well.
    pub use_audio_cache: bool,
    pub player_config: PlayerConfig,
    pub mixer_config: MixerConfig,
    pub meta_config: MetaPipeConfig,
    pub enable_discovery: bool,
    pub zeroconf_port: u16,
}

/// The value of an optional flag.
pub open spec fn spec_flag(flag: Option<bool>, default: bool) -> bool {
    match flag {
        Some(flag) => flag,
        None => default,
    }
}

/// The value of an optional text.
pub open spec fn spec_text_or(text: Option<String>, default: Seq<char>) -> Seq<char> {
    match text {
        Some(text) => text@,
        None => default,
    }
}

/// Whether an optional text is there and reads `word`.
pub open spec fn spec_reads(text: Option<String>, word: Seq<char>) -> bool {
    text matches Some(t) && t@ == word
}

/// The name of the device.
pub open spec fn spec_device_name(config: Config) -> Seq<char> {
    spec_text_or(config.authentication.device_name, "Vollibrespot"@)
}

/// The credentials to start with. A user name with a password makes
/// credentials of its own, unless one of the two is empty. A user name
/// without a password takes the cached credentials, where they are that
/// user's. Anything else gives none.
pub open spec fn spec_choose_credentials(
    username: Option<String>,
    password: Option<String>,
    cached: Option<Credentials>,
) -> Option<CredentialsView> {
    match username {
        Some(username) => match password {
            Some(password) => if username@.len() > 0 && password@.len() > 0 {
                Some(
                    CredentialsView {
                        username: username@,
                        auth_kind: AuthKind::UserPass,
                        auth_data: vstd::utf8::encode_utf8(password@),
                    },
                )
            } else {
                None
            },
            None => match cached {
                Some(cached) => if username@ == cached.username@ {
                    Some(cached@)
                } else {
                    None
                },
                None => None,
            },
        },
        None => None,
    }
}

/// The credentials that a configuration starts with.
pub open spec fn spec_credentials(config: Config, env: Environment) -> Option<CredentialsView> {
    spec_choose_credentials(
        config.authentication.username,
        config.authentication.password,
        env.cached_credentials,
    )
}

/// What optional credentials hold.
pub open spec fn spec_opt_credentials(credentials: Option<Credentials>) -> Option<
    CredentialsView,
> {
    match credentials {
        Some(c) => Some(c@),
        None => None,
    }
}

/// Whether the cache is to hold audio as well: only where the configuration
/// says that the audio cache is not switched off.
pub open spec fn spec_use_audio_cache(config: Config) -> bool {
    !spec_flag(config.misc.disable_audio_cache, true)
}

/// Whether the backend is one that the receiver works with.
pub open spec fn spec_backend_supported(config: Config) -> bool {
    spec_reads(config.output.backend, "pipe"@) || spec_reads(config.output.backend, "alsa"@)
}

/// The way of volume control that is asked for: `linear` with the ALSA mixer,
/// unless that mixer's linear volume is switched off; else what the
/// configuration says.
pub open spec fn spec_volume_ctrl_text(config: Config) -> Option<Seq<char>> {
    if spec_reads(config.output.mixer, "alsa"@) && config.output.mixer_linear_volume != Some(false)
        && !spec_reads(config.playback.volume_ctrl, "linear"@) {
        Some("linear"@)
    } else {
        spec_opt_text(config.playback.volume_ctrl)
    }
}

/// The volume at the start: the configured percentage on the mixer's scale,
/// else the cached volume, else half.
pub open spec fn spec_start_volume(config: Config, env: Environment) -> int {
    match config.output.initial_volume {
        Some(percent) => spec_initial_volume(percent),
        None => match env.cached_volume {
            Some(volume) => volume as int,
            None => 0x8000,
        },
    }
}

/// The proxy that is asked for: the configured one, else the environment's.
pub open spec fn spec_proxy(config: Config, env: Environment) -> Option<Seq<char>> {
    match config.misc.proxy {
        Some(proxy) => Some(proxy@),
        None => spec_opt_text(env.http_proxy),
    }
}

/// The bitrate: the configured one, else 160.
pub open spec fn spec_config_bitrate(config: Config) -> Option<Bitrate> {
    match config.playback.bitrate {
        Some(kbps) => spec_bitrate(kbps),
        None => Some(Bitrate::Bitrate160),
    }
}

/// The kind of device: the configured one, else a speaker.
pub open spec fn spec_config_device_type(config: Config) -> Option<DeviceType> {
    match config.misc.device_type {
        Some(name) => spec_device_type_named(name@),
        None => Some(DeviceType::Speaker),
    }
}

/// The way of volume control: the one asked for, else logarithmic.
pub open spec fn spec_config_volume_ctrl(config: Config) -> Option<VolumeCtrl> {
    match spec_volume_ctrl_text(config) {
        Some(name) => volume_ctrl_named(name),
        None => Some(VolumeCtrl::Log),
    }
}

/// What is wrong with the configuration, if anything is: the first of its
/// faults, in the order of [`SetupError`].
pub open spec fn spec_first_error(config: Config, env: Environment) -> Option<SetupError> {
    if spec_reads(config.output.device, Seq::empty()) {
        Some(SetupError::InvalidOutputDevice)
    } else if !spec_backend_supported(config) {
        Some(SetupError::UnsupportedBackend)
    } else if config.output.device is None {
        Some(SetupError::MissingOutputDevice)
    } else if spec_proxy(config, env) matches Some(proxy) && spec_check_proxy(proxy) is Some {
        Some(SetupError::Proxy(spec_check_proxy(spec_proxy(config, env).unwrap()).unwrap()))
    } else if spec_config_bitrate(config) is None {
        Some(SetupError::InvalidBitrate)
    } else if spec_config_device_type(config) is None {
        Some(SetupError::InvalidDeviceType)
    } else if spec_config_volume_ctrl(config) is None {
        Some(SetupError::InvalidVolumeCtrl)
    } else {
        None
    }
}

/// Whether `setup` is what `config` and `env` set the receiver up with, for
/// a build `build`.
pub open spec fn spec_is_setup(setup: Setup, config: Config, env: Environment, build: &BuildInfo) -> bool {
    &&& spec_opt_credentials(setup.credentials) == spec_credentials(config, env)
    &&& setup.session_config.device_id@ == spec_device_id(spec_device_name(config))
    &&& spec_opt_text(setup.session_config.proxy) == spec_proxy(config, env)
    &&& setup.session_config.ap_port == Some(443u16)
    &&& setup.connect_config.name@ == spec_device_name(config)
    &&& Some(setup.connect_config.device_type) == spec_config_device_type(config)
    &&& setup.connect_config.volume as int == spec_start_volume(config, env)
    &&& Some(setup.connect_config.volume_ctrl) == spec_config_volume_ctrl(config)
    &&& setup.connect_config.autoplay == spec_flag(config.playback.autoplay, false)
    &&& setup.backend == config.output.backend
    &&& setup.device == config.output.device
    &&& setup.mixer == config.output.mixer
    &&& setup.cache_location == config.misc.cache_location
    &&& setup.use_audio_cache == spec_use_audio_cache(config)
    &&& Some(setup.player_config.bitrate) == spec_config_bitrate(config)
    &&& setup.player_config.normalisation == spec_flag(
        config.playback.enable_volume_normalisation,
        false,
    )
    &&& setup.player_config.gapless == spec_flag(config.playback.gapless, true)
    &&& setup.mixer_config.card@ == spec_text_or(config.output.mixer_card, "default"@)
    &&& setup.mixer_config.mixer@ == spec_text_or(config.output.mixer_name, "PCM"@)
    &&& setup.mixer_config.index == (match config.output.mixer_index {
        Some(index) => index,
        None => 0,
    })
    &&& setup.mixer_config.mapped_volume == !spec_flag(config.output.mixer_linear_volume, false)
    &&& setup.meta_config.port == (match config.misc.metadata_port {
        Some(port) => port,
        None => 5030,
    })
    &&& setup.meta_config.version@ == spec_pipe_version(build)
    &&& setup.enable_discovery == spec_flag(config.authentication.shared, true)
    &&& setup.zeroconf_port == (match config.misc.zeroconf_port {
        Some(port) => port,
        None => 0,
    })
}

/// The value of an optional flag.
pub fn flag_or(flag: Option<bool>, default: bool) -> (value: bool)
    ensures
        value == spec_flag(flag, default),
{
    match flag {
        Some(flag) => flag,
        None => default,
    }
}

/// The value of an optional text.
pub fn text_or(text: Option<String>, default: &str) -> (value: String)
    ensures
        value@ == spec_text_or(text, default@),
{
    match text {
        Some(text) => text,
        None => String::from_str(default),
    }
}

/// Whether an optional text is there and reads `word`.
pub fn reads(text: &Option<String>, word: &str) -> (b: bool)
    ensures
        b == spec_reads(*text, word@),
{
    match text {
        Some(text) => same_text(text.as_str(), word),
        None => false,
    }
}

/// Whether the cache is to hold audio as well.
pub fn use_audio_cache(config: &Config) -> (b: bool)
    ensures
        b == spec_use_audio_cache(*config),
{
    !flag_or(config.misc.disable_audio_cache, true)
}

/// The credentials to start with.
pub fn choose_credentials(
    username: Option<String>,
    password: Option<String>,
    cached: Option<Credentials>,
) -> (credentials: Option<Credentials>)
    ensures
        spec_opt_credentials(credentials) == spec_choose_credentials(username, password, cached),
{
    match username {
        Some(username) => match password {
            Some(password) => {
                if !username.as_str().is_empty() && !password.as_str().is_empty() {
                    Some(Credentials::with_password(username, password.as_str()))
                } else {
                    None
                }
            },
            None => match cached {
                Some(cached) => {
                    if same_text(username.as_str(), cached.username.as_str()) {
                        Some(cached)
                    } else {
                        None
                    }
                },
                None => None,
            },
        },
        None => None,
    }
}

impl Setup {
    /// Sets the receiver up from a configuration, or says what is wrong with
    /// the configuration.
    pub fn from_config(config: Config, env: Environment, build: &BuildInfo) -> (r: Result<
        Setup,
        SetupError,
    >)
        ensures
            r is Ok <==> spec_first_error(config, env) is None,
            r matches Err(e) ==> spec_first_error(config, env) == Some(e),
            r matches Ok(setup) ==> spec_is_setup(setup, config, env, build),
    {
        let use_audio_cache = use_audio_cache(&config);
        let Config { authentication, playback, output, misc } = config;
        let Environment { cached_credentials, cached_volume, http_proxy } = env;

        let device_name = text_or(authentication.device_name, "Vollibrespot");
        let credentials = choose_credentials(
            authentication.username,
            authentication.password,
            cached_credentials,
        );

        proof {
            reveal_strlit("");
            assert(""@ =~= Seq::<char>::empty());
        }
        if reads(&output.device, "") {
            return Err(SetupError::InvalidOutputDevice);
        }
        if !(reads(&output.backend, "pipe") || reads(&output.backend, "alsa")) {
            return Err(SetupError::UnsupportedBackend);
        }
        if output.device.is_none() {
            return Err(SetupError::MissingOutputDevice);
        }
        let mixer_config = MixerConfig {
            card: text_or(output.mixer_card, "default"),
            mixer: text_or(output.mixer_name, "PCM"),
            index: match output.mixer_index {
                Some(index) => index,
                None => 0,
            },
            mapped_volume: !flag_or(output.mixer_linear_volume, false),
        };
        let linear_forced = reads(&output.mixer, "alsa") && !(match output.mixer_linear_volume {
            Some(linear) => !linear,
            None => false,
        }) && !reads(&playback.volume_ctrl, "linear");
        let volume_ctrl_text: Option<String> = if linear_forced {
            Some(String::from_str("linear"))
        } else {
            playback.volume_ctrl
        };
        let volume: u16 = match output.initial_volume {
            Some(percent) => initial_volume(percent),
            None => match cached_volume {
                Some(volume) => volume,
                None => 0x8000,
            },
        };
        let zeroconf_port: u16 = match misc.zeroconf_port {
            Some(port) => port,
            None => 0,
        };
        let proxy: Option<String> = match misc.proxy {
            Some(proxy) => Some(proxy),
            None => http_proxy,
        };
        match &proxy {
            Some(text) => {
                match check_proxy(text.as_str()) {
                    Ok(()) => {},
                    Err(e) => {
                        return Err(SetupError::Proxy(e));
                    },
                }
            },
            None => {},
        }
        let session_config = SessionConfig {
            device_id: device_id(device_name.as_str()),
            proxy,
            ap_port: Some(443),
        };
        let bitrate = match playback.bitrate {
            Some(kbps) => match Bitrate::from_kbps(kbps) {
                Some(bitrate) => bitrate,
                None => {
                    return Err(SetupError::InvalidBitrate);
                },
            },
            None => Bitrate::Bitrate160,
        };
        let player_config = PlayerConfig {
            bitrate,
            normalisation: flag_or(playback.enable_volume_normalisation, false),
            gapless: flag_or(playback.gapless, true),
        };
        let device_type = match &misc.device_type {
            Some(name) => match DeviceType::from_name(name.as_str()) {
                Some(kind) => kind,
                None => {
                    return Err(SetupError::InvalidDeviceType);
                },
            },
            None => DeviceType::Speaker,
        };
        let volume_ctrl = match &volume_ctrl_text {
            Some(name) => match parse_volume_ctrl(name.as_str()) {
                Some(ctrl) => ctrl,
                None => {
                    return Err(SetupError::InvalidVolumeCtrl);
                },
            },
            None => VolumeCtrl::Log,
        };
        let connect_config = ConnectConfig {
            name: device_name,
            device_type,
            volume,
            volume_ctrl,
            autoplay: flag_or(playback.autoplay, false),
        };
        let meta_config = MetaPipeConfig {
            port: match misc.metadata_port {
                Some(port) => port,
                None => 5030,
            },
            version: pipe_version(build),
        };
        let enable_discovery = flag_or(authentication.shared, true);
        Ok(
            Setup {
                credentials,
                session_config,
                connect_config,
                backend: output.backend,
                device: output.device,
                mixer: output.mixer,
                cache_location: misc.cache_location,
                use_audio_cache,
                player_config,
                mixer_config,
                meta_config,
                enable_discovery,
                zeroconf_port,
            },
        )
    }
}

} // verus!
