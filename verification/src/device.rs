//! The settings of a device that are written as words or numbers in the
//! configuration: what kind of device it is, how its volume is controlled, at
//! which bitrate it streams, and through which proxy it connects.

use std::str::FromStr;
use vstd::prelude::*;

verus! {

/// The kind of device that the receiver announces itself as.
#[derive(Clone, Copy, Debug, PartialEq, Eq, Structural)]
pub enum DeviceType {
    Unknown,
    Computer,
    Tablet,
    Smartphone,
    Speaker,
    Tv,
    Avr,
    Stb,
    AudioDongle,
    GameConsole,
    CastAudio,
    CastVideo,
    Automobile,
    Smartwatch,
    Chromebook,
    UnknownSpotify,
    CarThing,
    Observer,
    HomeThing,
}

/// How the volume is controlled.
#[derive(Clone, Copy, Debug, PartialEq, Eq, Structural)]
pub enum VolumeCtrl {
    Linear,
    Log,
    Fixed,
}

/// The bitrate of the stream, in kilobits per second.
#[derive(Clone, Copy, Debug, PartialEq, Eq, Structural)]
pub enum Bitrate {
    Bitrate96,
    Bitrate160,
    Bitrate320,
}

/// The number that the protocol gives to the kind of device that `name`
/// names, if it names one.
pub uninterp spec fn device_type_code(name: Seq<char>) -> Option<u32>;

/// The way of volume control that `name` names, if it names one.
pub uninterp spec fn volume_ctrl_named(name: Seq<char>) -> Option<VolumeCtrl>;

/// What a string is as a URL, if it is one.
pub uninterp spec fn url_parse_result(text: Seq<char>) -> Option<UrlPartsView>;

/// Calls `DeviceType::from_str` of `librespot`, and hands back the number of
/// the kind it found. The contract gives that number a name,
/// [`device_type_code`], and claims nothing else of it.
#[verifier::external_body]
fn parse_device_type(name: &str) -> (code: Option<u32>)
    ensures
        code == device_type_code(name@),
{
    match librespot::core::config::DeviceType::from_str(name) {
        Ok(kind) => Some(kind as u32),
        Err(_) => None,
    }
}

/// Calls `VolumeCtrl::from_str` of `librespot`. The contract gives the
/// result a name, [`volume_ctrl_named`], and claims nothing else of it.
#[verifier::external_body]
pub(crate) fn parse_volume_ctrl(name: &str) -> (ctrl: Option<VolumeCtrl>)
    ensures
        ctrl == volume_ctrl_named(name@),
{
    match librespot::core::config::VolumeCtrl::from_str(name) {
        Ok(librespot::core::config::VolumeCtrl::Linear) => Some(VolumeCtrl::Linear),
        Ok(librespot::core::config::VolumeCtrl::Log) => Some(VolumeCtrl::Log),
        Ok(librespot::core::config::VolumeCtrl::Fixed) => Some(VolumeCtrl::Fixed),
        Err(_) => None,
    }
}

/// Calls `Url::parse` of the `url` crate, and hands back the scheme, the
/// host and the port of the URL it made. The contract gives the result a
/// name, [`url_parse_result`], and claims nothing else of it.
#[verifier::external_body]
fn parse_url(text: &str) -> (parts: Option<UrlParts>)
    ensures
        spec_parts_view(parts) == url_parse_result(text@),
{
    match url::Url::parse(text) {
        Ok(url) => Some(
            UrlParts {
                scheme: url.scheme().to_owned(),
                host: url.host_str().map(str::to_owned),
                port: url.port(),
            },
        ),
        Err(_) => None,
    }
}

/// The kind of device with the protocol's number `code`.
pub open spec fn spec_device_type(code: u32) -> Option<DeviceType> {
    if code == 0 {
        Some(DeviceType::Unknown)
    } else if code == 1 {
        Some(DeviceType::Computer)
    } else if code == 2 {
        Some(DeviceType::Tablet)
    } else if code == 3 {
        Some(DeviceType::Smartphone)
    } else if code == 4 {
        Some(DeviceType::Speaker)
    } else if code == 5 {
        Some(DeviceType::Tv)
    } else if code == 6 {
        Some(DeviceType::Avr)
    } else if code == 7 {
        Some(DeviceType::Stb)
    } else if code == 8 {
        Some(DeviceType::AudioDongle)
    } else if code == 9 {
        Some(DeviceType::GameConsole)
    } else if code == 10 {
        Some(DeviceType::CastAudio)
    } else if code == 11 {
        Some(DeviceType::CastVideo)
    } else if code == 12 {
        Some(DeviceType::Automobile)
    } else if code == 13 {
        Some(DeviceType::Smartwatch)
    } else if code == 14 {
        Some(DeviceType::Chromebook)
    } else if code == 100 {
        Some(DeviceType::UnknownSpotify)
    } else if code == 101 {
        Some(DeviceType::CarThing)
    } else if code == 102 {
        Some(DeviceType::Observer)
    } else if code == 103 {
        Some(DeviceType::HomeThing)
    } else {
        None
    }
}

/// The kind of device that `name` names, if it names one.
pub open spec fn spec_device_type_named(name: Seq<char>) -> Option<DeviceType> {
    match device_type_code(name) {
        Some(code) => spec_device_type(code),
        None => None,
    }
}

/// The bitrate of `kbps` kilobits per second, if there is one.
pub open spec fn spec_bitrate(kbps: i16) -> Option<Bitrate> {
    if kbps == 96 {
        Some(Bitrate::Bitrate96)
    } else if kbps == 160 {
        Some(Bitrate::Bitrate160)
    } else if kbps == 320 {
        Some(Bitrate::Bitrate320)
    } else {
        None
    }
}

impl DeviceType {
    /// The kind of device with the protocol's number `code`.
    pub fn from_code(code: u32) -> (kind: Option<DeviceType>)
        ensures
            kind == spec_device_type(code),
    {
        match code {
            0 => Some(DeviceType::Unknown),
            1 => Some(DeviceType::Computer),
            2 => Some(DeviceType::Tablet),
            3 => Some(DeviceType::Smartphone),
            4 => Some(DeviceType::Speaker),
            5 => Some(DeviceType::Tv),
            6 => Some(DeviceType::Avr),
            7 => Some(DeviceType::Stb),
            8 => Some(DeviceType::AudioDongle),
            9 => Some(DeviceType::GameConsole),
            10 => Some(DeviceType::CastAudio),
            11 => Some(DeviceType::CastVideo),
            12 => Some(DeviceType::Automobile),
            13 => Some(DeviceType::Smartwatch),
            14 => Some(DeviceType::Chromebook),
            100 => Some(DeviceType::UnknownSpotify),
            101 => Some(DeviceType::CarThing),
            102 => Some(DeviceType::Observer),
            103 => Some(DeviceType::HomeThing),
            _ => None,
        }
    }

    /// The kind of device that `name` names, if it names one.
    pub fn from_name(name: &str) -> (kind: Option<DeviceType>)
        ensures
            kind == spec_device_type_named(name@),
    {
        match parse_device_type(name) {
            Some(code) => DeviceType::from_code(code),
            None => None,
        }
    }
}

impl Bitrate {
    /// The bitrate of `kbps` kilobits per second: there is one of 96, one of
    /// 160 and one of 320.
    pub fn from_kbps(kbps: i16) -> (bitrate: Option<Bitrate>)
        ensures
            bitrate == spec_bitrate(kbps),
    {
        match kbps {
            96 => Some(Bitrate::Bitrate96),
            160 => Some(Bitrate::Bitrate160),
            320 => Some(Bitrate::Bitrate320),
            _ => None,
        }
    }
}

/// What a proxy URL is checked for: its scheme, its host and its port, where
/// it names them.
#[derive(Clone, Debug, PartialEq, Eq)]
pub struct UrlParts {
    pub scheme: String,
    pub host: Option<String>,
    pub port: Option<u16>,
}

/// What the parts of a URL hold.
pub struct UrlPartsView {
    pub scheme: Seq<char>,
    pub host: Option<Seq<char>>,
    pub port: Option<u16>,
}

impl View for UrlParts {
    type V = UrlPartsView;

    open spec fn view(&self) -> UrlPartsView {
        UrlPartsView {
            scheme: self.scheme@,
            host: match self.host {
                Some(host) => Some(host@),
                None => None,
            },
            port: self.port,
        }
    }
}

/// What the parts of a URL hold, where there are any.
pub open spec fn spec_parts_view(parts: Option<UrlParts>) -> Option<UrlPartsView> {
    match parts {
        Some(parts) => Some(parts@),
        None => None,
    }
}

/// Why a proxy URL is refused.
#[derive(Clone, Copy, Debug, PartialEq, Eq, Structural)]
pub enum ProxyError {
    /// It is no URL.
    Invalid,
    /// It names no host, or no port other than its scheme's own.
    WithoutHostOrPort,
    /// Its scheme is not `http`.
    NotHttp,
}

/// What is wrong with the parts of a proxy URL, if anything is: a proxy has
/// a host and a port, and is reached by plain `http`.
pub open spec fn spec_check_parts(parts: Option<UrlPartsView>) -> Option<ProxyError> {
    match parts {
        None => Some(ProxyError::Invalid),
        Some(parts) => if parts.host is None || parts.port is None {
            Some(ProxyError::WithoutHostOrPort)
        } else if parts.scheme != "http"@ {
            Some(ProxyError::NotHttp)
        } else {
            None
        },
    }
}

/// What is wrong with `text` as a proxy URL, if anything is.
pub open spec fn spec_check_proxy(text: Seq<char>) -> Option<ProxyError> {
    spec_check_parts(url_parse_result(text))
}

/// Checks the parts of a proxy URL.
pub fn check_parts(parts: &Option<UrlParts>) -> (r: Result<(), ProxyError>)
    ensures
        r is Ok <==> spec_check_parts(spec_parts_view(*parts)) is None,
        r matches Err(e) ==> spec_check_parts(spec_parts_view(*parts)) == Some(e),
{
    match parts {
        None => Err(ProxyError::Invalid),
        Some(parts) => {
            if parts.host.is_none() || parts.port.is_none() {
                Err(ProxyError::WithoutHostOrPort)
            } else if !same_text(parts.scheme.as_str(), "http") {
                Err(ProxyError::NotHttp)
            } else {
                Ok(())
            }
        },
    }
}

/// Checks `text` as a proxy URL.
pub fn check_proxy(text: &str) -> (r: Result<(), ProxyError>)
    ensures
        r is Ok <==> spec_check_proxy(text@) is None,
        r matches Err(e) ==> spec_check_proxy(text@) == Some(e),
{
    let parts = parse_url(text);
    check_parts(&parts)
}

/// Whether two strings hold the same text.
pub fn same_text(a: &str, b: &str) -> (same: bool)
    ensures
        same == (a@ == b@),
{
    a.to_owned() == b.to_owned()
}

} // verus!
