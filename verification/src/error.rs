//! Error types of the audio engine, with their user-facing messages.

use vstd::prelude::*;
use vstd::std_specs::convert::FromSpecImpl;

verus! {

#[verifier::external_type_specification]
#[verifier::external_body]
pub struct ExIoErrorKind(std::io::ErrorKind);

/// What std's `Debug` formatting writes for an I/O error kind.
pub uninterp spec fn io_kind_debug(kind: std::io::ErrorKind) -> Seq<char>;

/// std's `Debug` formatting of an `io::ErrorKind`; its result is
/// `io_kind_debug` of the kind, the variant names are not restated here.
#[verifier::external_body]
fn io_kind_text(kind: &std::io::ErrorKind) -> (s: String)
    ensures
        s@ == io_kind_debug(*kind),
{
    format!("{:?}", kind)
}

/// Unified error of the player.
#[derive(Debug, PartialEq)]
pub enum PlaybackError {
    Decoder(DecoderError),
    Device(DeviceError),
    NoDevice,
    Io(std::io::ErrorKind),
    Other(String),
}

/// Errors of the decoders.
#[derive(Debug, PartialEq)]
pub enum DecoderError {
    IoError(String),
    FormatError(String),
    NoAudioTrack,
    MissingSampleRate,
    MissingChannels,
    DecoderError(String),
    Symphonia(String),
    UnsupportedSampleFormat,
    SeekNotSupported,
}

/// Errors of the output devices.
#[derive(Debug, PartialEq)]
pub enum DeviceError {
    NoDefaultDevice,
    UnsupportedFormat,
    StreamBuild(String),
    Play(String),
}

/// The message of a device error.
pub open spec fn device_message(e: DeviceError) -> Seq<char> {
    match e {
        DeviceError::NoDefaultDevice => "未找到默认音频设备"@,
        DeviceError::UnsupportedFormat => "不支持的音频格式"@,
        DeviceError::StreamBuild(m) => "构建音频流失败: "@ + m@,
        DeviceError::Play(m) => "播放错误: "@ + m@,
    }
}

/// The message of a decoder error.
pub open spec fn decoder_message(e: DecoderError) -> Seq<char> {
    match e {
        DecoderError::IoError(m) => "IO 错误: "@ + m@,
        DecoderError::FormatError(m) => "格式探测失败: "@ + m@,
        DecoderError::NoAudioTrack => "未找到音频轨道"@,
        DecoderError::MissingSampleRate => "缺少采样率信息"@,
        DecoderError::MissingChannels => "缺少声道信息"@,
        DecoderError::DecoderError(m) => "解码器创建失败: "@ + m@,
        DecoderError::Symphonia(m) => "Symphonia 错误: "@ + m@,
        DecoderError::UnsupportedSampleFormat => "不支持的采样格式"@,
        DecoderError::SeekNotSupported => "不支持跳转"@,
    }
}

/// The message of a playback error.
pub open spec fn playback_message(e: PlaybackError) -> Seq<char> {
    match e {
        PlaybackError::Decoder(d) => "解码错误: "@ + decoder_message(d),
        PlaybackError::Device(d) => "设备错误: "@ + device_message(d),
        PlaybackError::NoDevice => "未找到音频设备"@,
        PlaybackError::Io(k) => "IO 错误: "@ + io_kind_debug(k),
        PlaybackError::Other(m) => "其他错误: "@ + m@,
    }
}

/// `prefix` followed by `rest`.
fn joined(prefix: &str, rest: &str) -> (s: String)
    ensures
        s@ == prefix@ + rest@,
{
    String::from_str(prefix).concat(rest)
}

impl DeviceError {
    /// The user-facing message (what `Display` writes).
    pub fn message(&self) -> (s: String)
        ensures
            s@ == device_message(*self),
    {
        match self {
            DeviceError::NoDefaultDevice => String::from_str("未找到默认音频设备"),
            DeviceError::UnsupportedFormat => String::from_str("不支持的音频格式"),
            DeviceError::StreamBuild(m) => joined("构建音频流失败: ", m.as_str()),
            DeviceError::Play(m) => joined("播放错误: ", m.as_str()),
        }
    }
}

impl DecoderError {
    /// The user-facing message (what `Display` writes).
    pub fn message(&self) -> (s: String)
        ensures
            s@ == decoder_message(*self),
    {
        match self {
            DecoderError::IoError(m) => joined("IO 错误: ", m.as_str()),
            DecoderError::FormatError(m) => joined("格式探测失败: ", m.as_str()),
            DecoderError::NoAudioTrack => String::from_str("未找到音频轨道"),
            DecoderError::MissingSampleRate => String::from_str("缺少采样率信息"),
            DecoderError::MissingChannels => String::from_str("缺少声道信息"),
            DecoderError::DecoderError(m) => joined("解码器创建失败: ", m.as_str()),
            DecoderError::Symphonia(m) => joined("Symphonia 错误: ", m.as_str()),
            DecoderError::UnsupportedSampleFormat => String::from_str("不支持的采样格式"),
            DecoderError::SeekNotSupported => String::from_str("不支持跳转"),
        }
    }
}

impl PlaybackError {
    /// The user-facing message (what `Display` writes).
    pub fn message(&self) -> (s: String)
        ensures
            s@ == playback_message(*self),
    {
        match self {
            PlaybackError::Decoder(e) => {
                let inner = e.message();
                joined("解码错误: ", inner.as_str())
            },
            PlaybackError::Device(e) => {
                let inner = e.message();
                joined("设备错误: ", inner.as_str())
            },
            PlaybackError::NoDevice => String::from_str("未找到音频设备"),
            PlaybackError::Io(kind) => {
                let inner = io_kind_text(kind);
                joined("IO 错误: ", inner.as_str())
            },
            PlaybackError::Other(m) => joined("其他错误: ", m.as_str()),
        }
    }
}

impl From<DecoderError> for PlaybackError {
    fn from(err: DecoderError) -> (r: Self) {
        PlaybackError::Decoder(err)
    }
}

impl FromSpecImpl<DecoderError> for PlaybackError {
    open spec fn obeys_from_spec() -> bool {
        true
    }

    open spec fn from_spec(err: DecoderError) -> PlaybackError {
        PlaybackError::Decoder(err)
    }
}

impl From<DeviceError> for PlaybackError {
    fn from(err: DeviceError) -> (r: Self) {
        PlaybackError::Device(err)
    }
}

impl FromSpecImpl<DeviceError> for PlaybackError {
    open spec fn obeys_from_spec() -> bool {
        true
    }

    open spec fn from_spec(err: DeviceError) -> PlaybackError {
        PlaybackError::Device(err)
    }
}

} // verus!
