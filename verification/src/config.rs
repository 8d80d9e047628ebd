//! Application configuration and its validation.
use crate::text::{decimal, push_decimal, str_eq, trim, trimmed};
use vstd::prelude::*;

verus! {

/// Shortest session TTL in seconds.
pub const MIN_SESSION_TTL_SECS: u64 = 1;

/// Longest session TTL in seconds.
pub const MAX_SESSION_TTL_SECS: u64 = 86_400;

/// A binary64 floating-point number by its bits.
#[derive(Clone, Copy, Debug, PartialEq, Eq, Structural)]
pub struct Binary64 {
    pub bits: u64,
}

impl Binary64 {
    /// Whether the number is zero or less: either zero, or negative down to
    /// minus infinity. A NaN is not.
    pub open spec fn at_most_zero(self) -> bool {
        self.bits == 0 || 0x8000_0000_0000_0000 <= self.bits <= 0xFFF0_0000_0000_0000
    }

    /// Whether the number is zero or less.
    pub fn is_at_most_zero(&self) -> (r: bool)
        ensures
            r == self.at_most_zero(),
    {
        self.bits == 0 || (0x8000_0000_0000_0000 <= self.bits && self.bits
            <= 0xFFF0_0000_0000_0000)
    }
}

/// Configuration for HLS segment production: segment duration, storage paths,
/// playlist size and upload staging.
#[derive(Clone, Debug)]
pub struct SegmentConfig {
    /// Target duration of each TS segment in seconds.
    pub duration_secs: u64,
    /// Directory for temporary segment files before upload.
    pub cache_dir: String,
    /// Maximum number of segments to keep in the playlist (0 = unlimited).
    pub playlist_size: usize,
    /// Object key prefix in MinIO.
    pub minio_prefix: String,
    /// Maximum number of staged-but-not-yet-uploaded segment files.
    pub max_staged_segments: usize,
}

/// Configuration for server-side media transcoding (MJPEG to H.264).
#[derive(Clone, Debug)]
pub struct TranscodeConfig {
    /// Target video bitrate in kbps.
    pub bitrate_kbps: u64,
    /// x264 preset name (only honored by the libx264 encoder).
    pub preset: String,
    /// Target keyframe interval in seconds.
    pub gop_secs: Binary64,
    /// Output frame rate; `None` = follow the source frame rate.
    pub fps: Option<Binary64>,
}

/// The whole configuration.
#[derive(Clone, Debug)]
pub struct AppConfig {
    pub transport: TransportConfig,
    pub services: ServiceConfig,
    pub storage: StorageConfig,
    pub queue: QueueConfig,
    pub transcode: TranscodeConfig,
}

#[derive(Clone, Debug)]
pub struct TransportConfig {
    pub rtmp: RtmpConfig,
    pub rtsp: RtspConfig,
}

#[derive(Clone, Debug)]
pub struct ServiceConfig {
    pub grpc: GrpcConfig,
    pub http_flv: HttpFlvConfig,
}

#[derive(Clone, Debug)]
pub struct StorageConfig {
    pub segment: SegmentConfig,
    pub minio: Option<MinioConfig>,
}

#[derive(Clone, Debug)]
pub struct GrpcConfig {
    pub port: u16,
    /// Bearer token that every request must carry, if set.
    pub auth_token: Option<String>,
}

#[derive(Clone, Debug)]
pub struct RtmpConfig {
    pub port: u16,
    pub app_name: String,
    pub session_ttl_secs: u64,
    /// Maximum concurrent TCP connections (0 = unlimited).
    pub max_connections: usize,
}

#[derive(Clone, Debug)]
pub struct HttpFlvConfig {
    pub enabled: bool,
    pub port: u16,
    /// Maximum concurrent HTTP-FLV playback connections (0 = unlimited).
    pub max_connections: usize,
}

#[derive(Clone, Debug)]
pub struct RtspConfig {
    pub port: u16,
    pub session_ttl_secs: u64,
    /// Maximum concurrent TCP connections (0 = unlimited).
    pub max_connections: usize,
}

#[derive(Clone, Debug)]
pub struct QueueConfig {
    pub rtmp_forward: usize,
    pub flv_relay: usize,
    pub packet_relay: usize,
    pub control: usize,
    pub event: usize,
}

#[derive(Clone, Debug)]
pub struct MinioConfig {
    pub uri: String,
    pub access_key: String,
    pub secret_key: String,
    pub bucket: String,
}

/// The gRPC port where none is configured.
pub fn default_grpc_port() -> (r: u16)
    ensures
        r == 50051,
{
    50051
}

/// The RTMP port where none is configured.
pub fn default_rtmp_port() -> (r: u16)
    ensures
        r == 1935,
{
    1935
}

/// The RTMP application name where none is configured.
pub fn default_rtmp_app_name() -> (r: String)
    ensures
        r@ == "lives"@,
{
    "lives".to_owned()
}

/// The RTMP session TTL where none is configured.
pub fn default_rtmp_session_ttl_secs() -> (r: u64)
    ensures
        r == 30,
{
    30
}

/// The HTTP-FLV port where none is configured.
pub fn default_http_flv_port() -> (r: u16)
    ensures
        r == 8080,
{
    8080
}

/// The RTSP port where none is configured.
pub fn default_rtsp_port() -> (r: u16)
    ensures
        r == 8554,
{
    8554
}

/// The RTSP session TTL where none is configured.
pub fn default_rtsp_session_ttl_secs() -> (r: u64)
    ensures
        r == 30,
{
    30
}

/// The source-to-pipeline queue capacity where none is configured.
pub fn default_rtmp_forward_queue_capacity() -> (r: usize)
    ensures
        r == 8192,
{
    8192
}

/// The FLV relay queue capacity where none is configured.
pub fn default_flv_relay_queue_capacity() -> (r: usize)
    ensures
        r == 2048,
{
    2048
}

/// The control queue capacity where none is configured.
pub fn default_control_queue_capacity() -> (r: usize)
    ensures
        r == 1024,
{
    1024
}

/// The event queue capacity where none is configured.
pub fn default_event_queue_capacity() -> (r: usize)
    ensures
        r == 4096,
{
    4096
}

/// The packet relay queue capacity where none is configured.
pub fn default_packet_relay_queue_capacity() -> (r: usize)
    ensures
        r == 2048,
{
    2048
}

/// The ingest connection limit where none is configured.
pub fn default_max_connections() -> (r: usize)
    ensures
        r == 1000,
{
    1000
}

/// The HTTP-FLV connection limit where none is configured.
pub fn default_http_flv_max_connections() -> (r: usize)
    ensures
        r == 2000,
{
    2000
}

/// The transcoding bitrate where none is configured.
pub fn default_transcode_bitrate_kbps() -> (r: u64)
    ensures
        r == 1024,
{
    1024
}

/// The transcoding preset where none is configured.
pub fn default_transcode_preset() -> (r: String)
    ensures
        r@ == "veryfast"@,
{
    "veryfast".to_owned()
}

/// The keyframe interval where none is configured: two seconds.
pub fn default_transcode_gop_secs() -> (r: Binary64)
    ensures
        r.bits == 0x4000_0000_0000_0000,
{
    Binary64 { bits: 0x4000_0000_0000_0000 }
}

impl SegmentConfig {
    /// Whether this is the default configuration.
    pub open spec fn is_default(self) -> bool {
        &&& self.duration_secs == 10
        &&& self.cache_dir@ == Seq::<char>::empty()
        &&& self.playlist_size == 5
        &&& self.minio_prefix@ == "hls"@
        &&& self.max_staged_segments == 100
    }
}

impl TranscodeConfig {
    /// Whether this is the default configuration.
    pub open spec fn is_default(self) -> bool {
        &&& self.bitrate_kbps == 1024
        &&& self.preset@ == "veryfast"@
        &&& self.gop_secs.bits == 0x4000_0000_0000_0000
        &&& self.fps is None
    }
}

impl TransportConfig {
    /// Whether this is the default configuration.
    pub open spec fn is_default(self) -> bool {
        self.rtmp.is_default() && self.rtsp.is_default()
    }
}

impl ServiceConfig {
    /// Whether this is the default configuration.
    pub open spec fn is_default(self) -> bool {
        self.grpc.is_default() && self.http_flv.is_default()
    }
}

impl StorageConfig {
    /// Whether this is the default configuration.
    pub open spec fn is_default(self) -> bool {
        self.segment.is_default() && self.minio is None
    }
}

impl GrpcConfig {
    /// Whether this is the default configuration.
    pub open spec fn is_default(self) -> bool {
        self.port == 50051 && self.auth_token is None
    }
}

impl RtmpConfig {
    /// Whether this is the default configuration.
    pub open spec fn is_default(self) -> bool {
        &&& self.port == 1935
        &&& self.app_name@ == "lives"@
        &&& self.session_ttl_secs == 30
        &&& self.max_connections == 1000
    }
}

impl HttpFlvConfig {
    /// Whether this is the default configuration.
    pub open spec fn is_default(self) -> bool {
        !self.enabled && self.port == 8080 && self.max_connections == 2000
    }
}

impl RtspConfig {
    /// Whether this is the default configuration.
    pub open spec fn is_default(self) -> bool {
        self.port == 8554 && self.session_ttl_secs == 30 && self.max_connections == 1000
    }
}

impl QueueConfig {
    /// Whether this is the default configuration.
    pub open spec fn is_default(self) -> bool {
        &&& self.rtmp_forward == 8192
        &&& self.flv_relay == 2048
        &&& self.packet_relay == 2048
        &&& self.control == 1024
        &&& self.event == 4096
    }
}

impl Default for SegmentConfig {
    fn default() -> (r: Self)
        ensures
            r.is_default(),
    {
        SegmentConfig {
            duration_secs: 10,
            cache_dir: String::new(),
            playlist_size: 5,
            minio_prefix: "hls".to_owned(),
            max_staged_segments: 100,
        }
    }
}

impl Default for TranscodeConfig {
    fn default() -> (r: Self)
        ensures
            r.is_default(),
    {
        TranscodeConfig {
            bitrate_kbps: default_transcode_bitrate_kbps(),
            preset: default_transcode_preset(),
            gop_secs: default_transcode_gop_secs(),
            fps: None,
        }
    }
}

impl Default for GrpcConfig {
    fn default() -> (r: Self)
        ensures
            r.is_default(),
    {
        GrpcConfig { port: default_grpc_port(), auth_token: None }
    }
}

impl Default for RtmpConfig {
    fn default() -> (r: Self)
        ensures
            r.is_default(),
    {
        RtmpConfig {
            port: default_rtmp_port(),
            app_name: default_rtmp_app_name(),
            session_ttl_secs: default_rtmp_session_ttl_secs(),
            max_connections: default_max_connections(),
        }
    }
}

impl Default for HttpFlvConfig {
    fn default() -> (r: Self)
        ensures
            r.is_default(),
    {
        HttpFlvConfig {
            enabled: false,
            port: default_http_flv_port(),
            max_connections: default_http_flv_max_connections(),
        }
    }
}

impl Default for RtspConfig {
    fn default() -> (r: Self)
        ensures
            r.is_default(),
    {
        RtspConfig {
            port: default_rtsp_port(),
            session_ttl_secs: default_rtsp_session_ttl_secs(),
            max_connections: default_max_connections(),
        }
    }
}

impl Default for QueueConfig {
    fn default() -> (r: Self)
        ensures
            r.is_default(),
    {
        QueueConfig {
            rtmp_forward: default_rtmp_forward_queue_capacity(),
            flv_relay: default_flv_relay_queue_capacity(),
            packet_relay: default_packet_relay_queue_capacity(),
            control: default_control_queue_capacity(),
            event: default_event_queue_capacity(),
        }
    }
}

impl Default for TransportConfig {
    fn default() -> (r: Self)
        ensures
            r.is_default(),
    {
        TransportConfig { rtmp: RtmpConfig::default(), rtsp: RtspConfig::default() }
    }
}

impl Default for ServiceConfig {
    fn default() -> (r: Self)
        ensures
            r.is_default(),
    {
        ServiceConfig { grpc: GrpcConfig::default(), http_flv: HttpFlvConfig::default() }
    }
}

impl Default for StorageConfig {
    fn default() -> (r: Self)
        ensures
            r.is_default(),
    {
        StorageConfig { segment: SegmentConfig::default(), minio: None }
    }
}

/// Why a configuration is refused.
#[derive(Clone, Copy, Debug, PartialEq, Eq, Structural)]
pub enum ConfigError {
    RtmpSessionTtl(u64),
    RtmpPort,
    RtspSessionTtl(u64),
    RtspPort,
    SegmentDuration,
    SegmentCacheDir,
    QueueCapacity,
    TranscodeBitrate,
    TranscodeGop,
    TranscodePreset,
    TranscodeFps,
}

/// The words of an error and the number they end in, if any.
pub open spec fn config_error_text(e: ConfigError) -> (Seq<char>, Option<nat>) {
    match e {
        ConfigError::RtmpSessionTtl(n) => (
            "RTMP session TTL must be in 1..=86400 seconds, got "@,
            Some(n as nat),
        ),
        ConfigError::RtmpPort => ("RTMP port must be non-zero"@, None),
        ConfigError::RtspSessionTtl(n) => (
            "RTSP session TTL must be in 1..=86400 seconds, got "@,
            Some(n as nat),
        ),
        ConfigError::RtspPort => ("RTSP port must be non-zero"@, None),
        ConfigError::SegmentDuration => ("segment.duration_secs must be greater than 0"@, None),
        ConfigError::SegmentCacheDir => ("segment.cache_dir cannot be '.' or '..'"@, None),
        ConfigError::QueueCapacity => ("All queue capacities must be greater than 0"@, None),
        ConfigError::TranscodeBitrate => (
            "transcode.bitrate_kbps must be greater than 0"@,
            None,
        ),
        ConfigError::TranscodeGop => ("transcode.gop_secs must be greater than 0"@, None),
        ConfigError::TranscodePreset => ("transcode.preset must not be empty"@, None),
        ConfigError::TranscodeFps => ("transcode.fps must be greater than 0 when set"@, None),
    }
}

impl ConfigError {
    /// The error as text.
    pub fn message(&self) -> (r: String)
        ensures
            r@ == match config_error_text(*self) {
                (words, Some(n)) => words + decimal(n),
                (words, None) => words,
            },
    {
        let (words, number): (&str, Option<u64>) = match self {
            ConfigError::RtmpSessionTtl(n) => (
                "RTMP session TTL must be in 1..=86400 seconds, got ",
                Some(*n),
            ),
            ConfigError::RtmpPort => ("RTMP port must be non-zero", None),
            ConfigError::RtspSessionTtl(n) => (
                "RTSP session TTL must be in 1..=86400 seconds, got ",
                Some(*n),
            ),
            ConfigError::RtspPort => ("RTSP port must be non-zero", None),
            ConfigError::SegmentDuration => ("segment.duration_secs must be greater than 0", None),
            ConfigError::SegmentCacheDir => ("segment.cache_dir cannot be '.' or '..'", None),
            ConfigError::QueueCapacity => ("All queue capacities must be greater than 0", None),
            ConfigError::TranscodeBitrate => (
                "transcode.bitrate_kbps must be greater than 0",
                None,
            ),
            ConfigError::TranscodeGop => ("transcode.gop_secs must be greater than 0", None),
            ConfigError::TranscodePreset => ("transcode.preset must not be empty", None),
            ConfigError::TranscodeFps => ("transcode.fps must be greater than 0 when set", None),
        };
        let mut text: String = words.to_owned();
        if let Some(n) = number {
            push_decimal(&mut text, n);
        }
        text
    }
}

/// Whether a session TTL is within its range.
pub open spec fn ttl_in_range(secs: u64) -> bool {
    1 <= secs <= 86_400
}

impl RtmpConfig {
    /// What is wrong with the configuration, the TTL first.
    pub open spec fn fault(self) -> Option<ConfigError> {
        if !ttl_in_range(self.session_ttl_secs) {
            Some(ConfigError::RtmpSessionTtl(self.session_ttl_secs))
        } else if self.port == 0 {
            Some(ConfigError::RtmpPort)
        } else {
            None
        }
    }

    /// Checks the configuration.
    pub fn validate(&self) -> (r: Result<(), ConfigError>)
        ensures
            r == verdict(self.fault()),
    {
        if self.session_ttl_secs < MIN_SESSION_TTL_SECS || self.session_ttl_secs
            > MAX_SESSION_TTL_SECS {
            return Err(ConfigError::RtmpSessionTtl(self.session_ttl_secs));
        }
        if self.port == 0 {
            return Err(ConfigError::RtmpPort);
        }
        Ok(())
    }
}

impl RtspConfig {
    /// What is wrong with the configuration, the TTL first.
    pub open spec fn fault(self) -> Option<ConfigError> {
        if !ttl_in_range(self.session_ttl_secs) {
            Some(ConfigError::RtspSessionTtl(self.session_ttl_secs))
        } else if self.port == 0 {
            Some(ConfigError::RtspPort)
        } else {
            None
        }
    }

    /// Checks the configuration.
    pub fn validate(&self) -> (r: Result<(), ConfigError>)
        ensures
            r == verdict(self.fault()),
    {
        if self.session_ttl_secs < MIN_SESSION_TTL_SECS || self.session_ttl_secs
            > MAX_SESSION_TTL_SECS {
            return Err(ConfigError::RtspSessionTtl(self.session_ttl_secs));
        }
        if self.port == 0 {
            return Err(ConfigError::RtspPort);
        }
        Ok(())
    }
}

impl TransportConfig {
    /// What is wrong with the configuration, RTMP first.
    pub open spec fn fault(self) -> Option<ConfigError> {
        match self.rtmp.fault() {
            Some(e) => Some(e),
            None => self.rtsp.fault(),
        }
    }

    /// Checks the configuration.
    pub fn validate(&self) -> (r: Result<(), ConfigError>)
        ensures
            r == verdict(self.fault()),
    {
        match self.rtmp.validate() {
            Err(e) => Err(e),
            Ok(_) => self.rtsp.validate(),
        }
    }
}

impl StorageConfig {
    /// What is wrong with the configuration, the duration first. An empty cache
    /// directory is valid: it stands for the system's temporary directory.
    pub open spec fn fault(self) -> Option<ConfigError> {
        if self.segment.duration_secs == 0 {
            Some(ConfigError::SegmentDuration)
        } else if trimmed(self.segment.cache_dir@) == "."@ || trimmed(self.segment.cache_dir@)
            == ".."@ {
            Some(ConfigError::SegmentCacheDir)
        } else {
            None
        }
    }

    /// Checks the configuration.
    pub fn validate(&self) -> (r: Result<(), ConfigError>)
        ensures
            r == verdict(self.fault()),
    {
        if self.segment.duration_secs == 0 {
            return Err(ConfigError::SegmentDuration);
        }
        let cache_dir: String = trim(self.segment.cache_dir.as_str());
        if str_eq(cache_dir.as_str(), ".") || str_eq(cache_dir.as_str(), "..") {
            return Err(ConfigError::SegmentCacheDir);
        }
        Ok(())
    }
}

impl QueueConfig {
    /// What is wrong with the configuration.
    pub open spec fn fault(self) -> Option<ConfigError> {
        if self.rtmp_forward == 0 || self.flv_relay == 0 || self.packet_relay == 0 || self.control
            == 0 || self.event == 0 {
            Some(ConfigError::QueueCapacity)
        } else {
            None
        }
    }

    /// Checks the configuration.
    pub fn validate(&self) -> (r: Result<(), ConfigError>)
        ensures
            r == verdict(self.fault()),
    {
        if self.rtmp_forward == 0 || self.flv_relay == 0 || self.packet_relay == 0 || self.control
            == 0 || self.event == 0 {
            return Err(ConfigError::QueueCapacity);
        }
        Ok(())
    }
}

impl TranscodeConfig {
    /// What is wrong with the configuration: bitrate, keyframe interval, preset
    /// and frame rate, in this order.
    pub open spec fn fault(self) -> Option<ConfigError> {
        if self.bitrate_kbps == 0 {
            Some(ConfigError::TranscodeBitrate)
        } else if self.gop_secs.at_most_zero() {
            Some(ConfigError::TranscodeGop)
        } else if self.preset@.len() == 0 {
            Some(ConfigError::TranscodePreset)
        } else if self.fps is Some && self.fps->0.at_most_zero() {
            Some(ConfigError::TranscodeFps)
        } else {
            None
        }
    }

    /// Checks the configuration.
    pub fn validate(&self) -> (r: Result<(), ConfigError>)
        ensures
            r == verdict(self.fault()),
    {
        if self.bitrate_kbps == 0 {
            return Err(ConfigError::TranscodeBitrate);
        }
        if self.gop_secs.is_at_most_zero() {
            return Err(ConfigError::TranscodeGop);
        }
        if self.preset.as_str().is_empty() {
            return Err(ConfigError::TranscodePreset);
        }
        if let Some(fps) = self.fps {
            if fps.is_at_most_zero() {
                return Err(ConfigError::TranscodeFps);
            }
        }
        Ok(())
    }
}

/// A configuration key and the variable of the older naming that overrides it.
#[derive(Clone, Debug)]
pub struct EnvOverride {
    pub key: String,
    pub variable: String,
}

/// The configuration keys that variables of the older naming override.
pub fn legacy_env_overrides() -> (r: Vec<EnvOverride>)
    ensures
        r@.len() == 4,
        r@[0].key@ == "minio.uri"@ && r@[0].variable@ == "MINIO_URI"@,
        r@[1].key@ == "minio.access_key"@ && r@[1].variable@ == "MINIO_ACCESSKEY"@,
        r@[2].key@ == "minio.secret_key"@ && r@[2].variable@ == "MINIO_SECRETKEY"@,
        r@[3].key@ == "minio.bucket"@ && r@[3].variable@ == "MINIO_BUCKET"@,
{
    let mut out: Vec<EnvOverride> = Vec::new();
    out.push(EnvOverride { key: "minio.uri".to_owned(), variable: "MINIO_URI".to_owned() });
    out.push(
        EnvOverride {
            key: "minio.access_key".to_owned(),
            variable: "MINIO_ACCESSKEY".to_owned(),
        },
    );
    out.push(
        EnvOverride {
            key: "minio.secret_key".to_owned(),
            variable: "MINIO_SECRETKEY".to_owned(),
        },
    );
    out.push(EnvOverride { key: "minio.bucket".to_owned(), variable: "MINIO_BUCKET".to_owned() });
    out
}

/// The verdict that a fault, or none, amounts to.
pub open spec fn verdict(fault: Option<ConfigError>) -> Result<(), ConfigError> {
    match fault {
        Some(e) => Err(e),
        None => Ok(()),
    }
}

impl AppConfig {
    /// What is wrong with the configuration: the first fault of transport,
    /// storage, queues and transcoding.
    pub open spec fn fault(self) -> Option<ConfigError> {
        if self.transport.fault() is Some {
            self.transport.fault()
        } else if self.storage.fault() is Some {
            self.storage.fault()
        } else if self.queue.fault() is Some {
            self.queue.fault()
        } else {
            self.transcode.fault()
        }
    }

    /// Checks the whole configuration.
    pub fn validate(&self) -> (r: Result<(), ConfigError>)
        ensures
            r == verdict(self.fault()),
    {
        if let Err(e) = self.transport.validate() {
            return Err(e);
        }
        if let Err(e) = self.storage.validate() {
            return Err(e);
        }
        if let Err(e) = self.queue.validate() {
            return Err(e);
        }
        self.transcode.validate()
    }
}

/// The default configuration is accepted.
pub proof fn law_defaults_are_valid(cfg: AppConfig)
    requires
        cfg.transport.is_default(),
        cfg.storage.is_default(),
        cfg.queue.is_default(),
        cfg.transcode.is_default(),
    ensures
        cfg.fault() is None,
{
    reveal_strlit(".");
    reveal_strlit("..");
    reveal_strlit("veryfast");
    assert(trimmed(cfg.storage.segment.cache_dir@) =~= Seq::<char>::empty());
}

/// A number is at most zero by its bits: it is no NaN, and is zero or has its sign set.
/// The sign is the top bit; the others are zero for either zero, and past those of
/// infinity for a NaN.
pub proof fn law_at_most_zero_by_bits(x: Binary64)
    ensures
        ({
            let magnitude = x.bits % 0x8000_0000_0000_0000;
            let negative = x.bits >= 0x8000_0000_0000_0000;
            let nan = magnitude > 0x7FF0_0000_0000_0000;
            x.at_most_zero() <==> !nan && (negative || magnitude == 0)
        }),
{
}

/// A configuration is accepted exactly where all of this holds: session TTLs from 1 to
/// 86400 seconds, ports other than 0, a segment duration, a cache directory other than
/// `.` and `..`, room in every queue, a bitrate, a keyframe interval above zero, a
/// preset, and a frame rate above zero where one is set.
pub proof fn law_what_is_accepted(cfg: AppConfig)
    ensures
        cfg.fault() is None <==> {
            let dir = trimmed(cfg.storage.segment.cache_dir@);
            &&& 1 <= cfg.transport.rtmp.session_ttl_secs <= 86400
            &&& 1 <= cfg.transport.rtsp.session_ttl_secs <= 86400
            &&& cfg.transport.rtmp.port > 0
            &&& cfg.transport.rtsp.port > 0
            &&& cfg.storage.segment.duration_secs > 0
            &&& !(dir.len() == 1 && dir[0] == '.')
            &&& !(dir.len() == 2 && dir[0] == '.' && dir[1] == '.')
            &&& cfg.queue.rtmp_forward > 0
            &&& cfg.queue.flv_relay > 0
            &&& cfg.queue.packet_relay > 0
            &&& cfg.queue.control > 0
            &&& cfg.queue.event > 0
            &&& cfg.transcode.bitrate_kbps > 0
            &&& !cfg.transcode.gop_secs.at_most_zero()
            &&& cfg.transcode.preset@.len() > 0
            &&& cfg.transcode.fps matches Some(fps) ==> !fps.at_most_zero()
        },
{
    reveal_strlit(".");
    reveal_strlit("..");
    let dir = trimmed(cfg.storage.segment.cache_dir@);
    assert(dir.len() == 1 && dir[0] == '.' ==> dir =~= "."@);
    assert(dir.len() == 2 && dir[0] == '.' && dir[1] == '.' ==> dir =~= ".."@);
}

/// What is reported is what is wrong: an error names a part that is at fault, and a TTL
/// with its value.
pub proof fn law_faults_are_named(cfg: AppConfig)
    ensures
        match cfg.fault() {
            None => true,
            Some(ConfigError::RtmpSessionTtl(n)) => n == cfg.transport.rtmp.session_ttl_secs && !(1
                <= n <= 86400),
            Some(ConfigError::RtmpPort) => cfg.transport.rtmp.port == 0,
            Some(ConfigError::RtspSessionTtl(n)) => n == cfg.transport.rtsp.session_ttl_secs && !(1
                <= n <= 86400),
            Some(ConfigError::RtspPort) => cfg.transport.rtsp.port == 0,
            Some(ConfigError::SegmentDuration) => cfg.storage.segment.duration_secs == 0,
            Some(ConfigError::SegmentCacheDir) => {
                let dir = trimmed(cfg.storage.segment.cache_dir@);
                1 <= dir.len() <= 2 && forall|i: int| 0 <= i < dir.len() ==> #[trigger] dir[i] == '.'
            },
            Some(ConfigError::QueueCapacity) => cfg.queue.rtmp_forward == 0 || cfg.queue.flv_relay
                == 0 || cfg.queue.packet_relay == 0 || cfg.queue.control == 0 || cfg.queue.event
                == 0,
            Some(ConfigError::TranscodeBitrate) => cfg.transcode.bitrate_kbps == 0,
            Some(ConfigError::TranscodeGop) => cfg.transcode.gop_secs.at_most_zero(),
            Some(ConfigError::TranscodePreset) => cfg.transcode.preset@.len() == 0,
            Some(ConfigError::TranscodeFps) => cfg.transcode.fps matches Some(fps)
                && fps.at_most_zero(),
        },
{
    reveal_strlit(".");
    reveal_strlit("..");
}

/// The verdict on a configuration is its first fault: RTMP before RTSP, and within each
/// the TTL before the port; then storage, then queues, then transcoding.
pub proof fn law_first_fault_is_reported(cfg: AppConfig)
    ensures
        !(1 <= cfg.transport.rtmp.session_ttl_secs <= 86400) ==> cfg.fault() == Some(
            ConfigError::RtmpSessionTtl(cfg.transport.rtmp.session_ttl_secs),
        ),
        1 <= cfg.transport.rtmp.session_ttl_secs <= 86400 && cfg.transport.rtmp.port == 0
            ==> cfg.fault() == Some(ConfigError::RtmpPort),
        cfg.transport.rtmp.fault() is None && !(1 <= cfg.transport.rtsp.session_ttl_secs <= 86400)
            ==> cfg.fault() == Some(
            ConfigError::RtspSessionTtl(cfg.transport.rtsp.session_ttl_secs),
        ),
        cfg.transport.fault() is None && cfg.storage.segment.duration_secs == 0 ==> cfg.fault()
            == Some(ConfigError::SegmentDuration),
        cfg.transport.fault() is None && cfg.storage.fault() is None && cfg.queue.fault() is Some
            ==> cfg.fault() == Some(ConfigError::QueueCapacity),
        cfg.transport.fault() is None && cfg.storage.fault() is None && cfg.queue.fault() is None
            && cfg.transcode.bitrate_kbps == 0 ==> cfg.fault() == Some(
            ConfigError::TranscodeBitrate,
        ),
        verdict(None) is Ok,
        cfg.fault() is Some ==> verdict(cfg.fault()) == Err::<(), ConfigError>(cfg.fault()->0),
{
}

/// What holds where nothing is configured: the ports, limits, queues and settings that
/// the server documents.
pub proof fn law_defaults_as_documented(
    transport: TransportConfig,
    service: ServiceConfig,
    storage: StorageConfig,
    queue: QueueConfig,
    transcode: TranscodeConfig,
)
    requires
        transport.is_default(),
        service.is_default(),
        storage.is_default(),
        queue.is_default(),
        transcode.is_default(),
    ensures
        (transport.rtmp.port, transport.rtsp.port) == (1935u16, 8554u16),
        (service.grpc.port, service.http_flv.port) == (50051u16, 8080u16),
        service.grpc.auth_token is None && !service.http_flv.enabled,
        transport.rtmp.session_ttl_secs == 30 && transport.rtsp.session_ttl_secs == 30,
        transport.rtmp.max_connections == 1000 && transport.rtsp.max_connections == 1000,
        service.http_flv.max_connections == 2000,
        transport.rtmp.app_name@ == "lives"@,
        storage.minio is None,
        storage.segment.duration_secs == 10 && storage.segment.playlist_size == 5,
        storage.segment.max_staged_segments == 100,
        storage.segment.cache_dir@.len() == 0,
        storage.segment.minio_prefix@ == "hls"@,
        (queue.rtmp_forward, queue.flv_relay, queue.packet_relay) == (
            8192usize,
            2048usize,
            2048usize,
        ),
        (queue.control, queue.event) == (1024usize, 4096usize),
        transcode.bitrate_kbps == 1024 && transcode.preset@ == "veryfast"@,
        transcode.fps is None,
        transcode.gop_secs.bits == 1u64 << 62u64,
{
    assert(1u64 << 62u64 == 0x4000_0000_0000_0000u64) by (bit_vector);
}

/// Every message names the setting that is at fault and what it must be, and a time to
/// live tells the one that was set.
pub proof fn law_messages_name_the_setting(e: ConfigError, r: String)
    requires
        call_ensures(ConfigError::message, (&e,), r),
    ensures
        e matches ConfigError::RtmpSessionTtl(n) ==> r@
            == "RTMP session TTL must be in 1..=86400 seconds, got "@ + decimal(n as nat),
        e matches ConfigError::RtspSessionTtl(n) ==> r@
            == "RTSP session TTL must be in 1..=86400 seconds, got "@ + decimal(n as nat),
        e is RtmpPort ==> r@ == "RTMP port must be non-zero"@,
        e is RtspPort ==> r@ == "RTSP port must be non-zero"@,
        e is SegmentDuration ==> r@ == "segment.duration_secs must be greater than 0"@,
        e is SegmentCacheDir ==> r@ == "segment.cache_dir cannot be '.' or '..'"@,
        e is QueueCapacity ==> r@ == "All queue capacities must be greater than 0"@,
        e is TranscodeBitrate ==> r@ == "transcode.bitrate_kbps must be greater than 0"@,
        e is TranscodeGop ==> r@ == "transcode.gop_secs must be greater than 0"@,
        e is TranscodePreset ==> r@ == "transcode.preset must not be empty"@,
        e is TranscodeFps ==> r@ == "transcode.fps must be greater than 0 when set"@,
{
}

} // verus!
