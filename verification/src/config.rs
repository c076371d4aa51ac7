//! Settings of a client.

use vstd::prelude::*;

verus! {

/// A span of time.
#[derive(Clone, Copy, Debug, PartialEq, Eq, Structural)]
pub struct Duration {
    pub secs: u64,
    pub nanos: u32,
}

impl Duration {
    /// A span of whole seconds.
    pub fn from_secs(secs: u64) -> (r: Duration)
        ensures
            r == (Duration { secs, nanos: 0 }),
    {
        Duration { secs, nanos: 0 }
    }
}

/// The versions of HTTP that a client speaks.
#[derive(Clone, Copy, Debug, PartialEq, Eq, Structural)]
pub enum Ver {
    /// What the connection negotiates.
    Auto,
    /// HTTP/2 only.
    Http2,
}

/// How a client treats requests.
#[derive(Clone, Copy, Debug, PartialEq, Eq, Structural)]
pub struct Config {
    pub retry_canceled_requests: bool,
    pub set_host: bool,
    pub ver: Ver,
}

/// How a client keeps idle connections.
#[derive(Clone, Copy, Debug, PartialEq, Eq, Structural)]
pub struct PoolConfig {
    pub idle_timeout: Option<Duration>,
    pub max_idle_per_host: usize,
}

impl PoolConfig {
    /// Whether any idle connection is kept.
    pub fn is_enabled(&self) -> (r: bool)
        ensures
            r == (self.max_idle_per_host > 0),
    {
        self.max_idle_per_host > 0
    }
}

/// The default connector, which speaks plain TCP.
#[derive(Clone, Copy, Debug, PartialEq, Eq, Structural)]
pub struct HttpConnector {
    /// How long a socket is idle before it is probed, where it is at all.
    pub keepalive: Option<Duration>,
}

impl HttpConnector {
    /// A connector that probes no socket.
    pub fn new() -> (r: HttpConnector)
        ensures
            r == (HttpConnector { keepalive: None }),
    {
        HttpConnector { keepalive: None }
    }

    /// Sets how long a socket is idle before it is probed.
    pub fn set_keepalive(&mut self, dur: Option<Duration>)
        ensures
            *final(self) == (HttpConnector { keepalive: dur }),
    {
        self.keepalive = dur;
    }
}

/// The least that the buffer of an HTTP/1 connection may be limited to.
pub const MINIMUM_MAX_BUF_SIZE: usize = 8192;

/// The flow-control windows that adaptive flow control starts from.
pub const ADAPTIVE_WINDOW_SIZE: u32 = 65_535;

/// Options of HTTP/1 connections. What is `None` is left to the connection.
#[derive(Clone, Copy, Debug, PartialEq, Eq, Structural)]
pub struct Http1Options {
    pub read_buf_exact_size: Option<usize>,
    pub max_buf_size: Option<usize>,
    pub allow_spaces_after_header_name_in_responses: bool,
    pub allow_obsolete_multiline_headers_in_responses: bool,
    pub ignore_invalid_headers_in_responses: bool,
    pub writev: Option<bool>,
    pub title_case_headers: bool,
    pub preserve_header_case: bool,
    pub http09_responses: bool,
}

/// Buffers and writes as the connection has them, and nothing lenient.
pub open spec fn http1_defaults() -> Http1Options {
    Http1Options {
        read_buf_exact_size: None,
        max_buf_size: None,
        allow_spaces_after_header_name_in_responses: false,
        allow_obsolete_multiline_headers_in_responses: false,
        ignore_invalid_headers_in_responses: false,
        writev: None,
        title_case_headers: false,
        preserve_header_case: false,
        http09_responses: false,
    }
}

impl Http1Options {
    /// At most one of the two buffer sizes is set, and the limit is not below the
    /// minimum.
    pub open spec fn valid(self) -> bool {
        &&& self.read_buf_exact_size is None || self.max_buf_size is None
        &&& self.max_buf_size matches Some(max) ==> max >= MINIMUM_MAX_BUF_SIZE
    }

    /// The defaults.
    pub fn new() -> (r: Http1Options)
        ensures
            r == http1_defaults(),
            r.valid(),
    {
        Http1Options {
            read_buf_exact_size: None,
            max_buf_size: None,
            allow_spaces_after_header_name_in_responses: false,
            allow_obsolete_multiline_headers_in_responses: false,
            ignore_invalid_headers_in_responses: false,
            writev: None,
            title_case_headers: false,
            preserve_header_case: false,
            http09_responses: false,
        }
    }
}

/// Options of HTTP/2 connections. What is `None` is left to the connection, but
/// for the interval of keep-alive pings: without one there are none.
#[derive(Clone, Copy, Debug, PartialEq, Eq, Structural)]
pub struct Http2Options {
    pub adaptive_window: bool,
    pub initial_stream_window_size: Option<u32>,
    pub initial_connection_window_size: Option<u32>,
    pub max_frame_size: Option<u32>,
    pub keep_alive_interval: Option<Duration>,
    pub keep_alive_timeout: Duration,
    pub keep_alive_while_idle: bool,
    pub max_concurrent_reset_streams: Option<usize>,
    pub max_send_buf_size: Option<usize>,
}

/// Windows and sizes as the connection has them; no keep-alive pings, each of
/// which would be given twenty seconds.
pub open spec fn http2_defaults() -> Http2Options {
    Http2Options {
        adaptive_window: false,
        initial_stream_window_size: None,
        initial_connection_window_size: None,
        max_frame_size: None,
        keep_alive_interval: None,
        keep_alive_timeout: Duration { secs: 20, nanos: 0 },
        keep_alive_while_idle: false,
        max_concurrent_reset_streams: None,
        max_send_buf_size: None,
    }
}

impl Http2Options {
    /// Adaptive flow control starts from its own windows, and a buffer size fits
    /// in 32 bits.
    pub open spec fn valid(self) -> bool {
        &&& self.adaptive_window ==> {
            &&& self.initial_stream_window_size == Some(ADAPTIVE_WINDOW_SIZE)
            &&& self.initial_connection_window_size == Some(ADAPTIVE_WINDOW_SIZE)
        }
        &&& self.max_send_buf_size matches Some(max) ==> max <= u32::MAX
    }

    /// The defaults.
    pub fn new() -> (r: Http2Options)
        ensures
            r == http2_defaults(),
            r.valid(),
    {
        Http2Options {
            adaptive_window: false,
            initial_stream_window_size: None,
            initial_connection_window_size: None,
            max_frame_size: None,
            keep_alive_interval: None,
            keep_alive_timeout: Duration::from_secs(20),
            keep_alive_while_idle: false,
            max_concurrent_reset_streams: None,
            max_send_buf_size: None,
        }
    }
}

} // verus!
