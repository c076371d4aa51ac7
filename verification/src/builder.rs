//! The builder of a client.

use std::marker::PhantomData;
use std::sync::Arc;

use vstd::prelude::*;

use crate::client::Client;
use crate::config::{
    http1_defaults, http2_defaults, Config, Duration, Http1Options, Http2Options, HttpConnector,
    PoolConfig, Ver, ADAPTIVE_WINDOW_SIZE, MINIMUM_MAX_BUF_SIZE,
};
use crate::pool::cloned_option;

verus! {

/// A builder to configure a new client, with an executor of type `E` for its
/// background tasks and a timer of type `T` for those of HTTP/2.
#[derive(Debug)]
pub struct Builder<E, T> {
    pub client_config: Config,
    pub executor: E,
    pub h1: Http1Options,
    pub h2: Http2Options,
    pub h2_timer: Option<T>,
    pub pool_config: PoolConfig,
}

impl<E, T> Builder<E, T> {
    /// The options that a builder holds go together.
    pub open spec fn valid(self) -> bool {
        self.h1.valid() && self.h2.valid()
    }

    /// The builder holds the given executor, and the defaults: requests are retried
    /// and given a `Host` header, connections negotiate their version, and any
    /// number of them is kept for ninety seconds.
    pub open spec fn is_new(self, executor: E) -> bool {
        &&& self.client_config == Config {
            retry_canceled_requests: true,
            set_host: true,
            ver: Ver::Auto,
        }
        &&& self.executor == executor
        &&& self.h1 == http1_defaults()
        &&& self.h2 == http2_defaults()
        &&& self.h2_timer is None
        &&& self.pool_config == PoolConfig {
            idle_timeout: Some(Duration { secs: 90, nanos: 0 }),
            max_idle_per_host: usize::MAX,
        }
    }

    /// Construct a new builder.
    pub fn new(executor: E) -> (r: Builder<E, T>)
        ensures
            r.is_new(executor),
            r.valid(),
    {
        Builder {
            client_config: Config { retry_canceled_requests: true, set_host: true, ver: Ver::Auto },
            executor,
            h1: Http1Options::new(),
            h2: Http2Options::new(),
            h2_timer: None,
            pool_config: PoolConfig {
                idle_timeout: Some(Duration::from_secs(90)),
                max_idle_per_host: usize::MAX,
            },
        }
    }

    /// Set an optional timeout for idle sockets being kept alive.
    ///
    /// Pass `None` to disable the timeout. The default is ninety seconds.
    pub fn pool_idle_timeout(&mut self, val: Option<Duration>) -> (r: &mut Self)
        ensures
            *r == (Builder { pool_config: PoolConfig { idle_timeout: val, ..old(self).pool_config }, ..*old(self) }),
            *final(self) == *final(r),
            old(self).valid() ==> r.valid(),
    {
        self.pool_config.idle_timeout = val;
        self
    }

    /// Another name of [`Builder::pool_max_idle_per_host`].
    pub fn max_idle_per_host(&mut self, max_idle: usize) -> (r: &mut Self)
        ensures
            *r == (Builder { pool_config: PoolConfig { max_idle_per_host: max_idle, ..old(self).pool_config }, ..*old(self) }),
            *final(self) == *final(r),
            old(self).valid() ==> r.valid(),
    {
        self.pool_config.max_idle_per_host = max_idle;
        self
    }

    /// Sets the maximum of idle connections per host allowed in the pool.
    ///
    /// The default is no limit.
    pub fn pool_max_idle_per_host(&mut self, max_idle: usize) -> (r: &mut Self)
        ensures
            *r == (Builder { pool_config: PoolConfig { max_idle_per_host: max_idle, ..old(self).pool_config }, ..*old(self) }),
            *final(self) == *final(r),
            old(self).valid() ==> r.valid(),
    {
        self.pool_config.max_idle_per_host = max_idle;
        self
    }

    /// Sets the exact size of the read buffer to *always* use.
    ///
    /// This unsets the maximum of [`Builder::http1_max_buf_size`]. The default is an
    /// adaptive read buffer.
    pub fn http1_read_buf_exact_size(&mut self, sz: usize) -> (r: &mut Self)
        ensures
            *r == (Builder { h1: Http1Options { read_buf_exact_size: Some(sz), max_buf_size: None, ..old(self).h1 }, ..*old(self) }),
            *final(self) == *final(r),
            old(self).valid() ==> r.valid(),
    {
        self.h1.read_buf_exact_size = Some(sz);
        self.h1.max_buf_size = None;
        self
    }

    /// Set the maximum buffer size for the connection.
    ///
    /// This unsets the size of [`Builder::http1_read_buf_exact_size`]. No maximum below
    /// [`MINIMUM_MAX_BUF_SIZE`] is allowed.
    pub fn http1_max_buf_size(&mut self, max: usize) -> (r: &mut Self)
        requires
            max >= MINIMUM_MAX_BUF_SIZE,
        ensures
            *r == (Builder { h1: Http1Options { max_buf_size: Some(max), read_buf_exact_size: None, ..old(self).h1 }, ..*old(self) }),
            *final(self) == *final(r),
            old(self).valid() ==> r.valid(),
    {
        self.h1.max_buf_size = Some(max);
        self.h1.read_buf_exact_size = None;
        self
    }

    /// Set whether HTTP/1 connections will accept spaces between header names and the
    /// colon that follows them in responses. The default is false.
    pub fn http1_allow_spaces_after_header_name_in_responses(&mut self, val: bool) -> (r: &mut Self)
        ensures
            *r == (Builder { h1: Http1Options { allow_spaces_after_header_name_in_responses: val, ..old(self).h1 }, ..*old(self) }),
            *final(self) == *final(r),
            old(self).valid() ==> r.valid(),
    {
        self.h1.allow_spaces_after_header_name_in_responses = val;
        self
    }

    /// Set whether HTTP/1 connections will accept obsolete line folding for header
    /// values. The default is false.
    pub fn http1_allow_obsolete_multiline_headers_in_responses(&mut self, val: bool) -> (r: &mut Self)
        ensures
            *r == (Builder { h1: Http1Options { allow_obsolete_multiline_headers_in_responses: val, ..old(self).h1 }, ..*old(self) }),
            *final(self) == *final(r),
            old(self).valid() ==> r.valid(),
    {
        self.h1.allow_obsolete_multiline_headers_in_responses = val;
        self
    }

    /// Sets whether invalid header lines should be silently ignored in HTTP/1
    /// responses. The default is false.
    pub fn http1_ignore_invalid_headers_in_responses(&mut self, val: bool) -> (r: &mut Self)
        ensures
            *r == (Builder { h1: Http1Options { ignore_invalid_headers_in_responses: val, ..old(self).h1 }, ..*old(self) }),
            *final(self) == *final(r),
            old(self).valid() ==> r.valid(),
    {
        self.h1.ignore_invalid_headers_in_responses = val;
        self
    }

    /// Set whether HTTP/1 connections should try to use vectored writes, or always
    /// flatten into a single buffer. The default is left to the connection.
    pub fn http1_writev(&mut self, enabled: bool) -> (r: &mut Self)
        ensures
            *r == (Builder { h1: Http1Options { writev: Some(enabled), ..old(self).h1 }, ..*old(self) }),
            *final(self) == *final(r),
            old(self).valid() ==> r.valid(),
    {
        self.h1.writev = Some(enabled);
        self
    }

    /// Set whether HTTP/1 connections will write header names as title case at the
    /// socket level. The default is false.
    pub fn http1_title_case_headers(&mut self, val: bool) -> (r: &mut Self)
        ensures
            *r == (Builder { h1: Http1Options { title_case_headers: val, ..old(self).h1 }, ..*old(self) }),
            *final(self) == *final(r),
            old(self).valid() ==> r.valid(),
    {
        self.h1.title_case_headers = val;
        self
    }

    /// Set whether to support preserving original header cases. The default is false.
    pub fn http1_preserve_header_case(&mut self, val: bool) -> (r: &mut Self)
        ensures
            *r == (Builder { h1: Http1Options { preserve_header_case: val, ..old(self).h1 }, ..*old(self) }),
            *final(self) == *final(r),
            old(self).valid() ==> r.valid(),
    {
        self.h1.preserve_header_case = val;
        self
    }

    /// Set whether HTTP/0.9 responses should be tolerated. The default is false.
    pub fn http09_responses(&mut self, val: bool) -> (r: &mut Self)
        ensures
            *r == (Builder { h1: Http1Options { http09_responses: val, ..old(self).h1 }, ..*old(self) }),
            *final(self) == *final(r),
            old(self).valid() ==> r.valid(),
    {
        self.h1.http09_responses = val;
        self
    }

    /// Set whether the connection **must** use HTTP/2.
    ///
    /// Setting this to true prevents HTTP/1 from being allowed. The default is false.
    pub fn http2_only(&mut self, val: bool) -> (r: &mut Self)
        ensures
            *r == (Builder { client_config: Config { ver: if val { Ver::Http2 } else { Ver::Auto }, ..old(self).client_config }, ..*old(self) }),
            *final(self) == *final(r),
            old(self).valid() ==> r.valid(),
    {
        self.client_config.ver = if val {
            Ver::Http2
        } else {
            Ver::Auto
        };
        self
    }

    /// Sets the initial window size of HTTP/2 stream-level flow control, and leaves
    /// adaptive flow control.
    ///
    /// Passing `None` will do nothing.
    pub fn http2_initial_stream_window_size(&mut self, sz: Option<u32>) -> (r: &mut Self)
        ensures
            *r == (match sz {
                Some(_) => Builder {
                    h2: Http2Options { adaptive_window: false, initial_stream_window_size: sz, ..old(self).h2 },
                    ..*old(self)
                },
                None => *old(self),
            }),
            *final(self) == *final(r),
            old(self).valid() ==> r.valid(),
    {
        if sz.is_some() {
            self.h2.adaptive_window = false;
            self.h2.initial_stream_window_size = sz;
        }
        self
    }

    /// Sets the maximum of HTTP/2 connection-level flow control, and leaves adaptive
    /// flow control.
    ///
    /// Passing `None` will do nothing.
    pub fn http2_initial_connection_window_size(&mut self, sz: Option<u32>) -> (r: &mut Self)
        ensures
            *r == (match sz {
                Some(_) => Builder {
                    h2: Http2Options { adaptive_window: false, initial_connection_window_size: sz, ..old(self).h2 },
                    ..*old(self)
                },
                None => *old(self),
            }),
            *final(self) == *final(r),
            old(self).valid() ==> r.valid(),
    {
        if sz.is_some() {
            self.h2.adaptive_window = false;
            self.h2.initial_connection_window_size = sz;
        }
        self
    }

    /// Sets whether to use an adaptive flow control.
    ///
    /// Enabling this will override the limits set in
    /// [`Builder::http2_initial_stream_window_size`] and
    /// [`Builder::http2_initial_connection_window_size`].
    pub fn http2_adaptive_window(&mut self, enabled: bool) -> (r: &mut Self)
        ensures
            enabled ==> *r == (Builder {
                h2: Http2Options {
                    adaptive_window: true,
                    initial_stream_window_size: Some(ADAPTIVE_WINDOW_SIZE),
                    initial_connection_window_size: Some(ADAPTIVE_WINDOW_SIZE),
                    ..old(self).h2
                },
                ..*old(self)
            }),
            !enabled ==> *r == (Builder {
                h2: Http2Options { adaptive_window: false, ..old(self).h2 },
                ..*old(self)
            }),
            *final(self) == *final(r),
            old(self).valid() ==> r.valid(),
    {
        self.h2.adaptive_window = enabled;
        if enabled {
            self.h2.initial_connection_window_size = Some(ADAPTIVE_WINDOW_SIZE);
            self.h2.initial_stream_window_size = Some(ADAPTIVE_WINDOW_SIZE);
        }
        self
    }

    /// Sets the maximum frame size to use for HTTP/2.
    ///
    /// Passing `None` will do nothing.
    pub fn http2_max_frame_size(&mut self, sz: Option<u32>) -> (r: &mut Self)
        ensures
            *r == (match sz {
                Some(_) => Builder {
                    h2: Http2Options { max_frame_size: sz, ..old(self).h2 },
                    ..*old(self)
                },
                None => *old(self),
            }),
            *final(self) == *final(r),
            old(self).valid() ==> r.valid(),
    {
        if sz.is_some() {
            self.h2.max_frame_size = sz;
        }
        self
    }

    /// Sets an interval for HTTP/2 ping frames to be sent to keep a connection alive.
    ///
    /// Pass `None` to disable HTTP/2 keep-alive, which is the default.
    pub fn http2_keep_alive_interval(&mut self, interval: Option<Duration>) -> (r: &mut Self)
        ensures
            *r == (Builder { h2: Http2Options { keep_alive_interval: interval, ..old(self).h2 }, ..*old(self) }),
            *final(self) == *final(r),
            old(self).valid() ==> r.valid(),
    {
        self.h2.keep_alive_interval = interval;
        self
    }

    /// Sets a timeout for receiving an acknowledgement of the keep-alive ping. The
    /// default is twenty seconds.
    pub fn http2_keep_alive_timeout(&mut self, timeout: Duration) -> (r: &mut Self)
        ensures
            *r == (Builder { h2: Http2Options { keep_alive_timeout: timeout, ..old(self).h2 }, ..*old(self) }),
            *final(self) == *final(r),
            old(self).valid() ==> r.valid(),
    {
        self.h2.keep_alive_timeout = timeout;
        self
    }

    /// Sets whether HTTP/2 keep-alive should apply while the connection is idle. The
    /// default is false.
    pub fn http2_keep_alive_while_idle(&mut self, enabled: bool) -> (r: &mut Self)
        ensures
            *r == (Builder { h2: Http2Options { keep_alive_while_idle: enabled, ..old(self).h2 }, ..*old(self) }),
            *final(self) == *final(r),
            old(self).valid() ==> r.valid(),
    {
        self.h2.keep_alive_while_idle = enabled;
        self
    }

    /// Sets the maximum number of HTTP/2 concurrent locally reset streams.
    pub fn http2_max_concurrent_reset_streams(&mut self, max: usize) -> (r: &mut Self)
        ensures
            *r == (Builder { h2: Http2Options { max_concurrent_reset_streams: Some(max), ..old(self).h2 }, ..*old(self) }),
            *final(self) == *final(r),
            old(self).valid() ==> r.valid(),
    {
        self.h2.max_concurrent_reset_streams = Some(max);
        self
    }

    /// Provide a timer to execute background HTTP/2 tasks.
    pub fn http2_timer(&mut self, timer: T) -> (r: &mut Self)
        ensures
            *r == (Builder { h2_timer: Some(timer), ..*old(self) }),
            *final(self) == *final(r),
            old(self).valid() ==> r.valid(),
    {
        self.h2_timer = Some(timer);
        self
    }

    /// Set the maximum write buffer size for each HTTP/2 stream, which fits in 32 bits.
    pub fn http2_max_send_buf_size(&mut self, max: usize) -> (r: &mut Self)
        requires
            max <= u32::MAX,
        ensures
            *r == (Builder { h2: Http2Options { max_send_buf_size: Some(max), ..old(self).h2 }, ..*old(self) }),
            *final(self) == *final(r),
            old(self).valid() ==> r.valid(),
    {
        self.h2.max_send_buf_size = Some(max);
        self
    }

    /// Set whether to retry requests that get disrupted before ever starting to write.
    ///
    /// Without it, such a request is answered by a canceled error. The default is true.
    pub fn retry_canceled_requests(&mut self, val: bool) -> (r: &mut Self)
        ensures
            *r == (Builder { client_config: Config { retry_canceled_requests: val, ..old(self).client_config }, ..*old(self) }),
            *final(self) == *final(r),
            old(self).valid() ==> r.valid(),
    {
        self.client_config.retry_canceled_requests = val;
        self
    }

    /// Set whether to automatically add the `Host` header to requests.
    ///
    /// If true, and a request over HTTP/1 does not have a `Host` header, one is added,
    /// derived from the authority of its URI. The default is true.
    pub fn set_host(&mut self, val: bool) -> (r: &mut Self)
        ensures
            *r == (Builder { client_config: Config { set_host: val, ..old(self).client_config }, ..*old(self) }),
            *final(self) == *final(r),
            old(self).valid() ==> r.valid(),
    {
        self.client_config.set_host = val;
        self
    }

    /// Build a client with this configuration and the default connector, which keeps
    /// sockets alive as long as the pool keeps idle ones.
    pub fn build_http<B, P, F: FnOnce(PoolConfig, &E) -> P>(&self, new_pool: F) -> (r: Client<
        HttpConnector,
        B,
        E,
        T,
        P,
    >) where E: Clone, T: Clone
        requires
            call_requires(new_pool, (self.pool_config, &self.executor)),
        ensures
            self.built(
                HttpConnector {
                    keepalive: if self.pool_config.max_idle_per_host > 0 {
                        self.pool_config.idle_timeout
                    } else {
                        None
                    },
                },
                new_pool,
                r,
            ),
    {
        let mut connector = HttpConnector::new();
        if self.pool_config.is_enabled() {
            connector.set_keepalive(self.pool_config.idle_timeout);
        }
        self.build(connector, new_pool)
    }

    /// Combine the configuration of this builder with a connector to create a client.
    ///
    /// The pool is made for this client alone: `new_pool` is called once, with the
    /// limits and the executor of the builder, and what it gives is moved into the
    /// client.
    pub fn build<C, B, P, F: FnOnce(PoolConfig, &E) -> P>(
        &self,
        connector: C,
        new_pool: F,
    ) -> (r: Client<C, B, E, T, P>) where E: Clone, T: Clone
        requires
            call_requires(new_pool, (self.pool_config, &self.executor)),
        ensures
            self.built(connector, new_pool, r),
    {
        let pool = new_pool(self.pool_config, &self.executor);
        Client {
            config: self.client_config,
            connector,
            executor: self.executor.clone(),
            h1: self.h1,
            h2: self.h2,
            h2_timer: match &self.h2_timer {
                Some(timer) => Some(timer.clone()),
                None => None,
            },
            pool: Arc::new(pool),
            body: PhantomData,
        }
    }

    /// The client has the settings of the builder, the given connector, and a pool that
    /// `new_pool` gave for the limits and the executor of the builder.
    pub open spec fn built<C, B, P, F: FnOnce(PoolConfig, &E) -> P>(
        self,
        connector: C,
        new_pool: F,
        client: Client<C, B, E, T, P>,
    ) -> bool where E: Clone, T: Clone {
        &&& client.config == self.client_config
        &&& client.h1 == self.h1
        &&& client.h2 == self.h2
        &&& cloned(self.executor, client.executor)
        &&& cloned_option(self.h2_timer, client.h2_timer)
        &&& client.connector == connector
        &&& call_ensures(new_pool, (self.pool_config, &self.executor), *client.pool)
    }
}

/// A client that is built holds what the builder holds.
pub proof fn client_holds_what_the_builder_holds<
    E: Clone,
    T: Clone,
    B,
    C,
    P,
    F: FnOnce(PoolConfig, &E) -> P,
>(builder: Builder<E, T>, connector: C, new_pool: F, client: Client<C, B, E, T, P>)
    requires
        builder.built(connector, new_pool, client),
    ensures
        client.config == builder.client_config,
        client.h1 == builder.h1,
        client.h2 == builder.h2,
        client.connector == connector,
        cloned(builder.executor, client.executor),
        client.h2_timer is Some <==> builder.h2_timer is Some,
        call_ensures(new_pool, (builder.pool_config, &builder.executor), *client.pool),
{
}

/// Clients of one builder have the same settings, each with the connector that it was
/// given and with a pool that was made for it, within the same limits.
pub proof fn clients_of_one_builder<
    E: Clone,
    T: Clone,
    B,
    C1,
    P1,
    F1: FnOnce(PoolConfig, &E) -> P1,
    C2,
    P2,
    F2: FnOnce(PoolConfig, &E) -> P2,
>(
    builder: Builder<E, T>,
    connector1: C1,
    new_pool1: F1,
    client1: Client<C1, B, E, T, P1>,
    connector2: C2,
    new_pool2: F2,
    client2: Client<C2, B, E, T, P2>,
)
    requires
        builder.built(connector1, new_pool1, client1),
        builder.built(connector2, new_pool2, client2),
    ensures
        client1.config == client2.config,
        client1.h1 == client2.h1,
        client1.h2 == client2.h2,
        client1.h2_timer is Some <==> client2.h2_timer is Some,
        cloned(builder.executor, client1.executor) && cloned(builder.executor, client2.executor),
        client1.connector == connector1 && client2.connector == connector2,
        call_ensures(new_pool1, (builder.pool_config, &builder.executor), *client1.pool),
        call_ensures(new_pool2, (builder.pool_config, &builder.executor), *client2.pool),
{
}

impl<E: Clone, T: Clone> Clone for Builder<E, T> {
    fn clone(&self) -> (r: Builder<E, T>)
        ensures
            r.client_config == self.client_config,
            r.h1 == self.h1,
            r.h2 == self.h2,
            r.pool_config == self.pool_config,
            cloned(self.executor, r.executor),
            cloned_option(self.h2_timer, r.h2_timer),
            self.valid() ==> r.valid(),
    {
        Builder {
            client_config: self.client_config,
            executor: self.executor.clone(),
            h1: self.h1,
            h2: self.h2,
            h2_timer: match &self.h2_timer {
                Some(timer) => Some(timer.clone()),
                None => None,
            },
            pool_config: self.pool_config,
        }
    }
}

} // verus!
