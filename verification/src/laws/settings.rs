//! Builders, and the clients that they build.

use vstd::prelude::*;

use crate::builder::Builder;
use crate::client::Client;
use crate::config::{Config, Duration, Http1Options, Http2Options, HttpConnector, PoolConfig, Ver};

verus! {

/// A new builder retries requests and sets `Host`, leaves the version to be negotiated,
/// keeps any number of idle connections for ninety seconds, and leaves every option of
/// a connection at its default.
pub proof fn new_builder_has_the_defaults<E, T>(executor: E, builder: Builder<E, T>)
    requires
        call_ensures(Builder::<E, T>::new, (executor,), builder),
    ensures
        builder.executor == executor,
        builder.client_config.retry_canceled_requests,
        builder.client_config.set_host,
        builder.client_config.ver == Ver::Auto,
        builder.pool_config.idle_timeout == Some(Duration { secs: 90, nanos: 0 }),
        builder.pool_config.max_idle_per_host == usize::MAX,
        builder.h2_timer is None,
        builder.h1.read_buf_exact_size is None && builder.h1.max_buf_size is None,
        builder.h1.writev is None,
        !builder.h1.allow_spaces_after_header_name_in_responses,
        !builder.h1.allow_obsolete_multiline_headers_in_responses,
        !builder.h1.ignore_invalid_headers_in_responses,
        !builder.h1.title_case_headers && !builder.h1.preserve_header_case,
        !builder.h1.http09_responses,
        !builder.h2.adaptive_window,
        builder.h2.initial_stream_window_size is None,
        builder.h2.initial_connection_window_size is None,
        builder.h2.max_frame_size is None,
        builder.h2.keep_alive_interval is None,
        builder.h2.keep_alive_timeout == (Duration { secs: 20, nanos: 0 }),
        !builder.h2.keep_alive_while_idle,
        builder.h2.max_concurrent_reset_streams is None,
        builder.h2.max_send_buf_size is None,
{
}

/// The builder that a client offers is a new one.
pub proof fn builder_of_a_client_is_new<E, T>(
    executor: E,
    offered: Builder<E, T>,
    new: Builder<E, T>,
)
    requires
        call_ensures(Client::<(), (), E, T, ()>::builder, (executor,), offered),
        call_ensures(Builder::<E, T>::new, (executor,), new),
    ensures
        offered == new,
{
}

/// A client has every setting of the builder that it was built by, the connector that it
/// was given, and a pool that was made within the limits of the builder.
pub proof fn client_has_the_settings_of_its_builder<
    E: Clone,
    T: Clone,
    C,
    B,
    P,
    F: FnOnce(PoolConfig, &E) -> P,
>(builder: &Builder<E, T>, connector: C, new_pool: F, client: Client<C, B, E, T, P>)
    requires
        call_ensures(
            Builder::<E, T>::build::<C, B, P, F>,
            (builder, connector, new_pool),
            client,
        ),
    ensures
        client.config == builder.client_config,
        client.h1 == builder.h1,
        client.h2 == builder.h2,
        client.connector == connector,
        cloned(builder.executor, client.executor),
        client.h2_timer is Some <==> builder.h2_timer is Some,
        builder.h2_timer is Some ==> cloned(builder.h2_timer->0, client.h2_timer->0),
        call_ensures(new_pool, (builder.pool_config, &builder.executor), *client.pool),
{
}

/// A client with the default connector has every setting of its builder too. The
/// connector keeps sockets alive for the timeout of the pool, unless the pool keeps no
/// connection.
pub proof fn default_client_has_the_settings_of_its_builder<
    E: Clone,
    T: Clone,
    B,
    P,
    F: FnOnce(PoolConfig, &E) -> P,
>(builder: &Builder<E, T>, new_pool: F, client: Client<HttpConnector, B, E, T, P>)
    requires
        call_ensures(Builder::<E, T>::build_http::<B, P, F>, (builder, new_pool), client),
    ensures
        client.config == builder.client_config,
        client.h1 == builder.h1,
        client.h2 == builder.h2,
        cloned(builder.executor, client.executor),
        client.h2_timer is Some <==> builder.h2_timer is Some,
        builder.h2_timer is Some ==> cloned(builder.h2_timer->0, client.h2_timer->0),
        call_ensures(new_pool, (builder.pool_config, &builder.executor), *client.pool),
        builder.pool_config.max_idle_per_host == 0 ==> client.connector.keepalive is None,
        builder.pool_config.max_idle_per_host > 0 ==> client.connector.keepalive
            == builder.pool_config.idle_timeout,
{
}

/// A clone of a client has its settings, and its pool.
pub proof fn clone_has_the_settings_and_the_pool<C: Clone, B, E: Clone, T: Clone, P>(
    client: &Client<C, B, E, T, P>,
    clone: Client<C, B, E, T, P>,
)
    requires
        call_ensures(Client::<C, B, E, T, P>::clone, (client,), clone),
    ensures
        clone.pool == client.pool,
        clone.config == client.config,
        clone.h1 == client.h1,
        clone.h2 == client.h2,
        cloned(client.connector, clone.connector),
        cloned(client.executor, clone.executor),
        clone.h2_timer is Some <==> client.h2_timer is Some,
        client.h2_timer is Some ==> cloned(client.h2_timer->0, clone.h2_timer->0),
{
}

/// A clone of a builder has its settings.
pub proof fn clone_of_a_builder_has_the_settings<E: Clone, T: Clone>(
    builder: &Builder<E, T>,
    clone: Builder<E, T>,
)
    requires
        call_ensures(Builder::<E, T>::clone, (builder,), clone),
    ensures
        clone.client_config == builder.client_config,
        clone.pool_config == builder.pool_config,
        clone.h1 == builder.h1,
        clone.h2 == builder.h2,
        cloned(builder.executor, clone.executor),
        clone.h2_timer is Some <==> builder.h2_timer is Some,
        builder.h2_timer is Some ==> cloned(builder.h2_timer->0, clone.h2_timer->0),
{
}

/// A pool keeps connections if and only if it keeps more than none.
pub proof fn pool_is_enabled_above_none(config: &PoolConfig, enabled: bool)
    requires
        call_ensures(PoolConfig::is_enabled, (config,), enabled),
    ensures
        enabled <==> config.max_idle_per_host != 0,
{
}

/// The timeout of idle sockets is the one that was given.
pub proof fn pool_idle_timeout_sets_nothing_else<E, T>(
    builder: &mut Builder<E, T>,
    val: Option<Duration>,
    set: &mut Builder<E, T>,
)
    requires
        call_ensures(Builder::<E, T>::pool_idle_timeout, (builder, val), set),
    ensures
        old(set).h1 == old(builder).h1,
        old(set).h2 == old(builder).h2,
        old(set).client_config == old(builder).client_config,
        old(set).pool_config == (PoolConfig { idle_timeout: val, ..old(builder).pool_config }),
        old(set).h2_timer == old(builder).h2_timer,
        old(set).executor == old(builder).executor,
        *final(builder) == *final(set),
{
}

/// The limit of idle connections is the one that was given.
pub proof fn max_idle_per_host_sets_nothing_else<E, T>(
    builder: &mut Builder<E, T>,
    max_idle: usize,
    set: &mut Builder<E, T>,
)
    requires
        call_ensures(Builder::<E, T>::max_idle_per_host, (builder, max_idle), set),
    ensures
        old(set).h1 == old(builder).h1,
        old(set).h2 == old(builder).h2,
        old(set).client_config == old(builder).client_config,
        old(set).pool_config == (PoolConfig { max_idle_per_host: max_idle, ..old(builder).pool_config }),
        old(set).h2_timer == old(builder).h2_timer,
        old(set).executor == old(builder).executor,
        *final(builder) == *final(set),
{
}

/// The limit of idle connections is the one that was given.
pub proof fn pool_max_idle_per_host_sets_nothing_else<E, T>(
    builder: &mut Builder<E, T>,
    max_idle: usize,
    set: &mut Builder<E, T>,
)
    requires
        call_ensures(Builder::<E, T>::pool_max_idle_per_host, (builder, max_idle), set),
    ensures
        old(set).h1 == old(builder).h1,
        old(set).h2 == old(builder).h2,
        old(set).client_config == old(builder).client_config,
        old(set).pool_config == (PoolConfig { max_idle_per_host: max_idle, ..old(builder).pool_config }),
        old(set).h2_timer == old(builder).h2_timer,
        old(set).executor == old(builder).executor,
        *final(builder) == *final(set),
{
}

/// The exact size counts, and the maximum no more.
pub proof fn http1_read_buf_exact_size_sets_nothing_else<E, T>(
    builder: &mut Builder<E, T>,
    sz: usize,
    set: &mut Builder<E, T>,
)
    requires
        call_ensures(Builder::<E, T>::http1_read_buf_exact_size, (builder, sz), set),
    ensures
        old(set).h1 == (Http1Options { read_buf_exact_size: Some(sz), max_buf_size: None, ..old(builder).h1 }),
        old(set).h2 == old(builder).h2,
        old(set).client_config == old(builder).client_config,
        old(set).pool_config == old(builder).pool_config,
        old(set).h2_timer == old(builder).h2_timer,
        old(set).executor == old(builder).executor,
        *final(builder) == *final(set),
{
}

/// The maximum counts, and the exact size no more.
pub proof fn http1_max_buf_size_sets_nothing_else<E, T>(
    builder: &mut Builder<E, T>,
    max: usize,
    set: &mut Builder<E, T>,
)
    requires
        call_ensures(Builder::<E, T>::http1_max_buf_size, (builder, max), set),
    ensures
        old(set).h1 == (Http1Options { max_buf_size: Some(max), read_buf_exact_size: None, ..old(builder).h1 }),
        old(set).h2 == old(builder).h2,
        old(set).client_config == old(builder).client_config,
        old(set).pool_config == old(builder).pool_config,
        old(set).h2_timer == old(builder).h2_timer,
        old(set).executor == old(builder).executor,
        *final(builder) == *final(set),
{
}

/// The option is what was given.
pub proof fn http1_allow_spaces_after_header_name_in_responses_sets_nothing_else<E, T>(
    builder: &mut Builder<E, T>,
    val: bool,
    set: &mut Builder<E, T>,
)
    requires
        call_ensures(Builder::<E, T>::http1_allow_spaces_after_header_name_in_responses, (builder, val), set),
    ensures
        old(set).h1 == (Http1Options { allow_spaces_after_header_name_in_responses: val, ..old(builder).h1 }),
        old(set).h2 == old(builder).h2,
        old(set).client_config == old(builder).client_config,
        old(set).pool_config == old(builder).pool_config,
        old(set).h2_timer == old(builder).h2_timer,
        old(set).executor == old(builder).executor,
        *final(builder) == *final(set),
{
}

/// The option is what was given.
pub proof fn http1_allow_obsolete_multiline_headers_in_responses_sets_nothing_else<E, T>(
    builder: &mut Builder<E, T>,
    val: bool,
    set: &mut Builder<E, T>,
)
    requires
        call_ensures(Builder::<E, T>::http1_allow_obsolete_multiline_headers_in_responses, (builder, val), set),
    ensures
        old(set).h1 == (Http1Options { allow_obsolete_multiline_headers_in_responses: val, ..old(builder).h1 }),
        old(set).h2 == old(builder).h2,
        old(set).client_config == old(builder).client_config,
        old(set).pool_config == old(builder).pool_config,
        old(set).h2_timer == old(builder).h2_timer,
        old(set).executor == old(builder).executor,
        *final(builder) == *final(set),
{
}

/// The option is what was given.
pub proof fn http1_ignore_invalid_headers_in_responses_sets_nothing_else<E, T>(
    builder: &mut Builder<E, T>,
    val: bool,
    set: &mut Builder<E, T>,
)
    requires
        call_ensures(Builder::<E, T>::http1_ignore_invalid_headers_in_responses, (builder, val), set),
    ensures
        old(set).h1 == (Http1Options { ignore_invalid_headers_in_responses: val, ..old(builder).h1 }),
        old(set).h2 == old(builder).h2,
        old(set).client_config == old(builder).client_config,
        old(set).pool_config == old(builder).pool_config,
        old(set).h2_timer == old(builder).h2_timer,
        old(set).executor == old(builder).executor,
        *final(builder) == *final(set),
{
}

/// The option is what was given.
pub proof fn http1_title_case_headers_sets_nothing_else<E, T>(
    builder: &mut Builder<E, T>,
    val: bool,
    set: &mut Builder<E, T>,
)
    requires
        call_ensures(Builder::<E, T>::http1_title_case_headers, (builder, val), set),
    ensures
        old(set).h1 == (Http1Options { title_case_headers: val, ..old(builder).h1 }),
        old(set).h2 == old(builder).h2,
        old(set).client_config == old(builder).client_config,
        old(set).pool_config == old(builder).pool_config,
        old(set).h2_timer == old(builder).h2_timer,
        old(set).executor == old(builder).executor,
        *final(builder) == *final(set),
{
}

/// The option is what was given.
pub proof fn http1_preserve_header_case_sets_nothing_else<E, T>(
    builder: &mut Builder<E, T>,
    val: bool,
    set: &mut Builder<E, T>,
)
    requires
        call_ensures(Builder::<E, T>::http1_preserve_header_case, (builder, val), set),
    ensures
        old(set).h1 == (Http1Options { preserve_header_case: val, ..old(builder).h1 }),
        old(set).h2 == old(builder).h2,
        old(set).client_config == old(builder).client_config,
        old(set).pool_config == old(builder).pool_config,
        old(set).h2_timer == old(builder).h2_timer,
        old(set).executor == old(builder).executor,
        *final(builder) == *final(set),
{
}

/// Vectored writes are as was given, and left to the connection no more.
pub proof fn http1_writev_sets_nothing_else<E, T>(
    builder: &mut Builder<E, T>,
    enabled: bool,
    set: &mut Builder<E, T>,
)
    requires
        call_ensures(Builder::<E, T>::http1_writev, (builder, enabled), set),
    ensures
        old(set).h1 == (Http1Options { writev: Some(enabled), ..old(builder).h1 }),
        old(set).h2 == old(builder).h2,
        old(set).client_config == old(builder).client_config,
        old(set).pool_config == old(builder).pool_config,
        old(set).h2_timer == old(builder).h2_timer,
        old(set).executor == old(builder).executor,
        *final(builder) == *final(set),
{
}

/// The option is what was given.
pub proof fn http09_responses_sets_nothing_else<E, T>(
    builder: &mut Builder<E, T>,
    val: bool,
    set: &mut Builder<E, T>,
)
    requires
        call_ensures(Builder::<E, T>::http09_responses, (builder, val), set),
    ensures
        old(set).h1 == (Http1Options { http09_responses: val, ..old(builder).h1 }),
        old(set).h2 == old(builder).h2,
        old(set).client_config == old(builder).client_config,
        old(set).pool_config == old(builder).pool_config,
        old(set).h2_timer == old(builder).h2_timer,
        old(set).executor == old(builder).executor,
        *final(builder) == *final(set),
{
}

/// The client is held to HTTP/2 if and only if that was given.
pub proof fn http2_only_sets_nothing_else<E, T>(
    builder: &mut Builder<E, T>,
    val: bool,
    set: &mut Builder<E, T>,
)
    requires
        call_ensures(Builder::<E, T>::http2_only, (builder, val), set),
    ensures
        old(set).h1 == old(builder).h1,
        old(set).h2 == old(builder).h2,
        old(set).client_config == (Config { ver: if val { Ver::Http2 } else { Ver::Auto }, ..old(builder).client_config }),
        old(set).pool_config == old(builder).pool_config,
        old(set).h2_timer == old(builder).h2_timer,
        old(set).executor == old(builder).executor,
        *final(builder) == *final(set),
{
}

/// A window that is given counts, and adaptive flow control no more. None does nothing.
pub proof fn http2_initial_stream_window_size_sets_nothing_else<E, T>(
    builder: &mut Builder<E, T>,
    sz: Option<u32>,
    set: &mut Builder<E, T>,
)
    requires
        call_ensures(Builder::<E, T>::http2_initial_stream_window_size, (builder, sz), set),
    ensures
        old(set).h1 == old(builder).h1,
        sz is None ==> old(set).h2 == old(builder).h2,
        sz is Some ==> old(set).h2 == (Http2Options { initial_stream_window_size: sz, adaptive_window: false, ..old(builder).h2 }),
        old(set).client_config == old(builder).client_config,
        old(set).pool_config == old(builder).pool_config,
        old(set).h2_timer == old(builder).h2_timer,
        old(set).executor == old(builder).executor,
        *final(builder) == *final(set),
{
}

/// A window that is given counts, and adaptive flow control no more. None does nothing.
pub proof fn http2_initial_connection_window_size_sets_nothing_else<E, T>(
    builder: &mut Builder<E, T>,
    sz: Option<u32>,
    set: &mut Builder<E, T>,
)
    requires
        call_ensures(Builder::<E, T>::http2_initial_connection_window_size, (builder, sz), set),
    ensures
        old(set).h1 == old(builder).h1,
        sz is None ==> old(set).h2 == old(builder).h2,
        sz is Some ==> old(set).h2 == (Http2Options { initial_connection_window_size: sz, adaptive_window: false, ..old(builder).h2 }),
        old(set).client_config == old(builder).client_config,
        old(set).pool_config == old(builder).pool_config,
        old(set).h2_timer == old(builder).h2_timer,
        old(set).executor == old(builder).executor,
        *final(builder) == *final(set),
{
}

/// Adaptive flow control overrides both windows where it is enabled.
pub proof fn http2_adaptive_window_sets_nothing_else<E, T>(
    builder: &mut Builder<E, T>,
    enabled: bool,
    set: &mut Builder<E, T>,
)
    requires
        call_ensures(Builder::<E, T>::http2_adaptive_window, (builder, enabled), set),
    ensures
        old(set).h1 == old(builder).h1,
        old(set).h2 == (Http2Options {
            adaptive_window: enabled,
            initial_stream_window_size: if enabled { Some(65_535u32) } else { old(builder).h2.initial_stream_window_size },
            initial_connection_window_size: if enabled { Some(65_535u32) } else { old(builder).h2.initial_connection_window_size },
            ..old(builder).h2
        }),
        old(set).client_config == old(builder).client_config,
        old(set).pool_config == old(builder).pool_config,
        old(set).h2_timer == old(builder).h2_timer,
        old(set).executor == old(builder).executor,
        *final(builder) == *final(set),
{
}

/// A frame size that is given counts. None does nothing.
pub proof fn http2_max_frame_size_sets_nothing_else<E, T>(
    builder: &mut Builder<E, T>,
    sz: Option<u32>,
    set: &mut Builder<E, T>,
)
    requires
        call_ensures(Builder::<E, T>::http2_max_frame_size, (builder, sz), set),
    ensures
        old(set).h1 == old(builder).h1,
        sz is None ==> old(set).h2 == old(builder).h2,
        sz is Some ==> old(set).h2 == (Http2Options { max_frame_size: sz, ..old(builder).h2 }),
        old(set).client_config == old(builder).client_config,
        old(set).pool_config == old(builder).pool_config,
        old(set).h2_timer == old(builder).h2_timer,
        old(set).executor == old(builder).executor,
        *final(builder) == *final(set),
{
}

/// The interval is the one that was given, and None is none.
pub proof fn http2_keep_alive_interval_sets_nothing_else<E, T>(
    builder: &mut Builder<E, T>,
    interval: Option<Duration>,
    set: &mut Builder<E, T>,
)
    requires
        call_ensures(Builder::<E, T>::http2_keep_alive_interval, (builder, interval), set),
    ensures
        old(set).h1 == old(builder).h1,
        old(set).h2 == (Http2Options { keep_alive_interval: interval, ..old(builder).h2 }),
        old(set).client_config == old(builder).client_config,
        old(set).pool_config == old(builder).pool_config,
        old(set).h2_timer == old(builder).h2_timer,
        old(set).executor == old(builder).executor,
        *final(builder) == *final(set),
{
}

/// The timeout is the one that was given.
pub proof fn http2_keep_alive_timeout_sets_nothing_else<E, T>(
    builder: &mut Builder<E, T>,
    timeout: Duration,
    set: &mut Builder<E, T>,
)
    requires
        call_ensures(Builder::<E, T>::http2_keep_alive_timeout, (builder, timeout), set),
    ensures
        old(set).h1 == old(builder).h1,
        old(set).h2 == (Http2Options { keep_alive_timeout: timeout, ..old(builder).h2 }),
        old(set).client_config == old(builder).client_config,
        old(set).pool_config == old(builder).pool_config,
        old(set).h2_timer == old(builder).h2_timer,
        old(set).executor == old(builder).executor,
        *final(builder) == *final(set),
{
}

/// The option is what was given.
pub proof fn http2_keep_alive_while_idle_sets_nothing_else<E, T>(
    builder: &mut Builder<E, T>,
    enabled: bool,
    set: &mut Builder<E, T>,
)
    requires
        call_ensures(Builder::<E, T>::http2_keep_alive_while_idle, (builder, enabled), set),
    ensures
        old(set).h1 == old(builder).h1,
        old(set).h2 == (Http2Options { keep_alive_while_idle: enabled, ..old(builder).h2 }),
        old(set).client_config == old(builder).client_config,
        old(set).pool_config == old(builder).pool_config,
        old(set).h2_timer == old(builder).h2_timer,
        old(set).executor == old(builder).executor,
        *final(builder) == *final(set),
{
}

/// The maximum is the one that was given.
pub proof fn http2_max_concurrent_reset_streams_sets_nothing_else<E, T>(
    builder: &mut Builder<E, T>,
    max: usize,
    set: &mut Builder<E, T>,
)
    requires
        call_ensures(Builder::<E, T>::http2_max_concurrent_reset_streams, (builder, max), set),
    ensures
        old(set).h1 == old(builder).h1,
        old(set).h2 == (Http2Options { max_concurrent_reset_streams: Some(max), ..old(builder).h2 }),
        old(set).client_config == old(builder).client_config,
        old(set).pool_config == old(builder).pool_config,
        old(set).h2_timer == old(builder).h2_timer,
        old(set).executor == old(builder).executor,
        *final(builder) == *final(set),
{
}

/// The timer is the one that was given.
pub proof fn http2_timer_sets_nothing_else<E, T>(
    builder: &mut Builder<E, T>,
    timer: T,
    set: &mut Builder<E, T>,
)
    requires
        call_ensures(Builder::<E, T>::http2_timer, (builder, timer), set),
    ensures
        old(set).h1 == old(builder).h1,
        old(set).h2 == old(builder).h2,
        old(set).client_config == old(builder).client_config,
        old(set).pool_config == old(builder).pool_config,
        old(set).h2_timer == Some(timer),
        old(set).executor == old(builder).executor,
        *final(builder) == *final(set),
{
}

/// The maximum is the one that was given.
pub proof fn http2_max_send_buf_size_sets_nothing_else<E, T>(
    builder: &mut Builder<E, T>,
    max: usize,
    set: &mut Builder<E, T>,
)
    requires
        call_ensures(Builder::<E, T>::http2_max_send_buf_size, (builder, max), set),
    ensures
        old(set).h1 == old(builder).h1,
        old(set).h2 == (Http2Options { max_send_buf_size: Some(max), ..old(builder).h2 }),
        old(set).client_config == old(builder).client_config,
        old(set).pool_config == old(builder).pool_config,
        old(set).h2_timer == old(builder).h2_timer,
        old(set).executor == old(builder).executor,
        *final(builder) == *final(set),
{
}

/// The option is what was given.
pub proof fn retry_canceled_requests_sets_nothing_else<E, T>(
    builder: &mut Builder<E, T>,
    val: bool,
    set: &mut Builder<E, T>,
)
    requires
        call_ensures(Builder::<E, T>::retry_canceled_requests, (builder, val), set),
    ensures
        old(set).h1 == old(builder).h1,
        old(set).h2 == old(builder).h2,
        old(set).client_config == (Config { retry_canceled_requests: val, ..old(builder).client_config }),
        old(set).pool_config == old(builder).pool_config,
        old(set).h2_timer == old(builder).h2_timer,
        old(set).executor == old(builder).executor,
        *final(builder) == *final(set),
{
}

/// The option is what was given.
pub proof fn set_host_sets_nothing_else<E, T>(
    builder: &mut Builder<E, T>,
    val: bool,
    set: &mut Builder<E, T>,
)
    requires
        call_ensures(Builder::<E, T>::set_host, (builder, val), set),
    ensures
        old(set).h1 == old(builder).h1,
        old(set).h2 == old(builder).h2,
        old(set).client_config == (Config { set_host: val, ..old(builder).client_config }),
        old(set).pool_config == old(builder).pool_config,
        old(set).h2_timer == old(builder).h2_timer,
        old(set).executor == old(builder).executor,
        *final(builder) == *final(set),
{
}

/// At most one size of the buffer of an HTTP/1 connection counts, and a maximum is at
/// least 8192. Adaptive flow control starts from windows of 65535, and the write buffer
/// of a stream fits in 32 bits.
pub proof fn valid_settings<E, T>(builder: Builder<E, T>)
    ensures
        builder.valid() <==> {
            &&& builder.h1.read_buf_exact_size is None || builder.h1.max_buf_size is None
            &&& builder.h1.max_buf_size matches Some(max) ==> max >= 8192
            &&& builder.h2.adaptive_window ==> {
                &&& builder.h2.initial_stream_window_size == Some(65_535u32)
                &&& builder.h2.initial_connection_window_size == Some(65_535u32)
            }
            &&& builder.h2.max_send_buf_size matches Some(max) ==> max <= 0xffff_ffff
        },
{
}

/// Every maximum from 8192 on can be set for the buffer of an HTTP/1 connection, and every
/// one that fits in 32 bits for the write buffer of an HTTP/2 stream.
pub proof fn allowed_sizes<E, T>(builder: &mut Builder<E, T>, max: usize)
    ensures
        max >= 8192 ==> call_requires(Builder::<E, T>::http1_max_buf_size, (builder, max)),
        max <= 0xffff_ffff ==> call_requires(
            Builder::<E, T>::http2_max_send_buf_size,
            (builder, max),
        ),
{
}

/// A connector probes no socket until it is told how long one is to be idle, and seconds
/// are whole.
pub proof fn connector_is_told_the_timeout(
    new: HttpConnector,
    connector: &mut HttpConnector,
    dur: Option<Duration>,
    secs: u64,
    span: Duration,
)
    requires
        call_ensures(HttpConnector::new, (), new),
        call_ensures(HttpConnector::set_keepalive, (connector, dur), ()),
        call_ensures(Duration::from_secs, (secs,), span),
    ensures
        new.keepalive is None,
        final(connector).keepalive == dur,
        span.secs == secs && span.nanos == 0,
{
}

} // verus!
