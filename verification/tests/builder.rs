use std::cell::RefCell;

use http_client::builder::Builder;
use http_client::client::Client;
use http_client::config::{Config, Duration, HttpConnector, Http1Options, Http2Options, PoolConfig, Ver};

fn builder() -> Builder<&'static str, u8> {
    Client::builder("exec")
}

#[test]
fn defaults() {
    let b = builder();
    assert_eq!(b.executor, "exec");
    assert_eq!(
        b.client_config,
        Config { retry_canceled_requests: true, set_host: true, ver: Ver::Auto }
    );
    assert_eq!(
        b.pool_config,
        PoolConfig {
            idle_timeout: Some(Duration { secs: 90, nanos: 0 }),
            max_idle_per_host: usize::MAX
        }
    );
    assert_eq!(b.h1, Http1Options::new());
    assert_eq!(b.h1.read_buf_exact_size, None);
    assert_eq!(b.h1.writev, None);
    assert!(!b.h1.http09_responses);
    assert_eq!(b.h2, Http2Options::new());
    assert_eq!(b.h2.keep_alive_interval, None);
    assert_eq!(b.h2.keep_alive_timeout, Duration::from_secs(20));
    assert!(!b.h2.keep_alive_while_idle);
    assert_eq!(b.h2_timer, None);
}

#[test]
fn pool_settings() {
    let mut b = builder();
    b.pool_idle_timeout(Some(Duration::from_secs(30))).pool_max_idle_per_host(3);
    assert_eq!(
        b.pool_config,
        PoolConfig { idle_timeout: Some(Duration::from_secs(30)), max_idle_per_host: 3 }
    );
    b.pool_idle_timeout(None).max_idle_per_host(0);
    assert_eq!(b.pool_config, PoolConfig { idle_timeout: None, max_idle_per_host: 0 });
    assert!(!b.pool_config.is_enabled());
    assert!(builder().pool_config.is_enabled());
}

#[test]
fn buffer_sizes_unset_each_other() {
    let mut b = builder();
    b.http1_read_buf_exact_size(100);
    assert_eq!((b.h1.read_buf_exact_size, b.h1.max_buf_size), (Some(100), None));
    b.http1_max_buf_size(8192);
    assert_eq!((b.h1.read_buf_exact_size, b.h1.max_buf_size), (None, Some(8192)));
    b.http1_read_buf_exact_size(1);
    assert_eq!((b.h1.read_buf_exact_size, b.h1.max_buf_size), (Some(1), None));
}

#[test]
fn http1_flags() {
    let mut b = builder();
    b.http1_allow_spaces_after_header_name_in_responses(true)
        .http1_allow_obsolete_multiline_headers_in_responses(true)
        .http1_ignore_invalid_headers_in_responses(true)
        .http1_writev(false)
        .http1_title_case_headers(true)
        .http1_preserve_header_case(true)
        .http09_responses(true);
    assert_eq!(
        b.h1,
        Http1Options {
            read_buf_exact_size: None,
            max_buf_size: None,
            allow_spaces_after_header_name_in_responses: true,
            allow_obsolete_multiline_headers_in_responses: true,
            ignore_invalid_headers_in_responses: true,
            writev: Some(false),
            title_case_headers: true,
            preserve_header_case: true,
            http09_responses: true,
        }
    );
    b.http1_title_case_headers(false).http1_writev(true);
    assert!(!b.h1.title_case_headers);
    assert_eq!(b.h1.writev, Some(true));
}

#[test]
fn http2_windows() {
    let mut b = builder();
    b.http2_initial_stream_window_size(Some(10)).http2_initial_connection_window_size(Some(20));
    b.http2_initial_stream_window_size(None).http2_initial_connection_window_size(None);
    assert_eq!(b.h2.initial_stream_window_size, Some(10));
    assert_eq!(b.h2.initial_connection_window_size, Some(20));
    b.http2_adaptive_window(true);
    assert!(b.h2.adaptive_window);
    assert_eq!(b.h2.initial_stream_window_size, Some(65_535));
    assert_eq!(b.h2.initial_connection_window_size, Some(65_535));
    b.http2_initial_stream_window_size(None);
    assert!(b.h2.adaptive_window);
    b.http2_initial_stream_window_size(Some(11));
    assert!(!b.h2.adaptive_window);
    assert_eq!(b.h2.initial_stream_window_size, Some(11));
    assert_eq!(b.h2.initial_connection_window_size, Some(65_535));
    b.http2_adaptive_window(true).http2_adaptive_window(false);
    assert!(!b.h2.adaptive_window);
    assert_eq!(b.h2.initial_stream_window_size, Some(65_535));
}

#[test]
fn http2_settings() {
    let mut b = builder();
    b.http2_max_frame_size(Some(16_384))
        .http2_max_frame_size(None)
        .http2_keep_alive_interval(Some(Duration::from_secs(5)))
        .http2_keep_alive_timeout(Duration::from_secs(6))
        .http2_keep_alive_while_idle(true)
        .http2_max_concurrent_reset_streams(7)
        .http2_max_send_buf_size(u32::MAX as usize)
        .http2_timer(9);
    assert_eq!(b.h2.max_frame_size, Some(16_384));
    assert_eq!(b.h2.keep_alive_interval, Some(Duration::from_secs(5)));
    assert_eq!(b.h2.keep_alive_timeout, Duration::from_secs(6));
    assert!(b.h2.keep_alive_while_idle);
    assert_eq!(b.h2.max_concurrent_reset_streams, Some(7));
    assert_eq!(b.h2.max_send_buf_size, Some(u32::MAX as usize));
    assert_eq!(b.h2_timer, Some(9));
    b.http2_keep_alive_interval(None);
    assert_eq!(b.h2.keep_alive_interval, None);
}

#[test]
fn client_settings() {
    let mut b = builder();
    b.http2_only(true).retry_canceled_requests(false).set_host(false);
    assert_eq!(
        b.client_config,
        Config { retry_canceled_requests: false, set_host: false, ver: Ver::Http2 }
    );
    b.http2_only(false);
    assert_eq!(b.client_config.ver, Ver::Auto);
}

#[test]
fn client_with_a_connector() {
    let mut b = builder();
    b.http2_only(true).http1_writev(true).http2_timer(4).pool_max_idle_per_host(2);
    let client: Client<u16, (), _, _, _> = b.build(77, |config, executor: &&str| (config, *executor));
    let client = client.clone();
    assert_eq!(client.connector, 77);
    assert_eq!(client.config, b.client_config);
    assert_eq!(client.h1, b.h1);
    assert_eq!(client.h2, b.h2);
    assert_eq!(client.h2_timer, Some(4));
    assert_eq!(*client.pool, (b.pool_config, "exec"));
    assert_eq!(client.executor, "exec");
}

#[test]
fn client_with_the_default_connector() {
    let mut b = builder();
    b.pool_idle_timeout(Some(Duration::from_secs(30))).http2_only(true);
    let client: Client<HttpConnector, (), _, _, _> = b.build_http(|config, _| config);
    assert_eq!(client.connector.keepalive, Some(Duration::from_secs(30)));
    assert_eq!(client.config.ver, Ver::Http2);
    b.pool_max_idle_per_host(0);
    let client: Client<HttpConnector, (), _, _, _> = b.build_http(|config, _| config);
    assert_eq!(client.connector.keepalive, None);
}

#[test]
fn builder_is_cloned() {
    let mut b = builder();
    b.http1_max_buf_size(9000).http2_adaptive_window(true).http2_timer(4).set_host(false);
    let c = b.clone();
    assert_eq!(c.client_config, b.client_config);
    assert_eq!(c.h1, b.h1);
    assert_eq!(c.h2, b.h2);
    assert_eq!(c.h2_timer, Some(4));
    assert_eq!(c.pool_config, b.pool_config);
    assert_eq!(c.executor, "exec");
}

#[test]
fn clients_have_pools_of_their_own() {
    let mut b = builder();
    b.pool_max_idle_per_host(3);
    let new_pool = |config: PoolConfig, _: &&'static str| RefCell::new(vec![config.max_idle_per_host]);
    let first: Client<u16, (), _, _, _> = b.build(1, new_pool);
    let second: Client<u16, (), _, _, _> = b.build(2, new_pool);
    b.pool_max_idle_per_host(4).set_host(false);
    let clone = first.clone();
    first.pool.borrow_mut().push(8);
    assert_eq!(*second.pool.borrow(), [3]);
    assert_eq!(*clone.pool.borrow(), [3, 8]);
    clone.pool.borrow_mut().push(9);
    assert_eq!(*first.pool.borrow(), [3, 8, 9]);
    assert_eq!((first.connector, second.connector, clone.connector), (1, 2, 1));
    assert_eq!(first.config, second.config);
    assert!(first.config.set_host);
}
