use http_client::builder::Builder;
use http_client::client::Client;
use http_client::error::{Cause, Error, ErrorKind};
use http_client::race::{CheckoutError, ClientConnectError, ConnectionFor, OneConnection, Raced};

fn client(http2_only: bool, retry: bool) -> Client<(), (), (), (), ()> {
    let mut builder: Builder<(), ()> = Builder::new(());
    builder.http2_only(http2_only).retry_canceled_requests(retry);
    builder.build((), |_, _| ())
}

fn race(raced: Raced<&'static str, u8>) -> OneConnection<&'static str, u8> {
    client(false, true).one_connection_for(raced)
}

fn checkout_error(canceled: bool) -> CheckoutError<u8> {
    CheckoutError { canceled, cause: 7 }
}

fn normal(err: ClientConnectError<u8>) -> Error<u8> {
    match err {
        ClientConnectError::Normal(err) => err,
        ClientConnectError::CheckoutIsClosed(_) => panic!("closed"),
    }
}

#[test]
fn pool_wins() {
    for connect_started in [false, true] {
        match race(Raced::Checkout { outcome: Ok("idle"), connect_started }) {
            OneConnection::Found { pooled, finish_connecting } => {
                assert_eq!(pooled, "idle");
                assert_eq!(finish_connecting, connect_started);
            }
            _ => panic!("not found"),
        }
    }
}

#[test]
fn connector_wins() {
    match race(Raced::Connect(Ok("new"))) {
        OneConnection::Found { pooled, finish_connecting } => {
            assert_eq!(pooled, "new");
            assert!(!finish_connecting);
        }
        _ => panic!("not found"),
    }
}

#[test]
fn canceled_way_waits_for_the_other() {
    let raced = Raced::Checkout { outcome: Err(checkout_error(true)), connect_started: true };
    assert!(matches!(race(raced), OneConnection::AwaitConnect));
    let raced = Raced::Connect(Err(Error::new(ErrorKind::Canceled)));
    assert!(matches!(race(raced), OneConnection::AwaitCheckout));
}

#[test]
fn failing_way_decides() {
    let raced = Raced::Checkout { outcome: Err(checkout_error(false)), connect_started: true };
    match race(raced) {
        OneConnection::Failed(err) => {
            let err = normal(err);
            assert_eq!(err.kind, ErrorKind::Connect);
            assert!(matches!(err.source(), Some(Cause::Outside(7))));
        }
        _ => panic!("not failed"),
    }
    match race(Raced::Connect(Err(Error::tx(8)))) {
        OneConnection::Failed(err) => {
            let err = normal(err);
            assert_eq!(err.kind, ErrorKind::SendRequest);
            assert!(matches!(err.source(), Some(Cause::Outside(8))));
        }
        _ => panic!("not failed"),
    }
}

#[test]
fn connector_answers_second() {
    let client = client(true, true);
    assert_eq!(client.connect_answer::<_, u8>(Ok("new")).unwrap(), "new");
    let err = client.connect_answer::<(), u8>(Err(Error::new(ErrorKind::Canceled))).unwrap_err();
    assert!(normal(err).is_canceled());
}

#[test]
fn pool_answers_second() {
    for http2_only in [false, true] {
        let client = client(http2_only, true);
        assert_eq!(client.checkout_answer::<_, u8>(Ok("idle")).unwrap(), "idle");
        let err = client.checkout_answer::<(), _>(Err(checkout_error(false))).unwrap_err();
        assert_eq!(normal(err).kind, ErrorKind::Connect);
        let err = client.checkout_answer::<(), _>(Err(checkout_error(true))).unwrap_err();
        match err {
            ClientConnectError::CheckoutIsClosed(err) => {
                assert!(http2_only && err.canceled);
                assert_eq!(err.cause, 7);
            }
            ClientConnectError::Normal(err) => {
                assert!(!http2_only);
                assert_eq!(err.kind, ErrorKind::Connect);
                assert!(matches!(err.source(), Some(Cause::Outside(7))));
            }
        }
    }
}

#[test]
fn tries_for_a_connection() {
    for retry in [false, true] {
        let client = client(true, retry);
        let out = client.connection_for::<_, u8>(Ok("idle"));
        assert!(matches!(out, ConnectionFor::Done(Ok("idle"))));
        let failed = Err(ClientConnectError::Normal(Error::with(ErrorKind::Connect, 3u8)));
        match client.connection_for::<(), _>(failed) {
            ConnectionFor::Done(Err(err)) => assert_eq!(err.kind, ErrorKind::Connect),
            _ => panic!("not done"),
        }
    }
}

#[test]
fn closed_connection_is_tried_again() {
    let closed = Err(ClientConnectError::CheckoutIsClosed(checkout_error(true)));
    let out = client(true, true).connection_for::<(), _>(closed);
    assert!(matches!(out, ConnectionFor::Again));
}

#[test]
fn closed_connection_cancels_without_retry() {
    let closed = Err(ClientConnectError::CheckoutIsClosed(checkout_error(true)));
    match client(true, false).connection_for::<(), _>(closed) {
        ConnectionFor::Done(Err(err)) => {
            assert!(err.is_canceled());
            assert!(matches!(err.source(), Some(Cause::Outside(7))));
        }
        _ => panic!("not done"),
    }
}

#[test]
fn tries_end_with_the_first_that_lasts() {
    let client = client(true, true);
    let mut attempts = vec![
        Err(ClientConnectError::CheckoutIsClosed(checkout_error(true))),
        Err(ClientConnectError::CheckoutIsClosed(checkout_error(true))),
        Ok("third"),
        Ok("fourth"),
    ]
    .into_iter();
    let found = loop {
        match client.connection_for(attempts.next().unwrap()) {
            ConnectionFor::Done(outcome) => break outcome,
            ConnectionFor::Again => (),
        }
    };
    assert_eq!(found.unwrap(), "third");
    assert!(matches!(attempts.next(), Some(Ok("fourth"))));
}
