use http_client::error::{Cause, Error, ErrorKind};

#[test]
fn errors_in_words() {
    for (kind, words) in [
        (ErrorKind::Canceled, "client error (Canceled)"),
        (ErrorKind::ChannelClosed, "client error (ChannelClosed)"),
        (ErrorKind::Connect, "client error (Connect)"),
        (
            ErrorKind::UserUnsupportedRequestMethod,
            "client error (UserUnsupportedRequestMethod)",
        ),
        (ErrorKind::UserUnsupportedVersion, "client error (UserUnsupportedVersion)"),
        (ErrorKind::UserAbsoluteUriRequired, "client error (UserAbsoluteUriRequired)"),
        (ErrorKind::SendRequest, "client error (SendRequest)"),
    ] {
        assert_eq!(Error::<u8>::new(kind).message(), words);
        assert_eq!(words, format!("client error ({:?})", kind));
    }
}

#[test]
fn canceled_errors() {
    assert!(Error::<u8>::new(ErrorKind::Canceled).is_canceled());
    assert!(Error::with(ErrorKind::Canceled, 1u8).is_canceled());
    assert!(!Error::<u8>::new(ErrorKind::Connect).is_canceled());
}

#[test]
fn causes_of_errors() {
    let err = Error::tx(7u8);
    assert_eq!(err.kind, ErrorKind::SendRequest);
    assert!(matches!(err.source(), Some(Cause::Outside(7))));
    let err = Error::closed(8u8);
    assert_eq!(err.kind, ErrorKind::ChannelClosed);
    assert!(matches!(err.source(), Some(Cause::Outside(8))));
    assert!(Error::<u8>::new(ErrorKind::Connect).source().is_none());
}
