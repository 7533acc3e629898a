use xaskpass::errors::{fallback, map_xerr, xcb_errors, Error, ReplyError, Unsupported};

#[test]
fn unsupported_message() {
    assert_eq!(Unsupported("present".to_string()).message(), "Unsupported: present");
}

#[test]
fn error_messages() {
    let w = || "words".to_string();
    assert_eq!(Error::Error(w()).message(), "words");
    assert_eq!(Error::Connection(w()).message(), "X11 connection words");
    assert_eq!(
        Error::Reply(ReplyError::ConnectionError(w())).message(),
        "X11 connection words"
    );
    assert_eq!(
        Error::ReplyOrId(ReplyError::ConnectionError(w())).message(),
        "X11 connection words"
    );
    assert_eq!(Error::Reply(ReplyError::X11Error(w())).message(), "words");
    assert_eq!(Error::ReplyOrId(ReplyError::X11Error(w())).message(), "words");
    assert_eq!(Error::ReplyOrId(ReplyError::IdsExhausted(w())).message(), "words");
    assert_eq!(Error::X11(w()).message(), "words");
    assert_eq!(Error::Unsupported(Unsupported(w())).message(), "Unsupported: words");
}

#[test]
fn context_of_failed_requests() {
    assert_eq!(map_xerr(ReplyError::ConnectionError("gone".to_string())), "X11 connection: gone");
    assert_eq!(map_xerr(ReplyError::X11Error("bad".to_string())), "X11: bad");
}

#[test]
fn error_by_numbers() {
    let err = fallback::Builder::new().from("Window".to_string(), 3, 0, 77, 12);
    assert_eq!(
        err.message(),
        "kind: Window: (major 3, minor 0, bad_value: 77, sequence: 12)"
    );
}

#[test]
fn error_by_names() {
    let b = xcb_errors::Builder {};
    let err = b.from("GetProperty".to_string(), None, None, "Atom".to_string(), (20, 0, 5));
    assert_eq!(err.message(), "request: GetProperty (major 20, minor 0), error: Atom (5)");
    let err = b.from(
        "Present".to_string(),
        Some("Pixmap".to_string()),
        Some("Sync".to_string()),
        "Fence".to_string(),
        (145, 1, 130),
    );
    assert_eq!(
        err.message(),
        "request: Present-Pixmap (major 145, minor 1), error: Sync-Fence (130)"
    );
}
