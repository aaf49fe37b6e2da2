use web_browser::js::clipboard::{Clipboard, ClipboardStep, PrimaryRead, PromiseSettlement};

fn is_fulfilled_empty(s: &PromiseSettlement) -> bool {
    matches!(s, PromiseSettlement::Fulfill(None))
}

fn rejection(s: &PromiseSettlement) -> Option<String> {
    match s {
        PromiseSettlement::Reject(r) => Some(r.clone()),
        _ => None,
    }
}

#[test]
fn write_without_arguments_is_rejected() {
    match Clipboard::write_text_request(&vec![]) {
        Err(s) => assert_eq!(rejection(&s), Some(String::from("No data to copy"))),
        Ok(_) => panic!("expected a rejection"),
    }
}

#[test]
fn write_takes_the_first_argument_text() {
    let r = Clipboard::write_text_request(&vec![Some(String::from("abc")), Some(String::from("x"))]);
    assert_eq!(r.ok(), Some(String::from("abc")));
    let r = Clipboard::write_text_request(&vec![None]);
    assert_eq!(r.ok(), Some(String::new()));
}

#[test]
fn write_is_fulfilled_when_some_clipboard_accepts() {
    match Clipboard::after_primary_write(true) {
        ClipboardStep::Settle(s) => assert!(is_fulfilled_empty(&s)),
        ClipboardStep::UseFallback => panic!("expected settlement"),
    }
    assert!(matches!(Clipboard::after_primary_write(false), ClipboardStep::UseFallback));
    assert!(is_fulfilled_empty(&Clipboard::after_fallback_write(true)));
    assert_eq!(rejection(&Clipboard::after_fallback_write(false)), Some(String::from("Unable to copy")));
}

#[test]
fn read_steps() {
    assert!(matches!(Clipboard::after_primary_read(PrimaryRead::Unavailable), ClipboardStep::UseFallback));
    match Clipboard::after_primary_read(PrimaryRead::ReadFailed) {
        ClipboardStep::Settle(s) => assert_eq!(rejection(&s), Some(String::from("Unable to read"))),
        _ => panic!("expected settlement"),
    }
    match Clipboard::after_primary_read(PrimaryRead::Bytes(b"h\xc3\xa9".to_vec())) {
        ClipboardStep::Settle(PromiseSettlement::Fulfill(Some(t))) => assert_eq!(t, "h\u{e9}"),
        _ => panic!("expected text"),
    }
    match Clipboard::after_primary_read(PrimaryRead::Bytes(vec![b'a', 0xff, b'b'])) {
        ClipboardStep::Settle(PromiseSettlement::Fulfill(Some(t))) => assert_eq!(t, "a\u{fffd}b"),
        _ => panic!("expected text"),
    }
    match Clipboard::after_fallback_read(Some(String::from("copied"))) {
        PromiseSettlement::Fulfill(Some(t)) => assert_eq!(t, "copied"),
        _ => panic!("expected text"),
    }
    assert_eq!(rejection(&Clipboard::after_fallback_read(None)), Some(String::from("Unable to read")));
}
