use web_browser::js::fetch::{FetchAction, FetchRequest, RequestType};

#[test]
fn methods_are_read_exactly() {
    assert_eq!(RequestType::from_method("POST"), RequestType::POST);
    assert_eq!(RequestType::from_method("DELETE"), RequestType::DELETE);
    assert_eq!(RequestType::from_method("PUT"), RequestType::PUT);
    assert_eq!(RequestType::from_method("OPTIONS"), RequestType::OPTIONS);
    assert_eq!(RequestType::from_method("GET"), RequestType::GET);
    assert_eq!(RequestType::from_method("post"), RequestType::GET);
    assert_eq!(RequestType::from_method(""), RequestType::GET);
    assert_eq!(RequestType::from_method("PATCH"), RequestType::GET);
}

#[test]
fn a_request_without_method_is_a_get() {
    let r = FetchRequest::new(String::from("http://example.com"), None);
    assert_eq!(r.method, RequestType::GET);
    match r.action() {
        FetchAction::Get(url) => assert_eq!(url, "http://example.com"),
        FetchAction::NotImplemented => panic!("expected a GET"),
    }
}

#[test]
fn other_methods_are_not_implemented() {
    let r = FetchRequest::new(String::from("http://example.com"), Some("POST"));
    assert_eq!(r.method, RequestType::POST);
    assert!(matches!(r.action(), FetchAction::NotImplemented));
    let r = FetchRequest::new(String::from("u"), Some("whatever"));
    assert!(matches!(r.action(), FetchAction::Get(_)));
}
