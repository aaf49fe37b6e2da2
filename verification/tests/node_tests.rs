use web_browser::html::document::Document;
use web_browser::js::arguments::first_string_argument;
use web_browser::js::node::{Node, NodeError};

#[test]
fn lookup_needs_an_argument() {
    let doc = Document::new(String::from("<p id=\"x\"></p>"));
    assert!(matches!(Node::get_element_by_id(&doc, &vec![]), Err(NodeError::MissingArgument)));
    assert!(matches!(Node::find_element_by_id(&doc, &vec![]), Err(NodeError::MissingArgument)));
    assert_eq!(
        Node::missing_argument_message(),
        "Document.getElementById: At least 1 argument required, but only 0 passed"
    );
}

#[test]
fn lookup_uses_the_first_argument() {
    let doc = Document::new(String::from("<p id=\"x\" class=\"c\"></p>"));
    let found = Node::get_element_by_id(&doc, &vec![Some(String::from("x"))]).ok().unwrap().unwrap();
    assert_eq!(found.name, "p");
    assert_eq!(found.classes, vec![String::from("c")]);
    assert!(matches!(Node::find_element_by_id(&doc, &vec![None]), Err(NodeError::InvalidSelector)));
    let found = Node::find_element_by_id(&doc, &vec![Some(String::from("x"))]).ok().unwrap().unwrap();
    assert_eq!(found.name, "p");
    assert!(Node::get_element_by_id(&doc, &vec![Some(String::from("y"))]).ok().unwrap().is_none());
}

#[test]
fn first_argument_text() {
    assert_eq!(first_string_argument(&vec![]), None);
    assert_eq!(first_string_argument(&vec![None, Some(String::from("b"))]), Some(String::new()));
    assert_eq!(first_string_argument(&vec![Some(String::from("a"))]), Some(String::from("a")));
}

#[test]
fn an_empty_id_is_refused() {
    let doc = Document::new(String::from("<p id=\"x\"></p>"));
    assert!(matches!(
        Node::find_element_by_id(&doc, &vec![Some(String::new())]),
        Err(NodeError::InvalidSelector)
    ));
    assert!(doc.find_element_by_id("").is_err());
}
