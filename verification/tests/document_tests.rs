use web_browser::html::document::Document;
use web_browser::html::script::Script;

const PAGE: &str = "<!DOCTYPE html><html><head><script>var a = 1;</script>\
<script src=\"lib.js\"></script></head><body><div id=\"main\" class=\"b a b\"><p>hi</p>\
<!-- note --></div><script>var b = 2;</script></body></html>";

#[test]
fn scripts_are_separated_in_order() {
    let doc = Document::new(String::from(PAGE));
    assert_eq!(doc.contents, PAGE);
    assert_eq!(doc.scripts.len(), 3);
    assert_eq!(doc.scripts[0].source, "var a = 1;");
    assert_eq!(doc.scripts[0].src, "");
    assert_eq!(doc.scripts[1].source, "");
    assert_eq!(doc.scripts[1].src, "lib.js");
    assert_eq!(doc.scripts[2].source, "var b = 2;");
    assert_eq!(doc.script_files(), vec![String::from("lib.js")]);
}

#[test]
fn js_source_holds_all_the_code_in_order() {
    let doc = Document::new(String::from(PAGE));
    let source = doc.get_js_source(&vec![String::from("lib();")]);
    assert_eq!(source, "var a = 1;lib();var b = 2;");
}

#[test]
fn js_source_of_inline_scripts_is_their_concatenation() {
    let doc = Document {
        contents: String::new(),
        scripts: vec![
            Script { source: String::from("x;"), src: String::new() },
            Script { source: String::from("y;"), src: String::new() },
        ],
    };
    assert!(doc.script_files().is_empty());
    assert_eq!(doc.get_js_source(&vec![]), "x;y;");
}

#[test]
fn an_unreadable_file_adds_nothing() {
    let doc = Document {
        contents: String::new(),
        scripts: vec![
            Script { source: String::from("x;"), src: String::new() },
            Script { source: String::new(), src: String::from("gone.js") },
        ],
    };
    assert_eq!(doc.get_js_source(&vec![String::new()]), "x;");
}

#[test]
fn traversal_lists_elements_below_the_root() {
    let doc = Document::new(String::from(PAGE));
    let lines = doc.traverse();
    assert_eq!(
        lines,
        vec![
            "head - true",
            "script - true",
            "script - false",
            "body - true",
            "div - true",
            "p - true",
            "script - true",
        ]
    );
}

#[test]
fn elements_are_found_by_id() {
    let doc = Document::new(String::from(PAGE));
    let found = doc.get_element_by_id("main").unwrap();
    assert_eq!(found.name, "div");
    assert_eq!(found.classes, vec![String::from("a"), String::from("b")]);
    assert!(doc.get_element_by_id("nothing").is_none());
    assert!(doc.find_element_by_id("1bad").is_err());
    assert!(doc.find_element_by_id("").is_err());
    assert_eq!(doc.find_element_by_id("main").ok().unwrap().unwrap().name, "div");
}

#[test]
fn nothing_inside_a_script_element_is_listed() {
    let doc = Document::new(String::from(
        "<html><body><svg><script><circle></circle></script></svg><p></p></body></html>",
    ));
    assert_eq!(
        doc.traverse(),
        vec!["head - false", "body - true", "svg - true", "script - true", "p - false"]
    );
}

#[test]
fn files_and_inline_code_alternate_in_page_order() {
    let doc = Document {
        contents: String::new(),
        scripts: vec![
            Script { source: String::from("a;"), src: String::new() },
            Script { source: String::new(), src: String::from("one.js") },
            Script { source: String::from("b;"), src: String::new() },
            Script { source: String::new(), src: String::from("two.js") },
            Script { source: String::from("c;"), src: String::new() },
            Script { source: String::from("d;"), src: String::new() },
        ],
    };
    assert_eq!(doc.script_files(), vec![String::from("one.js"), String::from("two.js")]);
    let files = vec![String::from("1;"), String::from("2;")];
    assert_eq!(doc.get_js_source(&files), "a;1;b;2;c;d;");
}

#[test]
fn a_script_with_an_empty_src_counts_as_inline() {
    let doc = Document::new(String::from("<script src=\"\">ignored</script><script>x;</script>"));
    assert_eq!(doc.scripts.len(), 2);
    assert_eq!(doc.scripts[0].source, "");
    assert_eq!(doc.scripts[0].src, "");
    assert!(doc.script_files().is_empty());
    assert_eq!(doc.get_js_source(&vec![]), "x;");
}

#[test]
fn inline_code_keeps_attribute_order_on_every_parse() {
    let page = "<svg><script><circle cx=\"1\" cy=\"2\" r=\"3\"></circle></script></svg>";
    let first = Document::new(String::from(page));
    let second = Document::new(String::from(page));
    assert_eq!(first.scripts[0].source, second.scripts[0].source);
    assert_eq!(first.scripts[0].source, "<circle cx=\"1\" cy=\"2\" r=\"3\"></circle>");
}

#[test]
fn elements_with_id_a_are_reported() {
    let doc = Document::new(String::from("<div id=\"a\"></div><p id=\"b\"></p><span id=\"a\"></span>"));
    let lines = doc.id_a_lines();
    assert_eq!(lines.len(), 2);
    assert!(lines[0].starts_with("-> "));
    assert!(lines[0].contains("div"));
    assert!(lines[1].contains("span"));
    assert!(Document::new(String::from("<p></p>")).id_a_lines().is_empty());
}
