use web_browser::invocation::Invocation;
use web_browser::text::{bool_to_text, same_text};

fn args(list: &[&str]) -> Vec<String> {
    list.iter().map(|s| String::from(*s)).collect()
}

#[test]
fn too_few_arguments() {
    assert!(Invocation::from_args(&args(&[])).is_none());
    assert!(Invocation::from_args(&args(&["--html"])).is_none());
}

#[test]
fn html_or_script() {
    match Invocation::from_args(&args(&["--html", "page.html"])) {
        Some(Invocation::Html(p)) => assert_eq!(p, "page.html"),
        _ => panic!("expected a page"),
    }
    match Invocation::from_args(&args(&["--js", "code.js", "extra"])) {
        Some(Invocation::Script(p)) => assert_eq!(p, "code.js"),
        _ => panic!("expected a script"),
    }
    match Invocation::from_args(&args(&["anything", "f"])) {
        Some(Invocation::Script(p)) => assert_eq!(p, "f"),
        _ => panic!("expected a script"),
    }
}

#[test]
fn text_helpers() {
    assert!(same_text("abc", "abc"));
    assert!(!same_text("abc", "abd"));
    assert!(!same_text("ab", "abc"));
    assert!(same_text("", ""));
    assert_eq!(bool_to_text(true), "true");
    assert_eq!(bool_to_text(false), "false");
}
