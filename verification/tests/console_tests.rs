use web_browser::js::console::{Console, LogArgument};

fn arg(kind: &str) -> LogArgument {
    LogArgument {
        kind: String::from(kind),
        string_value: None,
        number_text: None,
        callable: false,
        debug_text: String::new(),
    }
}

#[test]
fn undefined_and_null_are_written_by_name() {
    assert_eq!(Console::log_argument(Some(&arg("undefined"))), "undefined");
    assert_eq!(Console::log_argument(Some(&arg("null"))), "null");
}

#[test]
fn strings_and_numbers_are_written_as_text() {
    let mut s = arg("string");
    s.string_value = Some(String::from("hello"));
    assert_eq!(Console::log_argument(Some(&s)), "hello");
    let mut n = arg("number");
    n.number_text = Some(String::from("2.5"));
    assert_eq!(Console::log_argument(Some(&n)), "2.5");
    assert_eq!(Console::log_argument(Some(&arg("string"))), "");
}

#[test]
fn objects_and_functions() {
    assert_eq!(Console::log_argument(Some(&arg("object"))), "[object Object]");
    let mut f = arg("function");
    f.callable = true;
    assert_eq!(Console::log_argument(Some(&f)), "function () { }");
    assert_eq!(Console::log_argument(Some(&arg("function"))), "");
}

#[test]
fn other_kinds_show_their_debug_text() {
    let mut b = arg("boolean");
    b.debug_text = String::from("Boolean(true)");
    assert_eq!(Console::log_argument(Some(&b)), "boolean Boolean(true)");
    assert_eq!(Console::log_argument(None), "");
}

#[test]
fn a_line_has_each_argument_then_a_space_then_a_break() {
    let mut s = arg("string");
    s.string_value = Some(String::from("a"));
    let line = Console::log_line(&vec![s, arg("undefined")]);
    assert_eq!(line, "a undefined \n");
    assert_eq!(Console::log_line(&vec![]), "\n");
}
