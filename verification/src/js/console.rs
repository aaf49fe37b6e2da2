use vstd::prelude::*;

use crate::text::same_text;

verus! {

/// What `console.log` reads of an argument: the name that `typeof` gives
/// it, its string value if it is a string, its number as Rust's `Display`
/// writes it if it is a number, whether it can be called, and its debug text.
pub struct LogArgument {
    pub kind: String,
    pub string_value: Option<String>,
    pub number_text: Option<String>,
    pub callable: bool,
    pub debug_text: String,
}

/// Text of an optional text, empty when there is none.
pub open spec fn text_or_empty(text: Option<String>) -> Seq<char> {
    match text {
        Some(t) => t@,
        None => Seq::empty(),
    }
}

/// What `console.log` writes for one argument: `undefined` and `null` by
/// name; a string as its text; a number as its text; any object as
/// `[object Object]`; a function as `function () { }`; anything else as its
/// type name, a space and its debug text. No argument writes nothing.
pub open spec fn argument_log_text(argument: Option<LogArgument>) -> Seq<char> {
    match argument {
        None => Seq::empty(),
        Some(a) => if a.kind@ == "undefined"@ || a.kind@ == "null"@ {
            a.kind@
        } else if a.kind@ == "string"@ {
            text_or_empty(a.string_value)
        } else if a.kind@ == "number"@ {
            text_or_empty(a.number_text)
        } else if a.kind@ == "object"@ {
            "[object Object]"@
        } else if a.kind@ == "function"@ {
            if a.callable {
                "function () { }"@
            } else {
                Seq::empty()
            }
        } else {
            a.kind@ + " "@ + a.debug_text@
        },
    }
}

/// The arguments' texts, each followed by a space.
pub open spec fn arguments_log_text(arguments: Seq<LogArgument>) -> Seq<char>
    decreases arguments.len(),
{
    if arguments.len() == 0 {
        Seq::empty()
    } else {
        arguments_log_text(arguments.drop_last()) + argument_log_text(Some(arguments.last()))
            + " "@
    }
}

/// The line that a console method writes: the arguments' texts, each
/// followed by a space, and a line break.
pub open spec fn log_line_text(arguments: Seq<LogArgument>) -> Seq<char> {
    arguments_log_text(arguments) + "\n"@
}

/// The `console` object of the JavaScript environment.
pub struct Console;

impl Console {
    /// Formats one argument of a console method.
    pub fn log_argument(argument: Option<&LogArgument>) -> (text: String)
        ensures
            text@ == argument_log_text(
                match argument {
                    Some(a) => Some(*a),
                    None => None,
                },
            ),
    {
        match argument {
            None => String::new(),
            Some(arg) => {
                let kind = arg.kind.as_str();
                if same_text(kind, "undefined") || same_text(kind, "null") {
                    arg.kind.clone()
                } else if same_text(kind, "string") {
                    match &arg.string_value {
                        Some(v) => v.clone(),
                        None => String::new(),
                    }
                } else if same_text(kind, "number") {
                    match &arg.number_text {
                        Some(v) => v.clone(),
                        None => String::new(),
                    }
                } else if same_text(kind, "object") {
                    String::from_str("[object Object]")
                } else if same_text(kind, "function") {
                    if arg.callable {
                        String::from_str("function () { }")
                    } else {
                        String::new()
                    }
                } else {
                    let mut text = arg.kind.clone();
                    text.append(" ");
                    text.append(arg.debug_text.as_str());
                    text
                }
            },
        }
    }

    /// The line that `console.log`, `console.warn` or `console.error` writes
    /// for its arguments.
    pub fn log_line(arguments: &Vec<LogArgument>) -> (line: String)
        ensures
            line@ == log_line_text(arguments@),
    {
        let mut line = String::new();
        let mut i: usize = 0;
        while i < arguments.len()
            invariant
                0 <= i <= arguments@.len(),
                line@ == arguments_log_text(arguments@.take(i as int)),
            decreases arguments@.len() - i,
        {
            assert(arguments@.take(i + 1).drop_last() =~= arguments@.take(i as int));
            let text = Console::log_argument(Some(&arguments[i]));
            line.append(text.as_str());
            line.append(" ");
            i = i + 1;
        }
        assert(arguments@.take(arguments@.len() as int) =~= arguments@);
        line.append("\n");
        line
    }
}

/// What each kind of argument is written as, whole: a string as its entire
/// string value, a number as its entire text, `undefined` and `null` as their
/// names, an object as `[object Object]`, a callable function as
/// `function () { }`, and any other kind as its name, a space and its entire
/// debug text.
pub proof fn lemma_arguments_are_written_whole(a: LogArgument)
    ensures
        a.kind@ == "string"@ && a.string_value is Some ==> argument_log_text(Some(a))
            == a.string_value->0@,
        a.kind@ == "number"@ && a.number_text is Some ==> argument_log_text(Some(a))
            == a.number_text->0@,
        a.kind@ == "undefined"@ ==> argument_log_text(Some(a)) == "undefined"@,
        a.kind@ == "null"@ ==> argument_log_text(Some(a)) == "null"@,
        a.kind@ == "object"@ ==> argument_log_text(Some(a)) == "[object Object]"@,
        a.kind@ == "function"@ && a.callable ==> argument_log_text(Some(a)) == "function () { }"@,
        a.kind@ != "undefined"@ && a.kind@ != "null"@ && a.kind@ != "string"@ && a.kind@ != "number"@
            && a.kind@ != "object"@ && a.kind@ != "function"@ ==> argument_log_text(Some(a))
            == a.kind@ + " "@ + a.debug_text@,
{
    reveal_strlit("string");
    reveal_strlit("number");
    reveal_strlit("undefined");
    reveal_strlit("null");
    reveal_strlit("object");
    reveal_strlit("function");
    assert("string"@ != "number"@) by {
        assert("string"@[0] != "number"@[0]);
    }
    assert("string"@ != "object"@) by {
        assert("string"@[0] != "object"@[0]);
    }
    assert("number"@ != "object"@) by {
        assert("number"@[0] != "object"@[0]);
    }
    assert("string"@.len() == 6 && "number"@.len() == 6 && "undefined"@.len() == 9);
    assert("null"@.len() == 4 && "function"@.len() == 8 && "object"@.len() == 6);
    assert("string"@ != "undefined"@ && "string"@ != "null"@ && "string"@ != "function"@);
    assert("number"@ != "undefined"@ && "number"@ != "null"@ && "number"@ != "function"@);
    assert("object"@ != "undefined"@ && "object"@ != "null"@ && "object"@ != "function"@);
    assert("undefined"@ != "null"@ && "function"@ != "undefined"@ && "function"@ != "null"@);
}

/// A line with one string argument is that whole string, a space and a line
/// break.
pub proof fn lemma_single_string_line(a: LogArgument)
    requires
        a.kind@ == "string"@,
        a.string_value is Some,
    ensures
        log_line_text(seq![a]) == a.string_value->0@ + " "@ + "\n"@,
{
    lemma_arguments_are_written_whole(a);
    assert(argument_log_text(Some(a)) == a.string_value->0@);
    assert(seq![a].drop_last() =~= Seq::<LogArgument>::empty());
    assert(seq![a].last() == a);
    assert(arguments_log_text(Seq::<LogArgument>::empty()) == Seq::<char>::empty());
    assert(arguments_log_text(seq![a]) == Seq::<char>::empty() + argument_log_text(Some(a)) + " "@);
    assert(Seq::<char>::empty() + a.string_value->0@ + " "@ =~= a.string_value->0@ + " "@);
}

/// A console line holds one space-terminated text per argument, whatever
/// the arguments: appending an argument appends its text and a space, before
/// the final line break.
pub proof fn lemma_log_line_appends(arguments: Seq<LogArgument>, argument: LogArgument)
    ensures
        log_line_text(arguments.push(argument)) == arguments_log_text(arguments)
            + argument_log_text(Some(argument)) + " "@ + "\n"@,
        log_line_text(Seq::empty()) == "\n"@,
{
    assert(arguments.push(argument).drop_last() =~= arguments);
    assert(arguments_log_text(Seq::<LogArgument>::empty()) == Seq::<char>::empty());
    assert(Seq::<char>::empty() + "\n"@ =~= "\n"@);
}

} // verus!
