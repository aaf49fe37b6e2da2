use vstd::prelude::*;

verus! {

/// The text of an argument: its string value, or empty text when it is not a
/// string.
pub open spec fn argument_text(argument: Option<String>) -> Seq<char> {
    match argument {
        Some(text) => text@,
        None => Seq::empty(),
    }
}

/// The first argument of a native function, read as text: `None` when there
/// is no argument; else its string value, or empty text when it is not a
/// string. Each entry of `arguments` is an argument's string value, if it is
/// a string.
pub fn first_string_argument(arguments: &Vec<Option<String>>) -> (first: Option<String>)
    ensures
        arguments@.len() == 0 <==> first is None,
        first matches Some(text) ==> text@ == argument_text(arguments@[0]),
{
    if arguments.len() < 1 {
        return None;
    }
    match &arguments[0] {
        Some(text) => Some(text.clone()),
        None => Some(String::new()),
    }
}

} // verus!
