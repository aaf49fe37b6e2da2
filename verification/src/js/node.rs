use vstd::prelude::*;

use crate::html::document::{
    id_selector_is_valid,
    css_selector_is_valid, html_first_match, id_selector, Document, FoundElement,
};
use crate::js::arguments::{argument_text, first_string_argument};

verus! {

/// The `document` node of the JavaScript environment.
pub struct Node;

/// Why `document.getElementById` failed.
pub enum NodeError {
    /// It was called with no argument.
    MissingArgument,
    /// The id does not make a selector that scraper accepts.
    InvalidSelector,
}

/// The message of the `TypeError` thrown for a call with no argument.
pub open spec fn missing_argument_message() -> Seq<char> {
    "Document.getElementById: At least 1 argument required, but only 0 passed"@
}

impl Node {
    /// The message of the `TypeError` thrown for a call with no argument.
    pub fn missing_argument_message() -> (message: String)
        ensures
            message@ == missing_argument_message(),
    {
        String::from_str("Document.getElementById: At least 1 argument required, but only 0 passed")
    }

    /// `document.getElementById(id)`: with no argument, an error; else the
    /// first element found by `#id`, where `id` is the first argument's string
    /// value (empty text when it is not a string). That id must make a selector
    /// that scraper accepts. Each entry of `arguments` is an argument's string
    /// value, if it is a string.
    pub fn get_element_by_id(document: &Document, arguments: &Vec<Option<String>>) -> (found:
        Result<Option<FoundElement>, NodeError>)
        requires
            arguments@.len() > 0 ==> css_selector_is_valid(id_selector(argument_text(arguments@[0]))),
        ensures
            arguments@.len() == 0 ==> found matches Err(NodeError::MissingArgument),
            arguments@.len() > 0 ==> found == Ok::<Option<FoundElement>, NodeError>(
                html_first_match(document.contents@, id_selector(argument_text(arguments@[0]))),
            ),
    {
        match first_string_argument(arguments) {
            None => Err(NodeError::MissingArgument),
            Some(id) => Ok(document.get_element_by_id(id.as_str())),
        }
    }

    /// `document.getElementById(id)` for any arguments: as
    /// `get_element_by_id`, and an error when the id makes a selector that
    /// scraper refuses (an empty id, or a first argument that is not a
    /// string, among others).
    pub fn find_element_by_id(document: &Document, arguments: &Vec<Option<String>>) -> (found:
        Result<Option<FoundElement>, NodeError>)
        ensures
            arguments@.len() == 0 ==> found matches Err(NodeError::MissingArgument),
            arguments@.len() > 0 ==> {
                let selector = id_selector(argument_text(arguments@[0]));
                &&& found is Ok <==> css_selector_is_valid(selector)
                &&& (!css_selector_is_valid(selector) ==> found matches Err(NodeError::InvalidSelector))
                &&& (argument_text(arguments@[0]).len() == 0 ==> found matches Err(NodeError::InvalidSelector))
                &&& (found matches Ok(element) ==> element == html_first_match(document.contents@, selector))
            },
    {
        match first_string_argument(arguments) {
            None => Err(NodeError::MissingArgument),
            Some(id) => if id_selector_is_valid(id.as_str()) {
                Node::get_element_by_id(document, arguments)
            } else {
                Err(NodeError::InvalidSelector)
            },
        }
    }
}

} // verus!
