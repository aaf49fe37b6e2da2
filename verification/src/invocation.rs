use vstd::prelude::*;

use crate::text::same_text;

verus! {

/// What the browser is asked to run: an HTML page or a JavaScript file,
/// given by path.
pub enum Invocation {
    Html(String),
    Script(String),
}

impl Invocation {
    /// Reads the command-line arguments (the program name left out): fewer
    /// than two is no invocation; `--html PATH` loads a page; any other first
    /// argument runs the JavaScript file at the second argument.
    pub fn from_args(args: &Vec<String>) -> (invocation: Option<Invocation>)
        ensures
            args@.len() < 2 <==> invocation is None,
            args@.len() >= 2 && args@[0]@ == "--html"@ ==> (invocation matches Some(
                Invocation::Html(path),
            ) && path@ == args@[1]@),
            args@.len() >= 2 && args@[0]@ != "--html"@ ==> (invocation matches Some(
                Invocation::Script(path),
            ) && path@ == args@[1]@),
    {
        if args.len() < 2 {
            return None;
        }
        let path = args[1].clone();
        if same_text(args[0].as_str(), "--html") {
            Some(Invocation::Html(path))
        } else {
            Some(Invocation::Script(path))
        }
    }
}

} // verus!
