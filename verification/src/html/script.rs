use vstd::prelude::*;

verus! {

/// A script of a page: either inline code in `source` (with an empty `src`),
/// or a reference to a file in `src` (with an empty `source`).
pub struct Script {
    pub source: String,
    pub src: String,
}

/// A `<script>` element as the HTML parser found it: its `src` attribute, if
/// it has one, and its inner HTML.
pub struct ScriptElement {
    pub src: Option<String>,
    pub inner_html: String,
}

impl Script {
    /// Whether the script refers to a file: its `src` is not empty.
    pub open spec fn is_external(self) -> bool {
        self.src@.len() != 0
    }

    /// The script that a `<script>` element stands for: with no `src`
    /// attribute, its inner HTML is the inline source; with one, the attribute
    /// is the file to load and the source is empty.
    pub open spec fn describes(self, element: ScriptElement) -> bool {
        match element.src {
            None => self.source@ == element.inner_html@ && self.src@ == Seq::<char>::empty(),
            Some(src) => self.source@ == Seq::<char>::empty() && self.src@ == src@,
        }
    }

    /// Builds the script for a `<script>` element.
    pub fn from_element(element: &ScriptElement) -> (script: Script)
        ensures
            script.describes(*element),
    {
        match &element.src {
            None => Script { source: element.inner_html.clone(), src: String::new() },
            Some(src) => Script { source: String::new(), src: src.clone() },
        }
    }
}

} // verus!
