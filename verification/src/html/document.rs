use vstd::prelude::*;

use crate::html::script::{Script, ScriptElement};
use crate::text::{bool_text, bool_to_text, same_text};
use scraper::{Html, Selector};

verus! {

/// An element of a page's element tree, listed in tree order: its tag name,
/// its depth (the number of its ancestors, the document node included), and
/// whether it has any child node (text and comments count).
pub struct OutlineEntry {
    pub name: String,
    pub depth: usize,
    pub has_children: bool,
}

/// The `<script>` elements that scraper's `Html::parse_document` builds from
/// `html`, in the order in which `Html::select` with the selector `script`
/// yields them.
pub uninterp spec fn html_script_elements(html: Seq<char>) -> Seq<ScriptElement>;

/// The elements of the tree that scraper's `Html::parse_document` builds from
/// `html`, as `ElementRef::descendent_elements` yields them from the root
/// element (which comes first).
pub uninterp spec fn html_element_outline(html: Seq<char>) -> Seq<OutlineEntry>;

/// Wraps scraper: `Html::parse_document`, then `Html::select` with the
/// selector `script`, keeping of each element its `src` attribute
/// (`ElementRef::attr`) and its inner HTML (`ElementRef::inner_html`). The
/// contract claims only that the list is the one named
/// `html_script_elements` for this text: the parse is deterministic, and with
/// scraper's `deterministic` feature (which Cargo.toml turns on) attributes
/// keep their source order, so the inner HTML is written the same way each
/// time.
#[verifier::external_body]
fn select_script_elements(html: &str) -> (elements: Vec<ScriptElement>)
    ensures
        elements@ == html_script_elements(html@),
{
    let document = Html::parse_document(html);
    let selector = Selector::parse("script").unwrap();
    document
        .select(&selector)
        .map(|el| ScriptElement { src: el.attr("src").map(String::from), inner_html: el.inner_html() })
        .collect()
}

/// An element that a selector found: its tag name and its classes (sorted,
/// without repeats, as `Element::classes` yields them).
pub struct FoundElement {
    pub name: String,
    pub classes: Vec<String>,
}

/// A CSS selector that scraper's `Selector::parse` refuses.
pub struct InvalidSelector;

/// Whether scraper's `Selector::parse` accepts `selector`.
pub uninterp spec fn css_selector_is_valid(selector: Seq<char>) -> bool;

/// The first element that `Html::select` yields for `selector` in the tree
/// that `Html::parse_document` builds from `html`, if any.
pub uninterp spec fn html_first_match(html: Seq<char>, selector: Seq<char>) -> Option<FoundElement>;

/// The debug text (`{:?}`) of the qualified name of each element that
/// `Html::select` yields for `selector` in the tree that
/// `Html::parse_document` builds from `html`, in that order.
pub uninterp spec fn html_selected_name_texts(html: Seq<char>, selector: Seq<char>) -> Seq<Seq<char>>;

/// Wraps scraper's `Selector::parse`, keeping only whether it succeeds. The
/// contract claims that the answer is the one named `css_selector_is_valid`,
/// and that the selector `#` alone is refused (cssparser reads a lone `#` as
/// a delimiter, which starts no simple selector, so selectors reports an
/// empty selector).
#[verifier::external_body]
fn selector_is_valid(selector: &str) -> (valid: bool)
    ensures
        valid == css_selector_is_valid(selector@),
        selector@ == "#"@ ==> !valid,
{
    Selector::parse(selector).is_ok()
}

/// Wraps scraper: `Html::parse_document` and the first item of `Html::select`
/// for a selector that `Selector::parse` accepts, keeping its `Element::name`
/// and `Element::classes`. The contract claims that what it finds is the
/// element named `html_first_match` for this text and selector.
#[verifier::external_body]
fn first_match(html: &str, selector: &str) -> (found: Option<FoundElement>)
    requires
        css_selector_is_valid(selector@),
    ensures
        found == html_first_match(html@, selector@),
{
    let selector = Selector::parse(selector).unwrap();
    let document = Html::parse_document(html);
    let found = document.select(&selector).next();
    found.map(|el| FoundElement {
        name: String::from(el.value().name()),
        classes: el.value().classes().map(String::from).collect(),
    })
}

/// Wraps scraper: `Html::parse_document` and `Html::select` for a selector
/// that `Selector::parse` accepts, keeping of each element the debug text of
/// its qualified name (`Element::name` field). The contract claims that the
/// texts are the ones named `html_selected_name_texts`.
#[verifier::external_body]
fn selected_name_texts(html: &str, selector: &str) -> (names: Vec<String>)
    requires
        css_selector_is_valid(selector@),
    ensures
        names.deep_view() == html_selected_name_texts(html@, selector@),
{
    let selector = Selector::parse(selector).unwrap();
    let document = Html::parse_document(html);
    document.select(&selector).map(|el| format!("{:?}", el.value().name)).collect()
}

/// The selector that finds an element by its id: `#` and the id.
pub open spec fn id_selector(id: Seq<char>) -> Seq<char> {
    "#"@ + id
}

/// The selector that looks an element up by id is `#` followed by the id,
/// character for character, and nothing else: no combinator or other
/// condition narrows where the element may stand in the page.
pub proof fn lemma_id_selector_is_hash_then_id(id: Seq<char>)
    ensures
        id_selector(id).len() == id.len() + 1,
        id_selector(id)[0] == '#',
        forall|k: int| 0 <= k < id.len() ==> #[trigger] id_selector(id)[k + 1] == id[k],
        id_selector(id) == seq!['#'] + id,
{
    reveal_strlit("#");
    assert(id_selector(id) =~= seq!['#'] + id);
}

/// Whether scraper accepts the selector `#id` that looks for `id`; it
/// refuses it for an empty id.
pub fn id_selector_is_valid(id: &str) -> (valid: bool)
    ensures
        valid == css_selector_is_valid(id_selector(id@)),
        valid == css_selector_is_valid("#"@ + id@),
        id@.len() == 0 ==> !valid,
{
    let mut selector = String::from_str("#");
    selector.append(id);
    proof {
        if id@.len() == 0 {
            assert(selector@ =~= "#"@);
        }
    }
    selector_is_valid(selector.as_str())
}

/// Wraps scraper: `Html::parse_document`, then `ElementRef::descendent_elements`
/// of `Html::root_element`, keeping of each element its name
/// (`Element::name`), the number of its ancestors (`NodeRef::ancestors`) and
/// `NodeRef::has_children`. The contract claims only that the list is the one
/// named `html_element_outline` for this text.
#[verifier::external_body]
fn element_outline(html: &str) -> (outline: Vec<OutlineEntry>)
    ensures
        outline@ == html_element_outline(html@),
{
    let document = Html::parse_document(html);
    let root = document.root_element();
    root.descendent_elements()
        .map(|el| OutlineEntry {
            name: String::from(el.value().name()),
            depth: el.ancestors().count(),
            has_children: el.has_children(),
        })
        .collect()
}

/// Whether an outline entry is a `<script>` element.
pub open spec fn is_script_entry(entry: OutlineEntry) -> bool {
    entry.name@ == "script"@
}

/// Every entry strictly between `j` and `i` lies deeper than entry `j`: the
/// subtree of `j` has not been closed before `i`.
pub open spec fn stays_open(outline: Seq<OutlineEntry>, j: int, i: int) -> bool {
    forall|k: int| j < k < i ==> #[trigger] outline[k].depth > outline[j].depth
}

/// Entry `j` is an ancestor of entry `i` in the tree that the outline lists.
pub open spec fn encloses(outline: Seq<OutlineEntry>, j: int, i: int) -> bool {
    &&& 0 <= j < i < outline.len()
    &&& outline[j].depth < outline[i].depth
    &&& stays_open(outline, j, i)
}

/// Entry `i` lies inside a `<script>` element.
pub open spec fn inside_script(outline: Seq<OutlineEntry>, i: int) -> bool {
    exists|j: int| #[trigger] encloses(outline, j, i) && is_script_entry(outline[j])
}

/// The traversal lists every element but the root, except those that lie
/// inside a `<script>` element.
pub open spec fn is_listed(outline: Seq<OutlineEntry>, i: int) -> bool {
    1 <= i < outline.len() && !inside_script(outline, i)
}

/// The line that the traversal writes for an element: its name, ` - `, and
/// whether it has children.
pub open spec fn entry_line(entry: OutlineEntry) -> Seq<char> {
    entry.name@ + " - "@ + bool_text(entry.has_children)
}

/// The lines of the listed entries among the first `n`, in order.
pub open spec fn traversal_lines(outline: Seq<OutlineEntry>, n: int) -> Seq<Seq<char>>
    decreases n,
{
    if n <= 0 {
        Seq::empty()
    } else if is_listed(outline, n - 1) {
        traversal_lines(outline, n - 1).push(entry_line(outline[n - 1]))
    } else {
        traversal_lines(outline, n - 1)
    }
}

/// In a page with no `<script>` element, the traversal writes one line per
/// element other than the root, in order and at any depth: the element's
/// name, ` - `, and `true` or `false` for whether it has children.
pub proof fn lemma_script_free_page_lists_every_element(outline: Seq<OutlineEntry>, n: int)
    requires
        1 <= n <= outline.len(),
        forall|k: int| 0 <= k < outline.len() ==> !is_script_entry(#[trigger] outline[k]),
    ensures
        traversal_lines(outline, n).len() == n - 1,
        forall|k: int|
            0 <= k < n - 1 ==> #[trigger] traversal_lines(outline, n)[k] == outline[k + 1].name@
                + " - "@ + (if outline[k + 1].has_children {
                "true"@
            } else {
                "false"@
            }),
    decreases n,
{
    if n == 1 {
        assert(!is_listed(outline, 0));
        assert(traversal_lines(outline, 0) == Seq::<Seq<char>>::empty());
    } else {
        lemma_script_free_page_lists_every_element(outline, n - 1);
        assert(!inside_script(outline, n - 1)) by {
            assert forall|j: int| #[trigger] encloses(outline, j, n - 1) implies !is_script_entry(outline[j]) by {
            }
        }
        assert(is_listed(outline, n - 1));
    }
}

/// Whether an element is listed does not depend on how deep the tree lies:
/// moving every element the same number of levels deeper or shallower lists
/// the same elements.
pub proof fn lemma_listing_ignores_depth_shift(
    outline: Seq<OutlineEntry>,
    shifted: Seq<OutlineEntry>,
    c: int,
    i: int,
)
    requires
        shifted.len() == outline.len(),
        forall|k: int|
            0 <= k < outline.len() ==> (#[trigger] shifted[k]).name@ == outline[k].name@
                && shifted[k].depth == outline[k].depth + c,
    ensures
        is_listed(shifted, i) == is_listed(outline, i),
{
    assert forall|j: int| encloses(outline, j, i) <==> encloses(shifted, j, i) by {
        if 0 <= j < i < outline.len() {
            assert(shifted[j].depth == outline[j].depth + c);
            assert(shifted[i].depth == outline[i].depth + c);
            if stays_open(outline, j, i) {
                assert forall|k: int| j < k < i implies #[trigger] shifted[k].depth > shifted[j].depth by {
                    assert(outline[k].depth > outline[j].depth);
                }
            }
            if stays_open(shifted, j, i) {
                assert forall|k: int| j < k < i implies #[trigger] outline[k].depth > outline[j].depth by {
                    assert(shifted[k].depth > shifted[j].depth);
                }
            }
        }
    }
    if inside_script(outline, i) {
        let j = choose|j: int| #[trigger] encloses(outline, j, i) && is_script_entry(outline[j]);
        assert(encloses(shifted, j, i) && is_script_entry(shifted[j]));
    }
    if inside_script(shifted, i) {
        let j = choose|j: int| #[trigger] encloses(shifted, j, i) && is_script_entry(shifted[j]);
        assert(encloses(outline, j, i) && is_script_entry(outline[j]));
    }
}

/// What the traversal's state says at position `i`: with no depth, no
/// `<script>` entry before `i` is still open; with a depth `d`, some open
/// `<script>` entry before `i` lies at depth `d`, and every open one lies at
/// depth `d` or deeper.
pub open spec fn hiding_state_holds(outline: Seq<OutlineEntry>, i: int, state: Option<usize>) -> bool {
    match state {
        None => forall|j: int|
            0 <= j < i && is_script_entry(#[trigger] outline[j]) ==> !stays_open(outline, j, i),
        Some(d) => {
            &&& exists|j: int|
                0 <= j < i && is_script_entry(#[trigger] outline[j]) && outline[j].depth == d
                    && stays_open(outline, j, i)
            &&& forall|j: int|
                0 <= j < i && is_script_entry(#[trigger] outline[j]) && stays_open(outline, j, i)
                    ==> outline[j].depth >= d
        },
    }
}

/// With the state at `i`, entry `i` is covered (deeper than the depth kept)
/// exactly when it lies inside a `<script>` element.
proof fn lemma_covered_iff_inside_script(
    outline: Seq<OutlineEntry>,
    i: int,
    state: Option<usize>,
    covered: bool,
)
    requires
        0 <= i < outline.len(),
        hiding_state_holds(outline, i, state),
        covered == match state {
            Some(d) => outline[i].depth > d,
            None => false,
        },
    ensures
        covered == inside_script(outline, i),
{
    match state {
        Some(d) => {
            let j0 = choose|j: int|
                0 <= j < i && is_script_entry(#[trigger] outline[j]) && outline[j].depth == d
                    && stays_open(outline, j, i);
            if covered {
                assert(encloses(outline, j0, i));
            } else {
                assert forall|j: int| #[trigger] encloses(outline, j, i) implies !is_script_entry(outline[j]) by {
                    if is_script_entry(outline[j]) {
                        assert(outline[j].depth >= d);
                    }
                }
            }
        },
        None => {
            assert forall|j: int| #[trigger] encloses(outline, j, i) implies !is_script_entry(outline[j]) by {
                if is_script_entry(outline[j]) {
                    assert(!stays_open(outline, j, i));
                }
            }
        },
    }
}

/// One step of the traversal keeps its state truthful.
proof fn lemma_hiding_state_advances(
    outline: Seq<OutlineEntry>,
    i: int,
    prev: Option<usize>,
    next: Option<usize>,
    covered: bool,
)
    requires
        0 <= i < outline.len(),
        hiding_state_holds(outline, i, prev),
        covered == match prev {
            Some(d) => outline[i].depth > d,
            None => false,
        },
        next == if covered {
            prev
        } else if is_script_entry(outline[i]) {
            Some(outline[i].depth)
        } else {
            None
        },
    ensures
        hiding_state_holds(outline, i + 1, next),
{
    let e = outline[i].depth;
    if covered {
        let d = prev.unwrap();
        let j0 = choose|j: int|
            0 <= j < i && is_script_entry(#[trigger] outline[j]) && outline[j].depth == d
                && stays_open(outline, j, i);
        assert(stays_open(outline, j0, i + 1)) by {
            assert forall|k: int| j0 < k < i + 1 implies #[trigger] outline[k].depth > outline[j0].depth by {
                if k < i {
                    assert(stays_open(outline, j0, i));
                }
            }
        }
        assert forall|j: int|
            0 <= j < i + 1 && is_script_entry(#[trigger] outline[j]) && stays_open(outline, j, i + 1)
            implies outline[j].depth >= d by {
            if j < i {
                assert(stays_open(outline, j, i)) by {
                    assert forall|k: int| j < k < i implies #[trigger] outline[k].depth > outline[j].depth by {
                        assert(stays_open(outline, j, i + 1));
                    }
                }
            }
        }
    } else {
        // Every script entry before `i` that was still open is as shallow as `i` or shallower.
        assert forall|j: int| 0 <= j < i && is_script_entry(#[trigger] outline[j]) implies !stays_open(outline, j, i + 1) by {
            if stays_open(outline, j, i + 1) {
                assert(stays_open(outline, j, i)) by {
                    assert forall|k: int| j < k < i implies #[trigger] outline[k].depth > outline[j].depth by {
                        assert(stays_open(outline, j, i + 1));
                    }
                }
                assert(outline[i].depth > outline[j].depth);
                match prev {
                    Some(d) => {
                        assert(outline[j].depth >= d);
                    },
                    None => {},
                }
            }
        }
        if is_script_entry(outline[i]) {
            assert(stays_open(outline, i, i + 1));
        }
    }
}

/// How many of the scripts refer to files.
pub open spec fn external_count(scripts: Seq<Script>) -> nat
    decreases scripts.len(),
{
    if scripts.len() == 0 {
        0
    } else {
        external_count(scripts.drop_last()) + if scripts.last().is_external() {
            1nat
        } else {
            0nat
        }
    }
}

/// The files that the scripts refer to, in order.
pub open spec fn external_paths(scripts: Seq<Script>) -> Seq<Seq<char>>
    decreases scripts.len(),
{
    if scripts.len() == 0 {
        Seq::empty()
    } else if scripts.last().is_external() {
        external_paths(scripts.drop_last()).push(scripts.last().src@)
    } else {
        external_paths(scripts.drop_last())
    }
}

/// The JavaScript of a page: all of its code, script by script, in order;
/// an inline script gives its source, a script that refers to a file gives
/// that file's contents (`files` holds them, one per such script, in order;
/// a file that could not be read gives empty text).
pub open spec fn assembled_source(scripts: Seq<Script>, files: Seq<Seq<char>>) -> Seq<char>
    decreases scripts.len(),
{
    if scripts.len() == 0 {
        Seq::empty()
    } else if scripts.last().is_external() {
        assembled_source(scripts.drop_last(), files) + files[external_count(scripts.drop_last()) as int]
    } else {
        assembled_source(scripts.drop_last(), files) + scripts.last().source@
    }
}

/// The sources of the inline scripts, one after another.
pub open spec fn inline_concat(scripts: Seq<Script>) -> Seq<char>
    decreases scripts.len(),
{
    if scripts.len() == 0 {
        Seq::empty()
    } else if scripts.last().is_external() {
        inline_concat(scripts.drop_last())
    } else {
        inline_concat(scripts.drop_last()) + scripts.last().source@
    }
}

/// Whether no script in the list refers to a file.
pub open spec fn all_inline(scripts: Seq<Script>) -> bool {
    forall|i: int| 0 <= i < scripts.len() ==> !(#[trigger] scripts[i]).is_external()
}

proof fn lemma_external_paths_len(scripts: Seq<Script>)
    ensures
        external_paths(scripts).len() == external_count(scripts),
    decreases scripts.len(),
{
    if scripts.len() > 0 {
        lemma_external_paths_len(scripts.drop_last());
    }
}

/// The files referred to by two lists of scripts, one after the other, are
/// those of the first list followed by those of the second.
pub proof fn lemma_external_count_adds(a: Seq<Script>, b: Seq<Script>)
    ensures
        external_count(a + b) == external_count(a) + external_count(b),
    decreases b.len(),
{
    if b.len() == 0 {
        assert(a + b =~= a);
    } else {
        assert((a + b).drop_last() =~= a + b.drop_last());
        assert((a + b).last() == b.last());
        lemma_external_count_adds(a, b.drop_last());
    }
}

/// The JavaScript of a page holds all of its code in order: the code of two
/// runs of scripts, one after the other, is the code of the first run
/// followed by the code of the second (which reads the files after those of
/// the first).
pub proof fn lemma_js_source_concatenates(a: Seq<Script>, b: Seq<Script>, files: Seq<Seq<char>>)
    requires
        files.len() == external_count(a + b),
    ensures
        assembled_source(a + b, files) == assembled_source(a, files) + assembled_source(
            b,
            files.skip(external_count(a) as int),
        ),
    decreases b.len(),
{
    lemma_external_count_adds(a, b);
    if b.len() == 0 {
        assert(a + b =~= a);
        assert(assembled_source(a, files) + Seq::<char>::empty() =~= assembled_source(a, files));
    } else {
        let b0 = b.drop_last();
        assert((a + b).drop_last() =~= a + b0);
        assert((a + b).last() == b.last());
        lemma_external_count_adds(a, b0);
        lemma_external_count_adds(b0, seq![b.last()]);
        assert(b0 + seq![b.last()] =~= b);
        lemma_js_source_concatenates(a, b0, files.take(external_count(a + b0) as int));
        lemma_assembled_uses_prefix(a + b0, files, external_count(a + b0) as int);
        lemma_assembled_uses_prefix(a, files, external_count(a) as int);
        lemma_assembled_uses_prefix(a, files.take(external_count(a + b0) as int), external_count(a) as int);
        assert(files.take(external_count(a + b0) as int).take(external_count(a) as int) =~= files.take(
            external_count(a) as int,
        ));
        let rest = files.skip(external_count(a) as int);
        assert(files.take(external_count(a + b0) as int).skip(external_count(a) as int) =~= rest.take(
            external_count(b0) as int,
        ));
        lemma_assembled_uses_prefix(b0, rest, external_count(b0) as int);
        if b.last().is_external() {
            assert(rest[external_count(b0) as int] == files[external_count(a + b0) as int]);
        }
    }
}

/// The code of a run of scripts reads only its own files: the first
/// `external_count` entries of `files`.
proof fn lemma_assembled_uses_prefix(scripts: Seq<Script>, files: Seq<Seq<char>>, n: int)
    requires
        external_count(scripts) <= n <= files.len(),
    ensures
        assembled_source(scripts, files.take(n)) == assembled_source(scripts, files),
    decreases scripts.len(),
{
    if scripts.len() > 0 {
        lemma_assembled_uses_prefix(scripts.drop_last(), files, n);
    }
}

/// One more script adds its whole code at the end: an inline script adds its
/// source, character for character; a script that refers to a file adds that
/// file's whole contents (the next file in `files`).
pub proof fn lemma_js_source_grows_by_whole_script(
    scripts: Seq<Script>,
    script: Script,
    files: Seq<Seq<char>>,
)
    ensures
        !script.is_external() ==> assembled_source(scripts.push(script), files) == assembled_source(
            scripts,
            files,
        ) + script.source@,
        script.is_external() ==> assembled_source(scripts.push(script), files) == assembled_source(
            scripts,
            files,
        ) + files[external_count(scripts) as int],
{
    assert(scripts.push(script).drop_last() =~= scripts);
    assert(scripts.push(script).last() == script);
}

/// A page with a single inline script has that script's whole source as its
/// JavaScript, whatever its length.
pub proof fn lemma_single_inline_script_source(script: Script, files: Seq<Seq<char>>)
    requires
        !script.is_external(),
    ensures
        assembled_source(seq![script], files) == script.source@,
{
    lemma_js_source_grows_by_whole_script(Seq::empty(), script, files);
    assert(Seq::<Script>::empty().push(script) =~= seq![script]);
    assert(Seq::<char>::empty() + script.source@ =~= script.source@);
}

/// The JavaScript of a page is exactly as long as all of its code: the
/// sources of its inline scripts and the contents of its files, added up.
pub proof fn lemma_js_source_length(scripts: Seq<Script>, files: Seq<Seq<char>>)
    requires
        files.len() >= external_count(scripts),
    ensures
        assembled_source(scripts, files).len() == code_length(scripts, files),
    decreases scripts.len(),
{
    if scripts.len() > 0 {
        let prev = scripts.drop_last();
        lemma_js_source_length(prev, files);
        assert(prev.push(scripts.last()) =~= scripts);
        lemma_js_source_grows_by_whole_script(prev, scripts.last(), files);
    }
}

/// The number of characters of code that the scripts hold: each inline
/// script's source, and each file's contents.
pub open spec fn code_length(scripts: Seq<Script>, files: Seq<Seq<char>>) -> nat
    decreases scripts.len(),
{
    if scripts.len() == 0 {
        0
    } else {
        let prev = scripts.drop_last();
        code_length(prev, files) + if scripts.last().is_external() {
            files[external_count(prev) as int].len()
        } else {
            scripts.last().source@.len()
        }
    }
}

/// A page whose scripts are all inline has as its JavaScript the inline
/// sources, one after another.
pub proof fn lemma_inline_only_source(scripts: Seq<Script>, files: Seq<Seq<char>>)
    requires
        all_inline(scripts),
    ensures
        assembled_source(scripts, files) == inline_concat(scripts),
    decreases scripts.len(),
{
    if scripts.len() > 0 {
        let prev = scripts.drop_last();
        assert(!scripts[scripts.len() - 1].is_external());
        assert(all_inline(prev)) by {
            assert forall|i: int| 0 <= i < prev.len() implies !(#[trigger] prev[i]).is_external() by {
                assert(prev[i] == scripts[i]);
            }
        }
        lemma_inline_only_source(prev, files);
    }
}

proof fn lemma_external_count_prefix(scripts: Seq<Script>, i: int)
    requires
        0 <= i < scripts.len(),
    ensures
        external_count(scripts.take(i)) + (if scripts[i].is_external() { 1nat } else { 0nat })
            <= external_count(scripts),
    decreases scripts.len(),
{
    if i < scripts.len() - 1 {
        lemma_external_count_prefix(scripts.drop_last(), i);
        assert(scripts.drop_last().take(i) =~= scripts.take(i));
        assert(scripts.drop_last()[i] == scripts[i]);
    } else {
        assert(scripts.drop_last() =~= scripts.take(i));
    }
}

/// An HTML page: its text and the scripts that it holds, in order.
pub struct Document {
    pub contents: String,
    pub scripts: Vec<Script>,
}

impl Document {
    /// The `<script>` elements of this page.
    pub open spec fn script_elements(self) -> Seq<ScriptElement> {
        html_script_elements(self.contents@)
    }

    /// The element outline of this page.
    pub open spec fn outline(self) -> Seq<OutlineEntry> {
        html_element_outline(self.contents@)
    }

    /// Parses a page and separates its scripts: one script per `<script>`
    /// element, in order, inline or external as `Script::describes` says.
    pub fn new(html: String) -> (document: Document)
        ensures
            document.contents@ == html@,
            document.scripts@.len() == document.script_elements().len(),
            forall|i: int|
                0 <= i < document.scripts@.len() ==> #[trigger] document.scripts@[i].describes(
                    document.script_elements()[i],
                ),
    {
        let elements = select_script_elements(html.as_str());
        let mut scripts: Vec<Script> = Vec::new();
        let mut i: usize = 0;
        while i < elements.len()
            invariant
                0 <= i <= elements@.len(),
                scripts@.len() == i,
                forall|k: int| 0 <= k < i ==> #[trigger] scripts@[k].describes(elements@[k]),
            decreases elements@.len() - i,
        {
            let script = Script::from_element(&elements[i]);
            scripts.push(script);
            i = i + 1;
        }
        Document { contents: html, scripts }
    }

    /// The files that the page's scripts refer to, in order: what must be
    /// read before `get_js_source` can assemble the page's JavaScript.
    pub fn script_files(&self) -> (paths: Vec<String>)
        ensures
            paths@.len() == external_paths(self.scripts@).len(),
            paths@.len() == external_count(self.scripts@),
            forall|k: int| 0 <= k < paths@.len() ==> #[trigger] paths@[k]@ == external_paths(self.scripts@)[k],
    {
        let mut paths: Vec<String> = Vec::new();
        let mut i: usize = 0;
        while i < self.scripts.len()
            invariant
                0 <= i <= self.scripts@.len(),
                paths@.len() == external_paths(self.scripts@.take(i as int)).len(),
                forall|k: int|
                    0 <= k < paths@.len() ==> #[trigger] paths@[k]@ == external_paths(
                        self.scripts@.take(i as int),
                    )[k],
            decreases self.scripts@.len() - i,
        {
            assert(self.scripts@.take(i + 1).drop_last() =~= self.scripts@.take(i as int));
            if self.scripts[i].src.unicode_len() != 0 {
                paths.push(self.scripts[i].src.clone());
            }
            i = i + 1;
        }
        assert(self.scripts@.take(self.scripts@.len() as int) =~= self.scripts@);
        proof {
            lemma_external_paths_len(self.scripts@);
        }
        paths
    }

    /// All of the page's JavaScript, script by script in order, given the
    /// contents of the files that `script_files` lists (in that order; a file
    /// that could not be read is given as empty text): each inline script
    /// adds its source, each script that refers to a file adds the file's
    /// contents.
    pub fn get_js_source(&self, files: &Vec<String>) -> (source: String)
        requires
            files@.len() == external_count(self.scripts@),
        ensures
            source@ == assembled_source(self.scripts@, files@.map_values(|f: String| f@)),
    {
        let ghost contents = files@.map_values(|f: String| f@);
        let mut source = String::new();
        let file_count: usize = files.len();
        let mut read: usize = 0;
        let mut i: usize = 0;
        while i < self.scripts.len()
            invariant
                0 <= i <= self.scripts@.len(),
                contents == files@.map_values(|f: String| f@),
                files@.len() == external_count(self.scripts@),
                file_count == files@.len(),
                read == external_count(self.scripts@.take(i as int)),
                source@ == assembled_source(self.scripts@.take(i as int), contents),
            decreases self.scripts@.len() - i,
        {
            let ghost prefix = self.scripts@.take(i as int);
            assert(self.scripts@.take(i + 1).drop_last() =~= prefix);
            proof {
                lemma_external_count_prefix(self.scripts@, i as int);
            }
            if self.scripts[i].src.unicode_len() != 0 {
                assert(read < file_count);
                source.append(files[read].as_str());
                read = read + 1;
            } else {
                source.append(self.scripts[i].source.as_str());
            }
            i = i + 1;
        }
        assert(self.scripts@.take(self.scripts@.len() as int) =~= self.scripts@);
        source
    }

    /// The first element whose id is `id`, searched with the selector `#id`,
    /// if any; the id must make a selector that scraper accepts (an id that is
    /// a CSS identifier).
    pub fn get_element_by_id(&self, id: &str) -> (found: Option<FoundElement>)
        requires
            css_selector_is_valid(id_selector(id@)),
        ensures
            found == html_first_match(self.contents@, id_selector(id@)),
            found == html_first_match(self.contents@, "#"@ + id@),
    {
        let mut selector = String::from_str("#");
        selector.append(id);
        first_match(self.contents.as_str(), selector.as_str())
    }

    /// Looks an element up by id whatever the id: an error when scraper
    /// refuses the selector `#id` (an empty id among others), else what
    /// `get_element_by_id` finds.
    pub fn find_element_by_id(&self, id: &str) -> (found: Result<Option<FoundElement>, InvalidSelector>)
        ensures
            found is Ok <==> css_selector_is_valid(id_selector(id@)),
            id@.len() == 0 ==> found is Err,
            found matches Ok(element) ==> element == html_first_match(self.contents@, id_selector(id@)),
            found matches Ok(element) ==> element == html_first_match(self.contents@, "#"@ + id@),
    {
        if id_selector_is_valid(id) {
            Ok(self.get_element_by_id(id))
        } else {
            Err(InvalidSelector)
        }
    }

    /// The lines that loading the page writes for its elements whose id is
    /// `a`: `-> ` and the debug text of each one's qualified name, in the
    /// order in which the selector `#a` finds them (none if scraper refused
    /// that selector).
    pub fn id_a_lines(&self) -> (lines: Vec<String>)
        ensures
            css_selector_is_valid("#a"@) ==> {
                let names = html_selected_name_texts(self.contents@, "#a"@);
                &&& lines@.len() == names.len()
                &&& forall|k: int| 0 <= k < lines@.len() ==> #[trigger] lines@[k]@ == "-> "@ + names[k]
            },
            !css_selector_is_valid("#a"@) ==> lines@.len() == 0,
    {
        let mut lines: Vec<String> = Vec::new();
        if !selector_is_valid("#a") {
            return lines;
        }
        let names = selected_name_texts(self.contents.as_str(), "#a");
        let ghost texts = names.deep_view();
        let mut i: usize = 0;
        while i < names.len()
            invariant
                0 <= i <= names@.len(),
                texts == names.deep_view(),
                texts.len() == names@.len(),
                lines@.len() == i,
                forall|k: int| 0 <= k < i ==> #[trigger] lines@[k]@ == "-> "@ + texts[k],
            decreases names@.len() - i,
        {
            let mut line = String::from_str("-> ");
            line.append(names[i].as_str());
            assert(texts[i as int] == names@[i as int]@);
            lines.push(line);
            i = i + 1;
        }
        lines
    }

    /// The lines that a traversal of the element tree writes, in order: one
    /// per element below the root, skipping what lies inside `<script>`.
    pub fn traverse(&self) -> (lines: Vec<String>)
        ensures
            lines@.len() == traversal_lines(self.outline(), self.outline().len() as int).len(),
            forall|k: int|
                0 <= k < lines@.len() ==> #[trigger] lines@[k]@ == traversal_lines(
                    self.outline(),
                    self.outline().len() as int,
                )[k],
    {
        let outline = element_outline(self.contents.as_str());
        let ghost o = outline@;
        let n: usize = outline.len();
        let mut lines: Vec<String> = Vec::new();
        let mut hidden_below: Option<usize> = None;
        let mut i: usize = 0;
        while i < n
            invariant
                n == o.len(),
                o == outline@,
                0 <= i <= n,
                lines@.len() == traversal_lines(o, i as int).len(),
                forall|k: int|
                    0 <= k < lines@.len() ==> #[trigger] lines@[k]@ == traversal_lines(o, i as int)[k],
                hiding_state_holds(o, i as int, hidden_below),
            decreases n - i,
        {
            let depth = outline[i].depth;
            let covered = match hidden_below {
                Some(d) => depth > d,
                None => false,
            };
            proof {
                lemma_covered_iff_inside_script(o, i as int, hidden_below, covered);
            }
            let ghost prev = hidden_below;
            if !covered {
                if i >= 1 {
                    let mut line = outline[i].name.clone();
                    line.append(" - ");
                    let flag = bool_to_text(outline[i].has_children);
                    line.append(flag.as_str());
                    lines.push(line);
                }
                let is_script = same_text(outline[i].name.as_str(), "script");
                hidden_below = if is_script {
                    Some(depth)
                } else {
                    None
                };
            }
            proof {
                lemma_hiding_state_advances(o, i as int, prev, hidden_below, covered);
            }
            i = i + 1;
        }
        lines
    }
}

} // verus!
