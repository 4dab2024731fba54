use vstd::prelude::*;
use kuchiki::traits::TendrilSink;
use crate::csp::{csp_with_hashes, csp_with_hashes_spec, injects_scripts, injects_scripts_spec, script_hashes, script_hashes_spec};

verus! {

/// An HTML document parsed with `kuchiki`, together with the `<head>` element
/// that initialization scripts are put into. The tree is made of nodes shared
/// between handles, so the document and its head are held together here and
/// changed only through `&mut` of the whole; Verus sees it only through
/// [`document_source`], [`document_head_scripts`] and [`document_head_state`].
#[verifier::external_body]
pub struct HtmlDocument {
    document: kuchiki::NodeRef,
    head: Option<kuchiki::NodeRef>,
}

/// The HTML text the document was parsed from.
pub uninterp spec fn document_source(d: HtmlDocument) -> Seq<char>;

/// The texts of the `<script>` elements put at the start of the document's
/// head so far, the first one first.
pub uninterp spec fn document_head_scripts(d: HtmlDocument) -> Seq<Seq<char>>;

/// Where the document's head stands: 0 not looked for yet, 1 found in the
/// parsed document, 2 looked for and not found, 3 created at the start of the
/// document.
pub uninterp spec fn document_head_state(d: HtmlDocument) -> nat;

/// The HTML `kuchiki` writes for the document it parses from `html`, once the
/// first children of the document's first `<head>` element are `<script>`
/// elements holding the texts of `scripts`, one each, standing in the order of
/// `scripts` before the head's own children. When the parsed document has no
/// `<head>`, a new one holding just those elements is put at the start of the
/// document.
pub uninterp spec fn html_with_head_scripts(html: Seq<char>, scripts: Seq<Seq<char>>) -> Seq<char>;

/// `kuchiki::parse_html().one(..)`: the document an HTML parser builds from
/// `html`, with no script put into it and its head not looked for yet.
#[verifier::external_body]
fn parse_html_document(html: &str) -> (d: HtmlDocument)
    ensures
        document_source(d) == html@,
        document_head_scripts(d) == Seq::<Seq<char>>::empty(),
        document_head_state(d) == 0,
{
    HtmlDocument { document: kuchiki::parse_html().one(html), head: None }
}

/// `NodeRef::select_first("head")`: looks for the first `<head>` element of
/// the document and keeps it, telling whether there is one.
#[verifier::external_body]
fn select_head(d: &mut HtmlDocument) -> (found: bool)
    requires
        document_head_state(*old(d)) == 0,
    ensures
        document_source(*final(d)) == document_source(*old(d)),
        document_head_scripts(*final(d)) == document_head_scripts(*old(d)),
        document_head_state(*final(d)) == (if found { 1nat } else { 2nat }),
{
    d.head = d.document.select_first("head").ok().map(|head| head.as_node().clone());
    d.head.is_some()
}

/// `NodeRef::new_element` and `NodeRef::prepend`: a new, empty `<head>`
/// element of the HTML namespace, put at the start of a document that has
/// none, and kept as its head.
#[verifier::external_body]
fn create_head(d: &mut HtmlDocument)
    requires
        document_head_state(*old(d)) == 2,
    ensures
        document_source(*final(d)) == document_source(*old(d)),
        document_head_scripts(*final(d)) == document_head_scripts(*old(d)),
        document_head_state(*final(d)) == 3,
{
    let name = html5ever::QualName::new(
        None,
        html5ever::Namespace::from("http://www.w3.org/1999/xhtml"),
        html5ever::LocalName::from("head"),
    );
    let head = kuchiki::NodeRef::new_element(name, None::<(kuchiki::ExpandedName, kuchiki::Attribute)>);
    d.document.prepend(head.clone());
    d.head = Some(head);
}

/// `NodeRef::new_element`, `NodeRef::new_text`, `NodeRef::append` and
/// `NodeRef::prepend`: a new `<script>` element of the HTML namespace holding
/// the text `script`, put at the start of the document's head.
#[verifier::external_body]
fn prepend_head_script(d: &mut HtmlDocument, script: &str)
    requires
        document_head_state(*old(d)) == 1 || document_head_state(*old(d)) == 3,
    ensures
        document_source(*final(d)) == document_source(*old(d)),
        document_head_state(*final(d)) == document_head_state(*old(d)),
        document_head_scripts(*final(d)) == seq![script@] + document_head_scripts(*old(d)),
{
    if let Some(head) = &d.head {
        let name = html5ever::QualName::new(
            None,
            html5ever::Namespace::from("http://www.w3.org/1999/xhtml"),
            html5ever::LocalName::from("script"),
        );
        let element = kuchiki::NodeRef::new_element(name, None::<(kuchiki::ExpandedName, kuchiki::Attribute)>);
        element.append(kuchiki::NodeRef::new_text(script));
        head.prepend(element);
    }
}

/// The HTML of the document, as `kuchiki` serializes it: once its head was
/// found or created, the text [`html_with_head_scripts`] names for its source
/// and the scripts put into its head.
#[verifier::external_body]
fn serialize_document(d: &HtmlDocument) -> (s: String)
    ensures
        document_head_state(*d) == 1 || document_head_state(*d) == 3
            ==> s@ == html_with_head_scripts(document_source(*d), document_head_scripts(*d)),
{
    d.document.to_string()
}

/// The children of a node after each of `items` was made its first child, in
/// the order of `items`.
pub open spec fn prepend_all<A>(children: Seq<A>, items: Seq<A>) -> Seq<A>
    decreases items.len(),
{
    if items.len() == 0 {
        children
    } else {
        prepend_all(seq![items[0]] + children, items.drop_first())
    }
}

/// Putting one more item at the start of a node after `items`.
proof fn lemma_prepend_all_push<A>(children: Seq<A>, items: Seq<A>, item: A)
    ensures
        prepend_all(children, items.push(item)) == seq![item] + prepend_all(children, items),
    decreases items.len(),
{
    let pushed = items.push(item);
    assert(pushed[0] == if items.len() == 0 { item } else { items[0] });
    if items.len() == 0 {
        assert(pushed.drop_first() =~= Seq::<A>::empty());
        assert(prepend_all(seq![item] + children, Seq::<A>::empty()) == seq![item] + children);
    } else {
        lemma_prepend_all_push(seq![items[0]] + children, items.drop_first(), item);
        assert(pushed.drop_first() =~= items.drop_first().push(item));
    }
}

/// Putting scripts one at a time at the start of a node, from the last script
/// to the first, leaves them at its start in their own order, before what was
/// there already.
pub proof fn prepending_in_reverse_keeps_order<A>(children: Seq<A>, scripts: Seq<A>)
    ensures
        prepend_all(children, scripts.reverse()) == scripts + children,
    decreases scripts.len(),
{
    if scripts.len() > 0 {
        let last = scripts.last();
        let init = scripts.drop_last();
        prepending_in_reverse_keeps_order(seq![last] + children, init);
        let rev = scripts.reverse();
        assert(rev[0] == last);
        assert(rev.drop_first() =~= init.reverse());
        assert(init + (seq![last] + children) =~= scripts + children);
    }
}

/// The order in which the initialization scripts are put at the start of a
/// page's head: from the last to the first, each before those already there.
pub fn head_prepend_order(scripts: &Vec<String>) -> (order: Vec<String>)
    ensures
        order@.map_values(|s: String| s@) == scripts@.map_values(|s: String| s@).reverse(),
{
    let n = scripts.len();
    let mut order: Vec<String> = Vec::new();
    let mut k: usize = 0;
    while k < n
        invariant
            n == scripts@.len(),
            k <= n,
            order@.len() == k,
            forall|i: int| 0 <= i < k ==> (#[trigger] order@[i])@ == scripts@[n - 1 - i]@,
        decreases n - k,
    {
        order.push(scripts[n - 1 - k].clone());
        k = k + 1;
    }
    assert(order@.map_values(|s: String| s@) =~= scripts@.map_values(|s: String| s@).reverse());
    order
}

/// The page with each initialization script in a `<script>` element at the
/// start of its `<head>` (one is made at the start of the document when it has
/// none), in the scripts' order: they are put there one at a time in
/// [`head_prepend_order`], each before those already there.
pub fn inject_scripts(html: &str, scripts: &Vec<String>) -> (page: String)
    ensures
        page@ == html_with_head_scripts(html@, scripts@.map_values(|s: String| s@)),
{
    let mut document = parse_html_document(html);
    let order = head_prepend_order(scripts);
    if !select_head(&mut document) {
        create_head(&mut document);
    }
    let ghost texts = order@.map_values(|s: String| s@);
    let mut k: usize = 0;
    while k < order.len()
        invariant
            k <= order@.len(),
            texts == order@.map_values(|s: String| s@),
            document_source(document) == html@,
            document_head_state(document) == 1 || document_head_state(document) == 3,
            document_head_scripts(document) == prepend_all(Seq::<Seq<char>>::empty(), texts.take(k as int)),
        decreases order.len() - k,
    {
        prepend_head_script(&mut document, order[k].as_str());
        proof {
            lemma_prepend_all_push(Seq::<Seq<char>>::empty(), texts.take(k as int), texts[k as int]);
            assert(texts.take(k as int).push(texts[k as int]) =~= texts.take(k + 1));
        }
        k = k + 1;
    }
    proof {
        assert(texts.take(order@.len() as int) =~= texts);
        let wanted = scripts@.map_values(|s: String| s@);
        prepending_in_reverse_keeps_order(Seq::<Seq<char>>::empty(), wanted);
        assert(wanted + Seq::<Seq<char>>::empty() =~= wanted);
    }
    serialize_document(&document)
}

/// The content security policy of a page the initialization scripts were put
/// into: the page's own policy, if it has one, made to allow the scripts by
/// their hashes.
pub open spec fn injected_policy(csp: Option<Seq<char>>, scripts: Seq<String>) -> Option<Seq<char>> {
    match csp {
        Some(c) => Some(csp_with_hashes_spec(c, script_hashes_spec(scripts.map_values(|s: String| s@)))),
        None => None,
    }
}

/// A page served by a custom protocol, with the initialization scripts put
/// into it where that is done: only into an HTML page, told by a content type
/// of exactly `text/html`, and only when there are scripts. Then the page comes
/// back with the scripts at the start of its head (see [`inject_scripts`]) and
/// with its content security policy, if it has one, allowing them; otherwise
/// nothing comes back and the page is served as it is.
pub fn injected_page(
    content_type: Option<&[u8]>,
    page: &str,
    scripts: &Vec<String>,
    csp: Option<&str>,
) -> (r: Option<(String, Option<String>)>)
    ensures
        r is Some <==> injects_scripts_spec(
            match content_type {
                Some(c) => Some(c@),
                None => None,
            },
            scripts@.len(),
        ),
        r matches Some(p) ==> p.0@ == html_with_head_scripts(page@, scripts@.map_values(|s: String| s@)),
        r matches Some(p) ==> (match p.1 {
            Some(policy) => Some(policy@),
            None => None::<Seq<char>>,
        }) == injected_policy(
            match csp {
                Some(c) => Some(c@),
                None => None,
            },
            scripts@,
        ),
{
    if !injects_scripts(content_type, scripts.len()) {
        return None;
    }
    let new_page = inject_scripts(page, scripts);
    let policy = match csp {
        Some(c) => {
            let hashes = script_hashes(scripts);
            Some(csp_with_hashes(c, &hashes))
        },
        None => None,
    };
    Some((new_page, policy))
}

} // verus!
