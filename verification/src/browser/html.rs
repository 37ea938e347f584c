//! Static HTML: a parsed document as a plain tree, the form fields it
//! holds and its title.
use vstd::prelude::*;
use html5ever::tendril::TendrilSink;
use markup5ever_rcdom::{Handle, NodeData, RcDom};
use crate::chars::{push_str, str_eq, string_of};
use crate::profile::{field_views, FieldDescriptor, FieldView};
use crate::seqs::{lookup, position_of_key};

verus! {

#[verifier::external_type_specification]
#[verifier::external_body]
pub struct ExRcDomNode(markup5ever_rcdom::Node);

/// One node of a parsed document.
pub enum HtmlNode {
    /// An element: its local tag name, its attributes (local name and
    /// value, in document order) and its children.
    Element { tag: String, attrs: Vec<(String, String)>, children: Vec<HtmlNode> },
    /// A text node.
    Text { contents: String },
    /// The document itself, a doctype, a comment or a processing
    /// instruction, with its children.
    Other { children: Vec<HtmlNode> },
}

/// The tree html5ever builds for a document text.
pub uninterp spec fn parsed_html(html: Seq<char>) -> HtmlNode;

/// Parse a whole document with html5ever (`parse_document` into an
/// `RcDom`, the text given at once) and return the document node as a
/// plain tree. html5ever recovers from any malformed input, so this always
/// yields a tree; the contract names that tree and claims no more of it.
#[verifier::external_body]
pub fn parse_html(html: &str) -> (r: HtmlNode)
    ensures
        r == parsed_html(html@),
{
    let dom = html5ever::parse_document(RcDom::default(), Default::default()).one(html);
    node_of(&dom.document)
}

/// Converts one `RcDom` node and its subtree into an [`HtmlNode`].
#[verifier::external_body]
fn node_of(h: &Handle) -> HtmlNode {
    let children: Vec<HtmlNode> = h.children.borrow().iter().map(node_of).collect();
    match &h.data {
        NodeData::Element { name, attrs, .. } => HtmlNode::Element {
            tag: name.local.to_string(),
            attrs: attrs.borrow().iter().map(|a| (a.name.local.to_string(), a.value.to_string())).collect(),
            children,
        },
        NodeData::Text { contents } => HtmlNode::Text { contents: contents.borrow().to_string() },
        NodeData::Document => HtmlNode::Other { children },
        NodeData::Doctype { .. } => HtmlNode::Other { children },
        NodeData::Comment { .. } => HtmlNode::Other { children },
        NodeData::ProcessingInstruction { .. } => HtmlNode::Other { children },
    }
}

// ─── Form fields ────────────────────────────────────────────────────────

/// The value of the first attribute with the given name, or empty.
pub open spec fn attr(attrs: Seq<(String, String)>, name: Seq<char>) -> Seq<char> {
    match lookup(attrs, name) {
        Some(v) => v,
        None => seq![],
    }
}

pub open spec fn is_form_tag(tag: Seq<char>) -> bool {
    tag == "input"@ || tag == "textarea"@ || tag == "select"@
}

/// The field kind: an input's `type` (`text` when it has none), else the
/// tag name.
pub open spec fn field_kind(tag: Seq<char>, attrs: Seq<(String, String)>) -> Seq<char> {
    if tag == "input"@ {
        if attr(attrs, "type"@).len() == 0 {
            "text"@
        } else {
            attr(attrs, "type"@)
        }
    } else {
        tag
    }
}

/// The descriptor of a form element. Labels are not resolved.
pub open spec fn field_of(tag: Seq<char>, attrs: Seq<(String, String)>) -> FieldView {
    FieldView {
        label: seq![],
        placeholder: attr(attrs, "placeholder"@),
        aria_label: attr(attrs, "aria-label"@),
        name: attr(attrs, "name"@),
        id: attr(attrs, "id"@),
        kind: field_kind(tag, attrs),
    }
}

/// Every `input`, `textarea` and `select` of a subtree, in document order.
pub open spec fn fields_in(n: HtmlNode) -> Seq<FieldView>
    decreases n,
{
    match n {
        HtmlNode::Element { tag, attrs, children } => {
            let here = if is_form_tag(tag@) {
                seq![field_of(tag@, attrs@)]
            } else {
                seq![]
            };
            here + fields_in_all(children@)
        },
        HtmlNode::Text { .. } => seq![],
        HtmlNode::Other { children } => fields_in_all(children@),
    }
}

/// The form fields of a list of subtrees, in order.
pub open spec fn fields_in_all(s: Seq<HtmlNode>) -> Seq<FieldView>
    decreases s,
{
    if s.len() == 0 {
        seq![]
    } else {
        fields_in_all(s.drop_last()) + fields_in(s[s.len() - 1])
    }
}

fn attr_value(attrs: &Vec<(String, String)>, name: &str) -> (r: String)
    ensures
        r@ == attr(attrs@, name@),
{
    match position_of_key(attrs, name) {
        Some(i) => attrs[i].1.clone(),
        None => String::new(),
    }
}

fn field_from(tag: &String, attrs: &Vec<(String, String)>) -> (r: FieldDescriptor)
    ensures
        r@ == field_of(tag@, attrs@),
{
    let kind = if str_eq(tag.as_str(), "input") {
        let t = attr_value(attrs, "type");
        if t.as_str().is_empty() {
            "text".to_owned()
        } else {
            t
        }
    } else {
        tag.clone()
    };
    FieldDescriptor {
        label: String::new(),
        placeholder: attr_value(attrs, "placeholder"),
        aria_label: attr_value(attrs, "aria-label"),
        name: attr_value(attrs, "name"),
        id: attr_value(attrs, "id"),
        kind,
    }
}

fn collect_fields(n: &HtmlNode, out: &mut Vec<FieldDescriptor>)
    ensures
        field_views(final(out)@) == field_views(old(out)@) + fields_in(*n),
    decreases n,
{
    match n {
        HtmlNode::Element { tag, attrs, children } => {
            let ghost start = field_views(out@);
            if str_eq(tag.as_str(), "input") || str_eq(tag.as_str(), "textarea") || str_eq(
                tag.as_str(),
                "select",
            ) {
                let f = field_from(tag, attrs);
                out.push(f);
                assert(field_views(out@) =~= start + seq![field_of(tag@, attrs@)]);
            } else {
                assert(field_views(out@) =~= start + Seq::<FieldView>::empty());
            }
            collect_all(children, out);
            assert(field_views(out@) =~= start + fields_in(*n));
        },
        HtmlNode::Text { .. } => {
            assert(field_views(out@) =~= field_views(out@) + fields_in(*n));
        },
        HtmlNode::Other { children } => {
            collect_all(children, out);
        },
    }
}

fn collect_all(children: &Vec<HtmlNode>, out: &mut Vec<FieldDescriptor>)
    ensures
        field_views(final(out)@) == field_views(old(out)@) + fields_in_all(children@),
    decreases children,
{
    let ghost start = field_views(out@);
    let mut i: usize = 0;
    assert(children@.take(0).len() == 0);
    assert(field_views(out@) =~= start + fields_in_all(children@.take(0)));
    while i < children.len()
        invariant
            i <= children@.len(),
            field_views(out@) == start + fields_in_all(children@.take(i as int)),
        decreases children@.len() - i,
    {
        let child = &children[i];
        proof {
            assert(decreases_to!(children => children@));
            assert(decreases_to!(children@ => children@[i as int]));
        }
        collect_fields(child, out);
        proof {
            let t = children@.take(i + 1);
            assert(t.drop_last() =~= children@.take(i as int));
            assert(t[t.len() - 1] == *child);
        }
        i += 1;
        assert(field_views(out@) =~= start + fields_in_all(children@.take(i as int)));
    }
    assert(children@.take(i as int) =~= children@);
}

/// The form fields of a document, in document order.
pub fn extract_fields(doc: &HtmlNode) -> (r: Vec<FieldDescriptor>)
    ensures
        field_views(r@) == fields_in(*doc),
{
    let mut out: Vec<FieldDescriptor> = Vec::new();
    collect_fields(doc, &mut out);
    assert(field_views(out@) =~= fields_in(*doc));
    out
}

// ─── Title ──────────────────────────────────────────────────────────────

/// The text of the direct text children, concatenated.
pub open spec fn text_of(children: Seq<HtmlNode>) -> Seq<char>
    decreases children.len(),
{
    if children.len() == 0 {
        seq![]
    } else {
        text_of(children.drop_last()) + match children[children.len() - 1] {
            HtmlNode::Text { contents } => contents@,
            _ => seq![],
        }
    }
}

/// The title of a subtree: the text of the first `title` element, in
/// document order, whose text is not empty.
pub open spec fn title_in(n: HtmlNode) -> Seq<char>
    decreases n,
{
    match n {
        HtmlNode::Element { tag, children, .. } => if tag@ == "title"@ {
            text_of(children@)
        } else {
            title_in_all(children@)
        },
        HtmlNode::Text { .. } => seq![],
        HtmlNode::Other { children } => title_in_all(children@),
    }
}

/// The first non-empty title among a list of subtrees.
pub open spec fn title_in_all(s: Seq<HtmlNode>) -> Seq<char>
    decreases s,
{
    if s.len() == 0 {
        seq![]
    } else if title_in_all(s.drop_last()).len() > 0 {
        title_in_all(s.drop_last())
    } else {
        title_in(s[s.len() - 1])
    }
}

fn direct_text(children: &Vec<HtmlNode>) -> (r: Vec<char>)
    ensures
        r@ == text_of(children@),
{
    let mut out: Vec<char> = Vec::new();
    let mut i: usize = 0;
    while i < children.len()
        invariant
            i <= children@.len(),
            out@ == text_of(children@.take(i as int)),
        decreases children@.len() - i,
    {
        proof {
            let t = children@.take(i + 1);
            assert(t.drop_last() =~= children@.take(i as int));
        }
        match &children[i] {
            HtmlNode::Text { contents } => {
                push_str(&mut out, contents.as_str());
            },
            _ => {},
        }
        i += 1;
    }
    assert(children@.take(i as int) =~= children@);
    out
}

fn find_title(n: &HtmlNode) -> (r: Vec<char>)
    ensures
        r@ == title_in(*n),
    decreases n,
{
    match n {
        HtmlNode::Element { tag, children, .. } => {
            if str_eq(tag.as_str(), "title") {
                direct_text(children)
            } else {
                find_title_all(children)
            }
        },
        HtmlNode::Text { .. } => Vec::new(),
        HtmlNode::Other { children } => find_title_all(children),
    }
}

fn find_title_all(children: &Vec<HtmlNode>) -> (r: Vec<char>)
    ensures
        r@ == title_in_all(children@),
    decreases children,
{
    let mut found: Vec<char> = Vec::new();
    let mut i: usize = 0;
    while i < children.len()
        invariant
            i <= children@.len(),
            found@ == title_in_all(children@.take(i as int)),
        decreases children@.len() - i,
    {
        proof {
            let t = children@.take(i + 1);
            assert(t.drop_last() =~= children@.take(i as int));
        }
        if found.len() == 0 {
            let child = &children[i];
            proof {
                assert(decreases_to!(children => children@));
                assert(decreases_to!(children@ => children@[i as int]));
            }
            found = find_title(child);
        }
        i += 1;
    }
    assert(children@.take(i as int) =~= children@);
    found
}

/// The text of the document's first non-empty `title` element, or empty.
pub fn extract_title(doc: &HtmlNode) -> (r: String)
    ensures
        r@ == title_in(*doc),
{
    let t = find_title(doc);
    string_of(t.as_slice())
}

} // verus!
