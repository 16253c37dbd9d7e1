//! From Markdown to the document tree, by way of the parser's syntax tree.

use crate::jira::doc::{
    children_views, text_view, AtlassianDoc, Content, ContentView, DocView, Mark, MarkAttrs,
    MarkAttrsView, MarkView,
};
use crate::jira::flatten::{flatten_all, flattened_all};
use crate::text::{decimal, push_decimal};
use markdown::mdast::Node;
use vstd::prelude::*;
use vstd::string::*;

verus! {

/// A node of the syntax tree that the Markdown parser returns.
#[verifier::external_type_specification]
#[verifier::external_body]
pub struct ExNode(markdown::mdast::Node);

/// What a syntax-tree node is, with the fields that the document tree takes from it.
pub enum NodeKind {
    Root,
    Blockquote,
    List { ordered: bool },
    ListItem,
    Paragraph,
    Heading { depth: u8 },
    Table,
    TableRow,
    TableCell,
    ThematicBreak,
    Break,
    Text { value: String },
    InlineCode { value: String },
    Code { value: String, lang: Option<String> },
    Strong,
    Emphasis,
    Delete,
    Link { url: String, title: Option<String> },
    Other,
}

/// What a `NodeKind` holds.
pub enum MdKind {
    Root,
    Blockquote,
    List { ordered: bool },
    ListItem,
    Paragraph,
    Heading { depth: u8 },
    Table,
    TableRow,
    TableCell,
    ThematicBreak,
    Break,
    Text { value: Seq<char> },
    InlineCode { value: Seq<char> },
    Code { value: Seq<char>, lang: Option<Seq<char>> },
    Strong,
    Emphasis,
    Delete,
    Link { url: Seq<char>, title: Option<Seq<char>> },
    Other,
}

/// A syntax tree as the converter reads it: what each node is, and its children.
pub struct MdTree {
    pub kind: MdKind,
    pub children: Seq<MdTree>,
}

impl View for NodeKind {
    type V = MdKind;

    open spec fn view(&self) -> MdKind {
        match *self {
            NodeKind::Root => MdKind::Root,
            NodeKind::Blockquote => MdKind::Blockquote,
            NodeKind::List { ordered } => MdKind::List { ordered },
            NodeKind::ListItem => MdKind::ListItem,
            NodeKind::Paragraph => MdKind::Paragraph,
            NodeKind::Heading { depth } => MdKind::Heading { depth },
            NodeKind::Table => MdKind::Table,
            NodeKind::TableRow => MdKind::TableRow,
            NodeKind::TableCell => MdKind::TableCell,
            NodeKind::ThematicBreak => MdKind::ThematicBreak,
            NodeKind::Break => MdKind::Break,
            NodeKind::Text { value } => MdKind::Text { value: value@ },
            NodeKind::InlineCode { value } => MdKind::InlineCode { value: value@ },
            NodeKind::Code { value, lang } => MdKind::Code {
                value: value@,
                lang: crate::jira::doc::opt_text(lang),
            },
            NodeKind::Strong => MdKind::Strong,
            NodeKind::Emphasis => MdKind::Emphasis,
            NodeKind::Delete => MdKind::Delete,
            NodeKind::Link { url, title } => MdKind::Link {
                url: url@,
                title: crate::jira::doc::opt_text(title),
            },
            NodeKind::Other => MdKind::Other,
        }
    }
}

/// The syntax tree that a parser node holds.
pub uninterp spec fn md_tree(node: markdown::mdast::Node) -> MdTree;

/// The syntax tree of a text read as GitHub-flavoured Markdown, where the parser gives one.
pub uninterp spec fn gfm_mdast(text: Seq<char>) -> Option<MdTree>;

/// The syntax trees of a run of parser nodes.
pub open spec fn trees_of(nodes: Seq<Node>) -> Seq<MdTree> {
    Seq::new(nodes.len(), |i: int| md_tree(nodes[i]))
}

/// The kinds that carry no text of their own: the root, the blocks and the two breaks.
pub open spec fn is_structural(kind: MdKind) -> bool {
    match kind {
        MdKind::Root
        | MdKind::Blockquote
        | MdKind::List { .. }
        | MdKind::ListItem
        | MdKind::Paragraph
        | MdKind::Heading { .. }
        | MdKind::Table
        | MdKind::TableRow
        | MdKind::TableCell
        | MdKind::ThematicBreak
        | MdKind::Break => true,
        _ => false,
    }
}

/// `markdown::to_mdast` with the GitHub-flavoured options. The result is the
/// parser's tree for the text, or `None` where the parser reports an error.
#[verifier::external_body]
fn parse_gfm(text: &str) -> (root: Option<Node>)
    ensures
        match root {
            Some(node) => gfm_mdast(text@) == Some(md_tree(node)),
            None => gfm_mdast(text@) is None,
        },
{
    markdown::to_mdast(text, &markdown::ParseOptions::gfm()).ok()
}

/// `Node::children`: the children of a parent node, in order; `None` for a
/// node that cannot have children, whose tree then has none.
#[verifier::external_body]
fn mdast_children<'a>(node: &'a Node) -> (children: Option<&'a Vec<Node>>)
    ensures
        match children {
            Some(c) => c@.len() == md_tree(*node).children.len() && forall|i: int|
                0 <= i < c@.len() ==> md_tree(#[trigger] c@[i]) == md_tree(*node).children[i],
            None => md_tree(*node).children.len() == 0,
        },
{
    node.children()
}

/// Tells the structural variants of `Node` apart: the root, the blocks and the
/// two breaks, with a list's `ordered` and a heading's `depth`. Any other
/// variant gives `Other`.
#[verifier::external_body]
fn structural_kind(node: &Node) -> (kind: NodeKind)
    ensures
        kind@ == (if is_structural(md_tree(*node).kind) {
            md_tree(*node).kind
        } else {
            MdKind::Other
        }),
{
    match node {
        Node::Root(_) => NodeKind::Root,
        Node::Blockquote(_) => NodeKind::Blockquote,
        Node::List(l) => NodeKind::List { ordered: l.ordered },
        Node::ListItem(_) => NodeKind::ListItem,
        Node::Paragraph(_) => NodeKind::Paragraph,
        Node::Heading(h) => NodeKind::Heading { depth: h.depth },
        Node::Table(_) => NodeKind::Table,
        Node::TableRow(_) => NodeKind::TableRow,
        Node::TableCell(_) => NodeKind::TableCell,
        Node::ThematicBreak(_) => NodeKind::ThematicBreak,
        Node::Break(_) => NodeKind::Break,
        _ => NodeKind::Other,
    }
}

/// Tells the textual variants of `Node` apart: text, inline code and fenced
/// code with their `value` (and the fence's `lang`), the three style spans, and
/// a link with its `url` and `title`. Any other variant gives `Other`.
#[verifier::external_body]
fn textual_kind(node: &Node) -> (kind: NodeKind)
    ensures
        kind@ == (if is_structural(md_tree(*node).kind) {
            MdKind::Other
        } else {
            md_tree(*node).kind
        }),
{
    match node {
        Node::Text(t) => NodeKind::Text { value: t.value.clone() },
        Node::InlineCode(c) => NodeKind::InlineCode { value: c.value.clone() },
        Node::Code(c) => NodeKind::Code { value: c.value.clone(), lang: c.lang.clone() },
        Node::Strong(_) => NodeKind::Strong,
        Node::Emphasis(_) => NodeKind::Emphasis,
        Node::Delete(_) => NodeKind::Delete,
        Node::Link(l) => NodeKind::Link { url: l.url.clone(), title: l.title.clone() },
        _ => NodeKind::Other,
    }
}

/// What a parser node is.
pub fn node_kind(node: &Node) -> (kind: NodeKind)
    ensures
        kind@ == md_tree(*node).kind,
{
    let kind = structural_kind(node);
    match kind {
        NodeKind::Other => textual_kind(node),
        _ => kind,
    }
}

/// A block that holds the converted children and nothing else.
pub open spec fn container(tag: Seq<char>, kids: Seq<ContentView>) -> ContentView {
    ContentView { type_: tag, content: Some(kids), text: None, marks: None, attrs: None }
}

/// A node without any optional field.
pub open spec fn void(tag: Seq<char>) -> ContentView {
    ContentView { type_: tag, content: None, text: None, marks: None, attrs: None }
}

/// A style annotation without attributes.
pub open spec fn plain_mark(tag: Seq<char>) -> MarkView {
    MarkView { type_: tag, attrs: None }
}

/// The annotation of a link to `url`.
pub open spec fn link_mark(url: Seq<char>, title: Option<Seq<char>>) -> MarkView {
    MarkView { type_: "link"@, attrs: Some(MarkAttrsView { href: Some(url), title }) }
}

/// A style wrapper: a `text` node that holds the converted children under one annotation.
pub open spec fn wrapper(mark: MarkView, kids: Seq<ContentView>) -> ContentView {
    ContentView {
        type_: "text"@,
        content: Some(kids),
        text: None,
        marks: Some(seq![mark]),
        attrs: None,
    }
}

/// The text of the leaf that stands for a syntax-tree node without a counterpart.
pub open spec fn unimplemented_text() -> Seq<char> {
    "-!- unimplemented markdown node -!-"@
}

/// The document node that a syntax tree maps to, style wrappers still nested.
pub open spec fn content_of(t: MdTree) -> ContentView
    decreases t, 1nat,
{
    let kids = contents_of(t.children);
    match t.kind {
        MdKind::Blockquote => container("blockquote"@, kids),
        MdKind::List { ordered } => if ordered {
            container("orderedList"@, kids)
        } else {
            container("bulletList"@, kids)
        },
        MdKind::ListItem => container("listItem"@, kids),
        MdKind::Paragraph => container("paragraph"@, kids),
        MdKind::Heading { depth } => ContentView {
            type_: "heading"@,
            content: Some(kids),
            text: None,
            marks: None,
            attrs: Some(seq![("level"@, decimal(depth as nat))]),
        },
        MdKind::Table => container("table"@, kids),
        MdKind::TableRow => container("tableRow"@, kids),
        MdKind::TableCell => container("tableCell"@, kids),
        MdKind::ThematicBreak => void("rule"@),
        MdKind::Break => void("hardBreak"@),
        MdKind::Text { value } => text_view(value),
        MdKind::InlineCode { value } => ContentView {
            type_: "text"@,
            content: None,
            text: Some(value),
            marks: Some(seq![plain_mark("code"@)]),
            attrs: None,
        },
        MdKind::Code { value, lang } => ContentView {
            type_: "codeBlock"@,
            content: None,
            text: Some(value),
            marks: None,
            attrs: match lang {
                Some(l) => Some(seq![("language"@, l)]),
                None => None,
            },
        },
        MdKind::Strong => wrapper(plain_mark("strong"@), kids),
        MdKind::Emphasis => wrapper(plain_mark("em"@), kids),
        MdKind::Delete => wrapper(plain_mark("strike"@), kids),
        MdKind::Link { url, title } => wrapper(link_mark(url, title), kids),
        MdKind::Root | MdKind::Other => text_view(unimplemented_text()),
    }
}

/// The document nodes that a run of syntax trees maps to.
pub open spec fn contents_of(trees: Seq<MdTree>) -> Seq<ContentView>
    decreases trees, 0nat,
{
    Seq::new(
        trees.len(),
        |i: int|
            if 0 <= i < trees.len() {
                content_of(trees[i])
            } else {
                arbitrary()
            },
    )
}

/// The document that a parsed text stands for: the root's children, converted
/// and flattened. A tree whose top is no root gives an empty document.
pub open spec fn document_of(t: MdTree) -> DocView {
    DocView {
        version: 1,
        type_: "doc"@,
        content: match t.kind {
            MdKind::Root => flattened_all(contents_of(t.children), t.children.len()),
            _ => Seq::empty(),
        },
    }
}

/// The document without any block.
pub open spec fn empty_document() -> DocView {
    DocView { version: 1, type_: "doc"@, content: Seq::empty() }
}

/// The document that a Markdown text stands for; the empty document where the
/// parser gives no tree for the text.
pub open spec fn parsed_document(text: Seq<char>) -> DocView {
    match gfm_mdast(text) {
        Some(tree) => document_of(tree),
        None => empty_document(),
    }
}

fn plain(tag: &str) -> (mark: Mark)
    ensures
        mark@ == plain_mark(tag@),
{
    Mark { type_: tag.to_owned(), attrs: None }
}

fn block(tag: &str, kids: Vec<Content>) -> (res: Content)
    ensures
        res@ == container(tag@, children_views(kids@)),
{
    Content { type_: tag.to_owned(), content: Some(kids), text: None, marks: None, attrs: None }
}

fn leaf(tag: &str) -> (res: Content)
    ensures
        res@ == void(tag@),
{
    Content { type_: tag.to_owned(), content: None, text: None, marks: None, attrs: None }
}

fn span(mark: Mark, kids: Vec<Content>) -> (res: Content)
    ensures
        res@ == wrapper(mark@, children_views(kids@)),
{
    let marks = vec![mark];
    let res = Content {
        type_: "text".to_owned(),
        content: Some(kids),
        text: None,
        marks: Some(marks),
        attrs: None,
    };
    proof {
        assert(res@.marks->0 =~= seq![mark@]);
    }
    res
}

fn convert_children(nodes: &Vec<Node>) -> (res: Vec<Content>)
    ensures
        children_views(res@) == contents_of(trees_of(nodes@)),
    decreases trees_of(nodes@), 0nat,
{
    let ghost trees = trees_of(nodes@);
    let mut res: Vec<Content> = Vec::new();
    let mut i: usize = 0;
    while i < nodes.len()
        invariant
            0 <= i <= nodes.len(),
            trees == trees_of(nodes@),
            res@.len() == i,
            forall|k: int| 0 <= k < i ==> res@[k]@ == content_of(trees[k]),
        decreases nodes.len() - i,
    {
        proof {
            assert(trees[i as int] == md_tree(nodes[i as int]));
            assert(decreases_to!(trees => trees[i as int]));
        }
        res.push(Content::from_markdown_ref(&nodes[i]));
        i += 1;
    }
    assert(children_views(res@) =~= contents_of(trees));
    res
}

impl Content {
    /// The document node for a node of the parser's syntax tree. Blocks map to the
    /// block of the same name, style spans to wrappers around their children, and a
    /// node without a counterpart to a leaf that says so.
    pub fn from_markdown_node(node: Node) -> (res: Content)
        ensures
            res@ == content_of(md_tree(node)),
    {
        Content::from_markdown_ref(&node)
    }

    /// As `from_markdown_node`, for a node that the caller keeps.
    pub fn from_markdown_ref(node: &Node) -> (res: Content)
        ensures
            res@ == content_of(md_tree(*node)),
        decreases md_tree(*node), 1nat,
    {
        let ghost tree = md_tree(*node);
        let kind = node_kind(node);
        let kids = match mdast_children(node) {
            Some(children) => {
                proof {
                    assert(trees_of(children@) =~= tree.children);
                    assert(decreases_to!(tree => tree.children));
                }
                convert_children(children)
            },
            None => {
                let none: Vec<Content> = Vec::new();
                proof {
                    assert(children_views(none@) =~= contents_of(tree.children));
                }
                none
            },
        };
        match kind {
            NodeKind::Blockquote => block("blockquote", kids),
            NodeKind::List { ordered } => {
                if ordered {
                    block("orderedList", kids)
                } else {
                    block("bulletList", kids)
                }
            },
            NodeKind::ListItem => block("listItem", kids),
            NodeKind::Paragraph => block("paragraph", kids),
            NodeKind::Heading { depth } => {
                let mut level = String::new();
                push_decimal(&mut level, depth as usize);
                let attrs = vec![("level".to_owned(), level)];
                let res = Content {
                    type_: "heading".to_owned(),
                    content: Some(kids),
                    text: None,
                    marks: None,
                    attrs: Some(attrs),
                };
                proof {
                    assert(level@ =~= decimal(depth as nat));
                    assert(res@.attrs->0 =~= seq![("level"@, decimal(depth as nat))]);
                }
                res
            },
            NodeKind::Table => block("table", kids),
            NodeKind::TableRow => block("tableRow", kids),
            NodeKind::TableCell => block("tableCell", kids),
            NodeKind::ThematicBreak => leaf("rule"),
            NodeKind::Break => leaf("hardBreak"),
            NodeKind::Text { value } => Content {
                type_: "text".to_owned(),
                content: None,
                text: Some(value),
                marks: None,
                attrs: None,
            },
            NodeKind::InlineCode { value } => {
                let marks = vec![plain("code")];
                let res = Content {
                    type_: "text".to_owned(),
                    content: None,
                    text: Some(value),
                    marks: Some(marks),
                    attrs: None,
                };
                proof {
                    assert(res@.marks->0 =~= seq![plain_mark("code"@)]);
                }
                res
            },
            NodeKind::Code { value, lang } => {
                let attrs = match lang {
                    Some(l) => {
                        let pairs = vec![("language".to_owned(), l)];
                        proof {
                            assert(crate::jira::doc::attrs_view(pairs@) =~= seq![("language"@, l@)]);
                        }
                        Some(pairs)
                    },
                    None => None,
                };
                Content {
                    type_: "codeBlock".to_owned(),
                    content: None,
                    text: Some(value),
                    marks: None,
                    attrs,
                }
            },
            NodeKind::Strong => span(plain("strong"), kids),
            NodeKind::Emphasis => span(plain("em"), kids),
            NodeKind::Delete => span(plain("strike"), kids),
            NodeKind::Link { url, title } => span(
                Mark { type_: "link".to_owned(), attrs: Some(MarkAttrs { href: Some(url), title }) },
                kids,
            ),
            NodeKind::Root | NodeKind::Other => Content::text("-!- unimplemented markdown node -!-"),
        }
    }
}

impl AtlassianDoc {
    /// The document for a syntax tree that the parser returned: each child of the
    /// root converted, then flattened.
    pub fn from_mdast(root: &Node) -> (res: AtlassianDoc)
        ensures
            res@ == document_of(md_tree(*root)),
    {
        let ghost tree = md_tree(*root);
        let content = match node_kind(root) {
            NodeKind::Root => match mdast_children(root) {
                Some(children) => {
                    proof {
                        assert(trees_of(children@) =~= tree.children);
                    }
                    flatten_all(convert_children(children))
                },
                None => {
                    let none: Vec<Content> = Vec::new();
                    proof {
                        assert(children_views(none@) =~= flattened_all(
                            contents_of(tree.children),
                            0,
                        ));
                    }
                    none
                },
            },
            _ => {
                let none: Vec<Content> = Vec::new();
                proof {
                    assert(children_views(none@) =~= Seq::<ContentView>::empty());
                }
                none
            },
        };
        AtlassianDoc { version: 1, type_: "doc".to_owned(), content }
    }

    /// Reads Markdown text into a document. Where the parser gives no tree, the
    /// document is empty.
    pub fn from_markdown(source: &str) -> (res: AtlassianDoc)
        ensures
            res@ == parsed_document(source@),
    {
        match parse_gfm(source) {
            Some(root) => AtlassianDoc::from_mdast(&root),
            None => {
                let content: Vec<Content> = Vec::new();
                proof {
                    assert(children_views(content@) =~= Seq::<ContentView>::empty());
                }
                AtlassianDoc { version: 1, type_: "doc".to_owned(), content }
            },
        }
    }
}

} // verus!
