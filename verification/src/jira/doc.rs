//! The document tree in which Jira holds rich text.

use crate::text::str_eq;
use vstd::prelude::*;
use vstd::string::*;

verus! {

/// Attributes of a link annotation.
#[derive(Debug, PartialEq, Eq)]
pub struct MarkAttrs {
    pub href: Option<String>,
    pub title: Option<String>,
}

/// An inline style annotation: `strong`, `em`, `strike`, `code` or `link`.
#[derive(Debug, PartialEq, Eq)]
pub struct Mark {
    pub type_: String,
    pub attrs: Option<MarkAttrs>,
}

/// One element of the document tree. The tag in `type_` decides which of the
/// optional fields carry meaning.
#[derive(Debug, PartialEq, Eq)]
pub struct Content {
    pub type_: String,
    pub content: Option<Vec<Content>>,
    pub text: Option<String>,
    pub marks: Option<Vec<Mark>>,
    pub attrs: Option<Vec<(String, String)>>,
}

/// The root container of a rich-text document.
#[derive(Debug, PartialEq, Eq)]
pub struct AtlassianDoc {
    pub version: isize,
    pub type_: String,
    pub content: Vec<Content>,
}

/// What a `MarkAttrs` holds.
pub struct MarkAttrsView {
    pub href: Option<Seq<char>>,
    pub title: Option<Seq<char>>,
}

/// What a `Mark` holds.
pub struct MarkView {
    pub type_: Seq<char>,
    pub attrs: Option<MarkAttrsView>,
}

/// The tree that a `Content` stands for.
pub struct ContentView {
    pub type_: Seq<char>,
    pub content: Option<Seq<ContentView>>,
    pub text: Option<Seq<char>>,
    pub marks: Option<Seq<MarkView>>,
    pub attrs: Option<Seq<(Seq<char>, Seq<char>)>>,
}

/// The document that an `AtlassianDoc` stands for.
pub struct DocView {
    pub version: int,
    pub type_: Seq<char>,
    pub content: Seq<ContentView>,
}

/// The characters of an optional string.
pub open spec fn opt_text(s: Option<String>) -> Option<Seq<char>> {
    match s {
        Some(t) => Some(t@),
        None => None,
    }
}

impl View for MarkAttrs {
    type V = MarkAttrsView;

    open spec fn view(&self) -> MarkAttrsView {
        MarkAttrsView { href: opt_text(self.href), title: opt_text(self.title) }
    }
}

impl View for Mark {
    type V = MarkView;

    open spec fn view(&self) -> MarkView {
        MarkView {
            type_: self.type_@,
            attrs: match self.attrs {
                Some(a) => Some(a@),
                None => None,
            },
        }
    }
}

/// What each annotation of a list holds.
pub open spec fn marks_view(marks: Seq<Mark>) -> Seq<MarkView> {
    Seq::new(marks.len(), |i: int| marks[i]@)
}

/// The names and values of an attribute list.
pub open spec fn attrs_view(attrs: Seq<(String, String)>) -> Seq<(Seq<char>, Seq<char>)> {
    Seq::new(attrs.len(), |i: int| (attrs[i].0@, attrs[i].1@))
}

/// The tree that a node stands for: its tag, and each optional field by its view.
pub open spec fn content_view(c: Content) -> ContentView
    decreases c, 0nat,
{
    ContentView {
        type_: c.type_@,
        content: match c.content {
            Some(items) => Some(children_views(items@)),
            None => None,
        },
        text: opt_text(c.text),
        marks: match c.marks {
            Some(m) => Some(marks_view(m@)),
            None => None,
        },
        attrs: match c.attrs {
            Some(a) => Some(attrs_view(a@)),
            None => None,
        },
    }
}

/// The trees of a run of nodes, in order.
pub open spec fn children_views(items: Seq<Content>) -> Seq<ContentView>
    decreases items, 1nat,
{
    Seq::new(
        items.len(),
        |i: int|
            if 0 <= i < items.len() {
                content_view(items[i])
            } else {
                arbitrary()
            },
    )
}

impl View for Content {
    type V = ContentView;

    open spec fn view(&self) -> ContentView {
        content_view(*self)
    }
}

impl View for AtlassianDoc {
    type V = DocView;

    open spec fn view(&self) -> DocView {
        DocView {
            version: self.version as int,
            type_: self.type_@,
            content: children_views(self.content@),
        }
    }
}

/// Tags that are rendered without a line break of their own.
pub open spec fn is_inline_tag(tag: Seq<char>) -> bool {
    ||| tag == "text"@
    ||| tag == "code"@
    ||| tag == "inlineCard"@
    ||| tag == "mention"@
    ||| tag == "emoji"@
    ||| tag == "listItem"@
    ||| tag == "tableCell"@
    ||| tag == "tableRow"@
    ||| tag == "table"@
}

/// Tags of inline leaves, which may stand in as style wrappers while a tree is built.
pub open spec fn is_leaf_tag(tag: Seq<char>) -> bool {
    ||| tag == "text"@
    ||| tag == "code"@
    ||| tag == "inlineCard"@
    ||| tag == "mention"@
    ||| tag == "emoji"@
}

/// A node with an inline-leaf tag that carries children: a wrapper that flattening removes.
pub open spec fn is_wrapper(c: ContentView) -> bool {
    is_leaf_tag(c.type_) && c.content is Some
}

/// Tags of blocks that hold child nodes.
pub open spec fn is_container_tag(tag: Seq<char>) -> bool {
    ||| tag == "paragraph"@
    ||| tag == "blockquote"@
    ||| tag == "heading"@
    ||| tag == "orderedList"@
    ||| tag == "bulletList"@
    ||| tag == "listItem"@
    ||| tag == "table"@
    ||| tag == "tableRow"@
    ||| tag == "tableCell"@
}

/// Whether the attributes name a heading level: a `level` from `1` to `6`.
pub open spec fn names_level(attrs: Option<Seq<(Seq<char>, Seq<char>)>>) -> bool {
    match attrs {
        Some(pairs) => exists|i: int|
            0 <= i < pairs.len() && (#[trigger] pairs[i]).0 == "level"@ && {
                ||| pairs[i].1 == "1"@
                ||| pairs[i].1 == "2"@
                ||| pairs[i].1 == "3"@
                ||| pairs[i].1 == "4"@
                ||| pairs[i].1 == "5"@
                ||| pairs[i].1 == "6"@
            },
        None => false,
    }
}

/// The tag is one of the known ones, and the node carries what its tag allows.
///
/// A `text` leaf has text, and neither children nor attributes. A code block
/// has text and no children. A rule and a hard break have none of the optional
/// fields. A block has children, all well formed, and neither text nor
/// annotations; a heading names its level, no other block has attributes.
pub open spec fn well_formed(c: ContentView) -> bool
    decreases c,
{
    if c.type_ == "text"@ {
        c.text is Some && c.content is None && c.attrs is None
    } else if c.type_ == "codeBlock"@ {
        c.text is Some && c.content is None
    } else if c.type_ == "rule"@ || c.type_ == "hardBreak"@ {
        c.text is None && c.content is None && c.marks is None && c.attrs is None
    } else if is_container_tag(c.type_) {
        &&& c.text is None
        &&& c.marks is None
        &&& if c.type_ == "heading"@ {
            names_level(c.attrs)
        } else {
            c.attrs is None
        }
        &&& match c.content {
            Some(items) => forall|i: int|
                0 <= i < items.len() ==> well_formed(#[trigger] items[i]),
            None => false,
        }
    } else {
        false
    }
}

/// The document has version 1 and the tag `doc`, and its blocks are well formed.
pub open spec fn well_formed_doc(d: DocView) -> bool {
    &&& d.version == 1
    &&& d.type_ == "doc"@
    &&& forall|i: int| 0 <= i < d.content.len() ==> well_formed(#[trigger] d.content[i])
}

/// A paragraph that holds one unannotated leaf is well formed.
pub proof fn lemma_paragraph_well_formed(text: Seq<char>)
    ensures
        well_formed(text_view(text)),
        well_formed(paragraph_view(text)),
{
    reveal_strlit("text");
    reveal_strlit("paragraph");
    reveal_strlit("codeBlock");
    reveal_strlit("rule");
    reveal_strlit("hardBreak");
    reveal_strlit("heading");
    assert("text"@.len() == 4 && "paragraph"@.len() == 9 && "rule"@.len() == 4);
    assert("heading"@.len() == 7 && "codeBlock"@.len() == 9 && "hardBreak"@.len() == 9);
    assert("paragraph"@[0] != "codeBlock"@[0]);
    assert("paragraph"@[0] != "hardBreak"@[0]);
    let para = paragraph_view(text);
    assert(para.content->0[0] == text_view(text));
}

fn clone_opt_text(s: &Option<String>) -> (res: Option<String>)
    ensures
        opt_text(res) == opt_text(*s),
{
    match s {
        Some(t) => Some(t.clone()),
        None => None,
    }
}

impl Clone for MarkAttrs {
    fn clone(&self) -> (res: Self)
        ensures
            res@ == self@,
    {
        MarkAttrs { href: clone_opt_text(&self.href), title: clone_opt_text(&self.title) }
    }
}

impl Clone for Mark {
    fn clone(&self) -> (res: Self)
        ensures
            res@ == self@,
    {
        Mark {
            type_: self.type_.clone(),
            attrs: match &self.attrs {
                Some(a) => Some(a.clone()),
                None => None,
            },
        }
    }
}

/// A copy of a list of annotations.
pub fn clone_marks(marks: &Vec<Mark>) -> (res: Vec<Mark>)
    ensures
        marks_view(res@) == marks_view(marks@),
{
    let mut res: Vec<Mark> = Vec::new();
    let mut i: usize = 0;
    while i < marks.len()
        invariant
            0 <= i <= marks.len(),
            res.len() == i,
            forall|k: int| 0 <= k < i ==> res[k]@ == marks[k]@,
        decreases marks.len() - i,
    {
        res.push(marks[i].clone());
        i += 1;
    }
    assert(marks_view(res@) =~= marks_view(marks@));
    res
}

/// A copy of an attribute list.
pub fn clone_attrs(attrs: &Vec<(String, String)>) -> (res: Vec<(String, String)>)
    ensures
        attrs_view(res@) == attrs_view(attrs@),
{
    let mut res: Vec<(String, String)> = Vec::new();
    let mut i: usize = 0;
    while i < attrs.len()
        invariant
            0 <= i <= attrs.len(),
            res.len() == i,
            forall|k: int| 0 <= k < i ==> res[k].0@ == attrs[k].0@ && res[k].1@ == attrs[k].1@,
        decreases attrs.len() - i,
    {
        let pair = &attrs[i];
        res.push((pair.0.clone(), pair.1.clone()));
        i += 1;
    }
    assert(attrs_view(res@) =~= attrs_view(attrs@));
    res
}

/// A copy of a run of nodes.
pub fn clone_contents(items: &Vec<Content>) -> (res: Vec<Content>)
    ensures
        children_views(res@) == children_views(items@),
    decreases items,
{
    let mut res: Vec<Content> = Vec::new();
    let mut i: usize = 0;
    while i < items.len()
        invariant
            0 <= i <= items.len(),
            res.len() == i,
            forall|k: int| 0 <= k < i ==> res[k]@ == items[k]@,
        decreases items.len() - i,
    {
        res.push(items[i].clone());
        i += 1;
    }
    assert(children_views(res@) =~= children_views(items@));
    res
}

impl Clone for Content {
    fn clone(&self) -> (res: Self)
        ensures
            res@ == self@,
        decreases self,
    {
        let content = match &self.content {
            Some(items) => {
                proof {
                    assert(decreases_to!(self.content => self.content->0));
                }
                Some(clone_contents(items))
            },
            None => None,
        };
        let marks = match &self.marks {
            Some(m) => Some(clone_marks(m)),
            None => None,
        };
        let attrs = match &self.attrs {
            Some(a) => Some(clone_attrs(a)),
            None => None,
        };
        Content {
            type_: self.type_.clone(),
            content,
            text: clone_opt_text(&self.text),
            marks,
            attrs,
        }
    }
}

impl Clone for AtlassianDoc {
    fn clone(&self) -> (res: Self)
        ensures
            res@ == self@,
    {
        AtlassianDoc {
            version: self.version,
            type_: self.type_.clone(),
            content: clone_contents(&self.content),
        }
    }
}

impl Content {
    /// A leaf that holds `text` and no annotation.
    pub fn text(text: &str) -> (res: Self)
        ensures
            res@ == text_view(text@),
            well_formed(res@),
    {
        Content {
            type_: "text".to_owned(),
            content: None,
            text: Some(text.to_owned()),
            marks: None,
            attrs: None,
        }
    }

    /// A paragraph whose only child is the leaf that holds `text`.
    pub fn paragraph(text: &str) -> (res: Self)
        ensures
            res@ == paragraph_view(text@),
            well_formed(res@),
    {
        proof {
            lemma_paragraph_well_formed(text@);
        }
        let res = Content {
            type_: "paragraph".to_owned(),
            content: Some(vec![Content::text(text)]),
            text: None,
            marks: None,
            attrs: None,
        };
        proof {
            assert(res@.content->0 =~= seq![text_view(text@)]);
        }
        res
    }

    /// Whether the node is rendered without a line break of its own.
    pub fn inline(&self) -> (res: bool)
        ensures
            res == is_inline_tag(self@.type_),
    {
        let tag = self.type_.as_str();
        str_eq(tag, "text") || str_eq(tag, "code") || str_eq(tag, "inlineCard") || str_eq(
            tag,
            "mention",
        ) || str_eq(tag, "emoji") || str_eq(tag, "listItem") || str_eq(tag, "tableCell") || str_eq(
            tag,
            "tableRow",
        ) || str_eq(tag, "table")
    }

    /// Whether the node is a style wrapper that flattening replaces by its descendants.
    pub fn should_flatten(&self) -> (res: bool)
        ensures
            res == is_wrapper(self@),
    {
        let tag = self.type_.as_str();
        (str_eq(tag, "text") || str_eq(tag, "code") || str_eq(tag, "inlineCard") || str_eq(
            tag,
            "mention",
        ) || str_eq(tag, "emoji")) && self.content.is_some()
    }
}

/// The leaf that holds `text` and no annotation.
pub open spec fn text_view(text: Seq<char>) -> ContentView {
    ContentView { type_: "text"@, content: None, text: Some(text), marks: None, attrs: None }
}

/// The paragraph whose only child is the unannotated leaf that holds `text`.
pub open spec fn paragraph_view(text: Seq<char>) -> ContentView {
    ContentView {
        type_: "paragraph"@,
        content: Some(seq![text_view(text)]),
        text: None,
        marks: None,
        attrs: None,
    }
}

impl AtlassianDoc {
    /// A document of one paragraph that holds `text` without annotations.
    pub fn text(text: &str) -> (res: Self)
        ensures
            res@ == (DocView {
                version: 1,
                type_: "doc"@,
                content: seq![paragraph_view(text@)],
            }),
            well_formed_doc(res@),
    {
        proof {
            lemma_paragraph_well_formed(text@);
        }
        let res = AtlassianDoc {
            version: 1,
            type_: "doc".to_owned(),
            content: vec![Content::paragraph(text)],
        };
        proof {
            assert(res@.content =~= seq![paragraph_view(text@)]);
        }
        res
    }
}

/// Whether two optional strings hold the same characters.
pub fn opt_str_eq(a: &Option<String>, b: &Option<String>) -> (same: bool)
    ensures
        same == (opt_text(*a) == opt_text(*b)),
{
    match (a, b) {
        (Some(x), Some(y)) => str_eq(x.as_str(), y.as_str()),
        (None, None) => true,
        _ => false,
    }
}

impl MarkAttrs {
    /// Whether two attribute sets agree in every field.
    pub fn same_as(&self, other: &MarkAttrs) -> (same: bool)
        ensures
            same == (self@ == other@),
    {
        opt_str_eq(&self.href, &other.href) && opt_str_eq(&self.title, &other.title)
    }
}

impl Mark {
    /// Whether two annotations agree in tag and attributes.
    pub fn same_as(&self, other: &Mark) -> (same: bool)
        ensures
            same == (self@ == other@),
    {
        str_eq(self.type_.as_str(), other.type_.as_str()) && match (&self.attrs, &other.attrs) {
            (Some(a), Some(b)) => a.same_as(b),
            (None, None) => true,
            _ => false,
        }
    }
}

/// Whether two lists of annotations agree item by item.
pub fn marks_eq(a: &Vec<Mark>, b: &Vec<Mark>) -> (same: bool)
    ensures
        same == (marks_view(a@) == marks_view(b@)),
{
    if a.len() != b.len() {
        assert(marks_view(a@).len() != marks_view(b@).len());
        return false;
    }
    let mut i: usize = 0;
    while i < a.len()
        invariant
            0 <= i <= a.len(),
            a.len() == b.len(),
            forall|k: int| 0 <= k < i ==> a[k]@ == b[k]@,
        decreases a.len() - i,
    {
        if !a[i].same_as(&b[i]) {
            assert(marks_view(a@)[i as int] != marks_view(b@)[i as int]);
            return false;
        }
        i += 1;
    }
    assert(marks_view(a@) =~= marks_view(b@));
    true
}

/// Whether two attribute lists agree pair by pair.
pub fn attrs_eq(a: &Vec<(String, String)>, b: &Vec<(String, String)>) -> (same: bool)
    ensures
        same == (attrs_view(a@) == attrs_view(b@)),
{
    if a.len() != b.len() {
        assert(attrs_view(a@).len() != attrs_view(b@).len());
        return false;
    }
    let mut i: usize = 0;
    while i < a.len()
        invariant
            0 <= i <= a.len(),
            a.len() == b.len(),
            forall|k: int| 0 <= k < i ==> a[k].0@ == b[k].0@ && a[k].1@ == b[k].1@,
        decreases a.len() - i,
    {
        if !(str_eq(a[i].0.as_str(), b[i].0.as_str()) && str_eq(a[i].1.as_str(), b[i].1.as_str())) {
            assert(attrs_view(a@)[i as int] != attrs_view(b@)[i as int]);
            return false;
        }
        i += 1;
    }
    assert(attrs_view(a@) =~= attrs_view(b@));
    true
}

/// Whether two runs of nodes stand for the same trees.
pub fn contents_eq(a: &Vec<Content>, b: &Vec<Content>) -> (same: bool)
    ensures
        same == (children_views(a@) == children_views(b@)),
    decreases a,
{
    if a.len() != b.len() {
        assert(children_views(a@).len() != children_views(b@).len());
        return false;
    }
    let mut i: usize = 0;
    while i < a.len()
        invariant
            0 <= i <= a.len(),
            a.len() == b.len(),
            forall|k: int| 0 <= k < i ==> a[k]@ == b[k]@,
        decreases a.len() - i,
    {
        if !a[i].same_as(&b[i]) {
            assert(children_views(a@)[i as int] != children_views(b@)[i as int]);
            return false;
        }
        i += 1;
    }
    assert(children_views(a@) =~= children_views(b@));
    true
}

impl Content {
    /// Whether two nodes stand for the same tree.
    pub fn same_as(&self, other: &Content) -> (same: bool)
        ensures
            same == (self@ == other@),
        decreases self,
    {
        let tags = str_eq(self.type_.as_str(), other.type_.as_str());
        let texts = opt_str_eq(&self.text, &other.text);
        let marks = match (&self.marks, &other.marks) {
            (Some(a), Some(b)) => marks_eq(a, b),
            (None, None) => true,
            _ => false,
        };
        let attrs = match (&self.attrs, &other.attrs) {
            (Some(a), Some(b)) => attrs_eq(a, b),
            (None, None) => true,
            _ => false,
        };
        let children = match (&self.content, &other.content) {
            (Some(a), Some(b)) => {
                proof {
                    assert(decreases_to!(self.content => self.content->0));
                }
                contents_eq(a, b)
            },
            (None, None) => true,
            _ => false,
        };
        tags && texts && marks && attrs && children
    }
}

impl AtlassianDoc {
    /// Whether two documents agree in version, tag and blocks.
    pub fn same_as(&self, other: &AtlassianDoc) -> (same: bool)
        ensures
            same == (self@ == other@),
    {
        self.version == other.version && str_eq(self.type_.as_str(), other.type_.as_str())
            && contents_eq(&self.content, &other.content)
    }
}

} // verus!
