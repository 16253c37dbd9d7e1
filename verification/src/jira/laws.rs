//! What holds of rendering and flattening in general.

use crate::jira::doc::{is_inline_tag, paragraph_view, text_view, ContentView, DocView, MarkView};
use crate::chars::line_end;
use crate::jira::flatten::{
    flattened, flattened_all, is_flat, lemma_flattened_items_are_flat, with_marks,
};
use crate::jira::mdast::{
    contents_of, document_of, empty_document, link_mark, wrapper, MdTree,
};
use crate::jira::render::{
    children_markdown, closing, concat, doc_markdown, heading_level, heading_prefix, kids_markdown,
    line_break, mark_close, mark_open, markdown_text, marks_close, marks_open, opening, prefixed,
    quoted, standard,
};
use crate::text::{decimal, repeated};
use vstd::prelude::*;
use vstd::string::*;

verus! {

/// A `text` leaf with the given annotations.
pub open spec fn marked_leaf(text: Seq<char>, marks: Seq<MarkView>) -> ContentView {
    ContentView { type_: "text"@, content: None, text: Some(text), marks: Some(marks), attrs: None }
}

/// The tags `text` and `paragraph` are not among the tags with a rendering
/// rule of their own; `text` is inline and `paragraph` is not.
pub proof fn lemma_default_tags()
    ensures
        uses_default_rule("text"@),
        uses_default_rule("paragraph"@),
        is_inline_tag("text"@),
        !is_inline_tag("paragraph"@),
{
    reveal_strlit("text");
    reveal_strlit("paragraph");
    reveal_strlit("codeBlock");
    reveal_strlit("blockquote");
    reveal_strlit("heading");
    reveal_strlit("orderedList");
    reveal_strlit("bulletList");
    reveal_strlit("table");
    reveal_strlit("tableRow");
    reveal_strlit("rule");
    reveal_strlit("hardBreak");
    reveal_strlit("code");
    reveal_strlit("inlineCard");
    reveal_strlit("mention");
    reveal_strlit("emoji");
    reveal_strlit("listItem");
    reveal_strlit("tableCell");
    assert("text"@.len() == 4 && "paragraph"@.len() == 9);
    assert("codeBlock"@.len() == 9 && "blockquote"@.len() == 10 && "heading"@.len() == 7);
    assert("orderedList"@.len() == 11 && "bulletList"@.len() == 10 && "table"@.len() == 5);
    assert("tableRow"@.len() == 8 && "rule"@.len() == 4 && "hardBreak"@.len() == 9);
    assert("code"@.len() == 4 && "inlineCard"@.len() == 10 && "mention"@.len() == 7);
    assert("emoji"@.len() == 5 && "listItem"@.len() == 8 && "tableCell"@.len() == 9);
    assert("text"@[0] != "rule"@[0]);
    assert("paragraph"@[0] != "codeBlock"@[0]);
    assert("paragraph"@[0] != "hardBreak"@[0]);
    assert("paragraph"@[0] != "tableCell"@[0]);
}

/// The tag has no rendering rule of its own, so the default rule applies.
pub open spec fn uses_default_rule(tag: Seq<char>) -> bool {
    &&& tag != "codeBlock"@
    &&& tag != "blockquote"@
    &&& tag != "heading"@
    &&& tag != "orderedList"@
    &&& tag != "bulletList"@
    &&& tag != "table"@
    &&& tag != "tableRow"@
    &&& tag != "rule"@
    &&& tag != "hardBreak"@
}

/// A document without blocks renders as the empty text.
pub proof fn lemma_empty_document_renders_empty()
    ensures
        doc_markdown(empty_document()) == Seq::<char>::empty(),
{
    assert(children_markdown(empty_document().content) =~= Seq::<Seq<char>>::empty());
}

/// A leaf renders as its annotations' opening delimiters, its text, and the
/// closing delimiters, without a line break.
pub proof fn lemma_leaf_renders(text: Seq<char>, marks: Seq<MarkView>)
    ensures
        markdown_text(marked_leaf(text, marks)) == marks_open(marks, marks.len()) + text
            + marks_close(marks, marks.len()),
        markdown_text(text_view(text)) == text,
{
    lemma_default_tags();
    let leaf = marked_leaf(text, marks);
    assert(kids_markdown(leaf) =~= Seq::<Seq<char>>::empty());
    assert(concat(kids_markdown(leaf)) =~= Seq::<char>::empty());
    assert(line_break(leaf.type_) =~= Seq::<char>::empty());
    assert(standard(leaf, kids_markdown(leaf)) =~= marks_open(marks, marks.len()) + text
        + marks_close(marks, marks.len()));
    let plain = text_view(text);
    assert(kids_markdown(plain) =~= Seq::<Seq<char>>::empty());
    assert(concat(kids_markdown(plain)) =~= Seq::<char>::empty());
    assert(standard(plain, kids_markdown(plain)) =~= text);
}

/// A leaf with one annotation renders as the text between the annotation's
/// opening and closing delimiter.
pub proof fn lemma_single_mark_renders(text: Seq<char>, mark: MarkView)
    ensures
        markdown_text(marked_leaf(text, seq![mark])) == mark_open(mark) + text + mark_close(mark),
{
    lemma_leaf_renders(text, seq![mark]);
    let marks = seq![mark];
    assert(marks_open(marks, 0) =~= Seq::<char>::empty());
    assert(marks_close(marks, 0) =~= Seq::<char>::empty());
    assert(marks_open(marks, 1) =~= mark_open(mark));
    assert(marks_close(marks, 1) =~= mark_close(mark));
}

/// A leaf with two annotations opens them in list order and closes them in
/// reverse: the first annotation's delimiters are the outer ones.
pub proof fn lemma_two_marks_nest(text: Seq<char>, first: MarkView, second: MarkView)
    ensures
        markdown_text(marked_leaf(text, seq![first, second])) == mark_open(first) + mark_open(
            second,
        ) + text + mark_close(second) + mark_close(first),
{
    let marks = seq![first, second];
    lemma_leaf_renders(text, marks);
    assert(marks_open(marks, 0) =~= Seq::<char>::empty());
    assert(marks_close(marks, 0) =~= Seq::<char>::empty());
    assert(marks_open(marks, 1) =~= mark_open(first));
    assert(marks_close(marks, 1) =~= mark_close(second));
    assert(marks_open(marks, 2) =~= mark_open(first) + mark_open(second));
    assert(marks_close(marks, 2) =~= mark_close(second) + mark_close(first));
    assert(marks_open(marks, 2) + text + marks_close(marks, 2) =~= mark_open(first) + mark_open(
        second,
    ) + text + mark_close(second) + mark_close(first));
}

/// A link renders as the text in square brackets, then in round brackets the
/// address and, where the link has one, the title in double quotes.
pub proof fn lemma_link_renders(text: Seq<char>, url: Seq<char>, title: Option<Seq<char>>)
    ensures
        markdown_text(marked_leaf(text, seq![link_mark(url, title)])) == "["@ + text + "]("@ + url
            + (match title {
            Some(t) => " \""@ + t + "\""@,
            None => Seq::empty(),
        }) + ")"@,
{
    let mark = link_mark(url, title);
    lemma_single_mark_renders(text, mark);
    reveal_strlit("link");
    reveal_strlit("strong");
    reveal_strlit("em");
    reveal_strlit("strike");
    reveal_strlit("code");
    assert("link"@.len() == 4 && "strong"@.len() == 6 && "em"@.len() == 2 && "strike"@.len() == 6);
    assert("link"@[0] != "code"@[0]);
    let tail = match title {
        Some(t) => " \""@ + t + "\""@,
        None => Seq::empty(),
    };
    assert(mark_open(mark) + text + mark_close(mark) =~= "["@ + text + "]("@ + url + tail + ")"@);
}

/// A document of one paragraph with one unannotated leaf renders as the
/// leaf's text and a line break.
pub proof fn lemma_paragraph_renders(text: Seq<char>)
    ensures
        markdown_text(paragraph_view(text)) == text + "\n"@,
        doc_markdown(DocView { version: 1, type_: "doc"@, content: seq![paragraph_view(text)] })
            == text + "\n"@,
{
    lemma_default_tags();
    lemma_leaf_renders(text, Seq::empty());
    let para = paragraph_view(text);
    assert(kids_markdown(para) =~= seq![text]);
    assert(prefixed(seq![text], Seq::empty(), 0) =~= Seq::<char>::empty());
    assert(concat(kids_markdown(para)) =~= text);
    assert(opening(para.marks) =~= Seq::<char>::empty());
    assert(closing(para.marks) =~= Seq::<char>::empty());
    assert(standard(para, kids_markdown(para)) =~= text + "\n"@);
    let line = text + "\n"@;
    assert(children_markdown(seq![para]) =~= seq![line]);
    assert(prefixed(seq![line], Seq::empty(), 0) =~= Seq::<char>::empty());
    assert(concat(seq![line]) =~= line);
}

/// For each level from one to six, a heading whose `level` attribute holds the
/// level in decimal starts with that many `#` signs and a space.
pub proof fn lemma_heading_levels(level: nat)
    requires
        1 <= level <= 6,
    ensures
        heading_level(Some(decimal(level))) == level,
        heading_prefix(Some(seq![("level"@, decimal(level))])) == repeated("#"@, level) + " "@,
{
    reveal_strlit("1");
    reveal_strlit("2");
    reveal_strlit("3");
    reveal_strlit("4");
    reveal_strlit("5");
    reveal_strlit("6");
    assert("1"@[0] != "2"@[0] && "1"@[0] != "3"@[0] && "1"@[0] != "4"@[0]);
    assert("1"@[0] != "5"@[0] && "1"@[0] != "6"@[0] && "2"@[0] != "3"@[0]);
    assert("2"@[0] != "4"@[0] && "2"@[0] != "5"@[0] && "2"@[0] != "6"@[0]);
    assert("3"@[0] != "4"@[0] && "3"@[0] != "5"@[0] && "3"@[0] != "6"@[0]);
    assert("4"@[0] != "5"@[0] && "4"@[0] != "6"@[0] && "5"@[0] != "6"@[0]);
    assert(heading_level(Some(decimal(level))) == level);
}

/// A leaf inside two nested wrappers comes out of flattening with the inner
/// wrapper's annotation before the outer one's.
pub proof fn lemma_nested_wrappers_flatten(text: Seq<char>, inner: MarkView, outer: MarkView)
    ensures
        flattened(wrapper(outer, seq![wrapper(inner, seq![text_view(text)])])) == seq![
            marked_leaf(text, seq![inner, outer]),
        ],
{
    reveal_strlit("text");
    let leaf = text_view(text);
    let inside = wrapper(inner, seq![leaf]);
    let outside = wrapper(outer, seq![inside]);
    assert(flattened(leaf) =~= seq![leaf]);
    assert(flattened_all(seq![leaf], 0) =~= Seq::<ContentView>::empty());
    assert(flattened_all(seq![leaf], 1) =~= seq![leaf]);
    assert(with_marks(leaf, seq![inner]) == marked_leaf(text, seq![inner]));
    assert(flattened(inside) =~= seq![marked_leaf(text, seq![inner])]);
    assert(flattened_all(seq![inside], 0) =~= Seq::<ContentView>::empty());
    assert(flattened_all(seq![inside], 1) =~= seq![marked_leaf(text, seq![inner])]);
    assert(seq![inner] + seq![outer] =~= seq![inner, outer]);
    assert(with_marks(marked_leaf(text, seq![inner]), seq![outer]) == marked_leaf(
        text,
        seq![inner, outer],
    ));
    assert(flattened(outside) =~= seq![marked_leaf(text, seq![inner, outer])]);
}

/// No style wrapper is left in the document that a syntax tree stands for.
pub proof fn lemma_document_is_flat(tree: MdTree)
    ensures
        forall|k: int|
            0 <= k < document_of(tree).content.len() ==> is_flat(
                #[trigger] document_of(tree).content[k],
            ),
{
    lemma_flattened_items_are_flat(contents_of(tree.children), tree.children.len());
}

/// A quoted line: a text without line feed, with one behind it, gets `> ` in front.
pub proof fn lemma_quoted_line(line: Seq<char>)
    requires
        forall|i: int| 0 <= i < line.len() ==> line[i] != '\n',
    ensures
        quoted(line + "\n"@) == "> "@ + line + "\n"@,
{
    reveal_strlit("\n");
    let s = line + "\n"@;
    assert(s.len() == line.len() + 1);
    assert(s[line.len() as int] == '\n');
    lemma_line_end_at(s, 0, line.len() as int);
    assert(s.subrange(0, s.len() as int) =~= s);
    assert("> "@ + s =~= "> "@ + line + "\n"@);
}

/// The line that starts at `from` ends at the first line feed behind it.
pub proof fn lemma_line_end_at(s: Seq<char>, from: int, at: int)
    requires
        0 <= from <= at < s.len(),
        s[at] == '\n',
        forall|i: int| from <= i < at ==> s[i] != '\n',
    ensures
        line_end(s, from) == at,
    decreases at - from,
{
    if from < at {
        lemma_line_end_at(s, from + 1, at);
    }
}

} // verus!
