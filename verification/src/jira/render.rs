//! From the document tree to Markdown.

use crate::jira::doc::{
    attrs_view, children_views, marks_view, is_inline_tag, AtlassianDoc, Content, ContentView, DocView, Mark, MarkAttrsView,
    MarkView,
};
use crate::chars::{chars_of, end_of_line, lemma_line_end_bounds, line_end};
use crate::text::{decimal, push_decimal, push_repeated, repeated, str_eq};
use vstd::prelude::*;
use vstd::string::*;
use vstd::utf8::*;

verus! {

/// The value of the first pair of `attrs`, from index `from` on, whose key is `key`.
pub open spec fn attr_value_from(
    attrs: Seq<(Seq<char>, Seq<char>)>,
    key: Seq<char>,
    from: int,
) -> Option<Seq<char>>
    decreases attrs.len() - from,
{
    if from < 0 || from >= attrs.len() {
        None
    } else if attrs[from].0 == key {
        Some(attrs[from].1)
    } else {
        attr_value_from(attrs, key, from + 1)
    }
}

/// The value that an optional attribute list gives to `key`.
pub open spec fn attr_value(
    attrs: Option<Seq<(Seq<char>, Seq<char>)>>,
    key: Seq<char>,
) -> Option<Seq<char>> {
    match attrs {
        Some(pairs) => attr_value_from(pairs, key, 0),
        None => None,
    }
}

/// The delimiter that opens an annotation.
pub open spec fn mark_open(m: MarkView) -> Seq<char> {
    if m.type_ == "strong"@ {
        "**"@
    } else if m.type_ == "em"@ {
        "*"@
    } else if m.type_ == "strike"@ {
        "~~"@
    } else if m.type_ == "code"@ {
        "`"@
    } else if m.type_ == "link"@ {
        "["@
    } else {
        Seq::empty()
    }
}

/// The target of a link as it stands between the round brackets: the address,
/// then the title in double quotes after a space.
pub open spec fn link_target(attrs: Option<MarkAttrsView>) -> Seq<char> {
    match attrs {
        Some(a) => (match a.href {
            Some(href) => href,
            None => Seq::empty(),
        }) + (match a.title {
            Some(title) => " \""@ + title + "\""@,
            None => Seq::empty(),
        }),
        None => Seq::empty(),
    }
}

/// The delimiter that closes an annotation.
pub open spec fn mark_close(m: MarkView) -> Seq<char> {
    if m.type_ == "strong"@ {
        "**"@
    } else if m.type_ == "em"@ {
        "*"@
    } else if m.type_ == "strike"@ {
        "~~"@
    } else if m.type_ == "code"@ {
        "`"@
    } else if m.type_ == "link"@ {
        "]("@ + link_target(m.attrs) + ")"@
    } else {
        Seq::empty()
    }
}

/// The opening delimiters of the first `n` annotations, in list order.
pub open spec fn marks_open(marks: Seq<MarkView>, n: nat) -> Seq<char>
    decreases n,
{
    if n == 0 || n > marks.len() {
        Seq::empty()
    } else {
        marks_open(marks, (n - 1) as nat) + mark_open(marks[n - 1])
    }
}

/// The closing delimiters of the last `n` annotations, the last annotation first.
pub open spec fn marks_close(marks: Seq<MarkView>, n: nat) -> Seq<char>
    decreases n,
{
    if n == 0 || n > marks.len() {
        Seq::empty()
    } else {
        marks_close(marks, (n - 1) as nat) + mark_close(marks[marks.len() - n])
    }
}

/// What is written before the content of a node with these annotations.
pub open spec fn opening(marks: Option<Seq<MarkView>>) -> Seq<char> {
    match marks {
        Some(m) => marks_open(m, m.len()),
        None => Seq::empty(),
    }
}

/// What is written after the content of a node with these annotations.
pub open spec fn closing(marks: Option<Seq<MarkView>>) -> Seq<char> {
    match marks {
        Some(m) => marks_close(m, m.len()),
        None => Seq::empty(),
    }
}

/// The first `n` parts, each behind `prefix`.
pub open spec fn prefixed(parts: Seq<Seq<char>>, prefix: Seq<char>, n: nat) -> Seq<char>
    decreases n,
{
    if n == 0 || n > parts.len() {
        Seq::empty()
    } else {
        prefixed(parts, prefix, (n - 1) as nat) + prefix + parts[n - 1]
    }
}

/// The text from index `from` on with `> ` before each of its lines. A line
/// ends behind its line feed; an empty text counts as one empty line.
pub open spec fn quoted_from(s: Seq<char>, from: int) -> Seq<char>
    decreases s.len() - from + 1,
    via quoted_from_terminates
{
    let end = line_end(s, from);
    if from < 0 || from > s.len() {
        Seq::empty()
    } else if end >= s.len() {
        "> "@ + s.subrange(from, s.len() as int)
    } else if end + 1 >= s.len() {
        "> "@ + s.subrange(from, end + 1)
    } else {
        "> "@ + s.subrange(from, end + 1) + quoted_from(s, end + 1)
    }
}

#[via_fn]
proof fn quoted_from_terminates(s: Seq<char>, from: int) {
    if 0 <= from <= s.len() {
        lemma_line_end_bounds(s, from);
    }
}

/// A text with `> ` before each of its lines.
pub open spec fn quoted(s: Seq<char>) -> Seq<char> {
    quoted_from(s, 0)
}

/// The first `n` parts, each with `> ` before each of its lines.
pub open spec fn quoted_all(parts: Seq<Seq<char>>, n: nat) -> Seq<char>
    decreases n,
{
    if n == 0 || n > parts.len() {
        Seq::empty()
    } else {
        quoted_all(parts, (n - 1) as nat) + quoted(parts[n - 1])
    }
}

/// All parts, one after the other.
pub open spec fn concat(parts: Seq<Seq<char>>) -> Seq<char> {
    prefixed(parts, Seq::empty(), parts.len())
}

/// The first `n` parts, each behind its position counted from one, a dot and a space.
pub open spec fn numbered(parts: Seq<Seq<char>>, n: nat) -> Seq<char>
    decreases n,
{
    if n == 0 || n > parts.len() {
        Seq::empty()
    } else {
        numbered(parts, (n - 1) as nat) + decimal(n) + ". "@ + parts[n - 1]
    }
}

/// The first `n` parts with `sep` between neighbours.
pub open spec fn joined(parts: Seq<Seq<char>>, sep: Seq<char>, n: nat) -> Seq<char>
    decreases n,
{
    if n == 0 || n > parts.len() {
        Seq::empty()
    } else if n == 1 {
        parts[0]
    } else {
        joined(parts, sep, (n - 1) as nat) + sep + parts[n - 1]
    }
}

/// The width of a rendered cell: the length of its UTF-8 encoding.
pub open spec fn rendered_width(s: Seq<char>) -> nat {
    encode_utf8(s).len()
}

/// The widths of the rendered cells.
pub open spec fn widths_of(cells: Seq<Seq<char>>) -> Seq<nat> {
    Seq::new(cells.len(), |j: int| rendered_width(cells[j]))
}

/// The dashes of the first `n` columns of a separator row, each column closed by a bar.
pub open spec fn separator_columns(widths: Seq<nat>, n: nat) -> Seq<char>
    decreases n,
{
    if n == 0 || n > widths.len() {
        Seq::empty()
    } else {
        separator_columns(widths, (n - 1) as nat) + repeated("-"@, widths[n - 1] + 2) + "|"@
    }
}

/// The row that parts a table's header from its body.
pub open spec fn separator_row(widths: Seq<nat>) -> Seq<char> {
    "|"@ + separator_columns(widths, widths.len()) + "\n"@
}

/// The first `n` rendered rows of a table, with the separator row behind the first.
pub open spec fn table_rows(rows: Seq<Seq<char>>, widths: Seq<nat>, n: nat) -> Seq<char>
    decreases n,
{
    if n == 0 || n > rows.len() {
        Seq::empty()
    } else if n == 1 {
        rows[0] + separator_row(widths)
    } else {
        table_rows(rows, widths, (n - 1) as nat) + rows[n - 1]
    }
}

/// The number of `#` signs for a heading's `level` attribute: the levels one to six.
pub open spec fn heading_level(level: Option<Seq<char>>) -> nat {
    match level {
        Some(v) => if v == "1"@ {
            1
        } else if v == "2"@ {
            2
        } else if v == "3"@ {
            3
        } else if v == "4"@ {
            4
        } else if v == "5"@ {
            5
        } else if v == "6"@ {
            6
        } else {
            0
        },
        None => 0,
    }
}

/// What stands before a heading's text: the `#` signs and a space, or nothing
/// where the attributes name no level from one to six.
pub open spec fn heading_prefix(attrs: Option<Seq<(Seq<char>, Seq<char>)>>) -> Seq<char> {
    let level = heading_level(attr_value(attrs, "level"@));
    if level == 0 {
        Seq::empty()
    } else {
        repeated("#"@, level) + " "@
    }
}

/// A fenced code block: the fence with the language, the text, the closing fence.
pub open spec fn code_block(
    attrs: Option<Seq<(Seq<char>, Seq<char>)>>,
    text: Option<Seq<char>>,
) -> Seq<char> {
    "```"@ + (match attr_value(attrs, "language"@) {
        Some(lang) => lang,
        None => Seq::empty(),
    }) + "\n"@ + (match text {
        Some(t) => t + "\n"@,
        None => Seq::empty(),
    }) + "```\n"@
}

/// The line break behind a node that is not inline.
pub open spec fn line_break(tag: Seq<char>) -> Seq<char> {
    if is_inline_tag(tag) {
        Seq::empty()
    } else {
        "\n"@
    }
}

/// The default rendering: the opening delimiters, the text, the children, the
/// closing delimiters in reverse order, and a line break unless the tag is inline.
pub open spec fn standard(c: ContentView, kids: Seq<Seq<char>>) -> Seq<char> {
    opening(c.marks) + (match c.text {
        Some(t) => t,
        None => Seq::empty(),
    }) + concat(kids) + closing(c.marks) + line_break(c.type_)
}

/// The Markdown text of a node.
pub open spec fn markdown_text(c: ContentView) -> Seq<char>
    decreases c, 2nat,
{
    let kids = kids_markdown(c);
    if c.type_ == "codeBlock"@ {
        code_block(c.attrs, c.text)
    } else if c.type_ == "blockquote"@ {
        quoted_all(kids, kids.len())
    } else if c.type_ == "heading"@ {
        heading_prefix(c.attrs) + concat(kids) + "\n"@
    } else if c.type_ == "orderedList"@ {
        numbered(kids, kids.len())
    } else if c.type_ == "bulletList"@ {
        prefixed(kids, "* "@, kids.len())
    } else if c.type_ == "table"@ {
        table_rows(kids, first_row_widths(c), kids.len())
    } else if c.type_ == "tableRow"@ {
        match c.content {
            Some(_) => "| "@ + joined(kids, " | "@, kids.len()) + " |\n"@,
            None => Seq::empty(),
        }
    } else if c.type_ == "rule"@ {
        "\n---\n\n"@
    } else if c.type_ == "hardBreak"@ {
        "\n"@
    } else {
        standard(c, kids)
    }
}

/// The Markdown texts of a node's children; empty where it has none.
pub open spec fn kids_markdown(c: ContentView) -> Seq<Seq<char>>
    decreases c, 1nat,
{
    match c.content {
        Some(items) => children_markdown(items),
        None => Seq::empty(),
    }
}

/// The Markdown text of each node of a run.
pub open spec fn children_markdown(items: Seq<ContentView>) -> Seq<Seq<char>>
    decreases items, 0nat,
{
    Seq::new(
        items.len(),
        |i: int|
            if 0 <= i < items.len() {
                markdown_text(items[i])
            } else {
                Seq::empty()
            },
    )
}

/// The widths of the rendered cells of a table's first row.
pub open spec fn first_row_widths(c: ContentView) -> Seq<nat>
    decreases c, 1nat,
{
    match c.content {
        Some(rows) => if rows.len() > 0 {
            widths_of(kids_markdown(rows[0]))
        } else {
            Seq::empty()
        },
        None => Seq::empty(),
    }
}

/// The Markdown text of a document: its blocks one after the other.
pub open spec fn doc_markdown(d: DocView) -> Seq<char> {
    concat(children_markdown(d.content))
}

/// The value that an attribute list gives to `key`: that of the first pair with this key.
pub fn find_attr<'a>(attrs: &'a Option<Vec<(String, String)>>, key: &str) -> (res: Option<
    &'a String,
>)
    ensures
        match res {
            Some(v) => attr_value(attrs_of(*attrs), key@) == Some(v@),
            None => attr_value(attrs_of(*attrs), key@) is None,
        },
{
    match attrs {
        Some(pairs) => {
            let ghost views = attrs_view(pairs@);
            let mut i: usize = 0;
            while i < pairs.len()
                invariant
                    0 <= i <= pairs.len(),
                    views == attrs_view(pairs@),
                    attrs_of(*attrs) == Some(views),
                    attr_value_from(views, key@, 0) == attr_value_from(views, key@, i as int),
                decreases pairs.len() - i,
            {
                if str_eq(pairs[i].0.as_str(), key) {
                    return Some(&pairs[i].1);
                }
                i += 1;
            }
            None
        },
        None => None,
    }
}

/// The view of an optional attribute list.
pub open spec fn attrs_of(attrs: Option<Vec<(String, String)>>) -> Option<
    Seq<(Seq<char>, Seq<char>)>,
> {
    match attrs {
        Some(a) => Some(attrs_view(a@)),
        None => None,
    }
}

fn write_mark_open(mark: &Mark, writer: &mut String)
    ensures
        final(writer)@ == old(writer)@ + mark_open(mark@),
{
    let tag = mark.type_.as_str();
    if str_eq(tag, "strong") {
        writer.append("**");
    } else if str_eq(tag, "em") {
        writer.append("*");
    } else if str_eq(tag, "strike") {
        writer.append("~~");
    } else if str_eq(tag, "code") {
        writer.append("`");
    } else if str_eq(tag, "link") {
        writer.append("[");
    } else {
        assert(writer@ =~= old(writer)@ + Seq::<char>::empty());
    }
}

fn write_link_target(mark: &Mark, writer: &mut String)
    ensures
        final(writer)@ == old(writer)@ + link_target(mark@.attrs),
{
    if let Some(attrs) = &mark.attrs {
        let ghost mut href_part = Seq::<char>::empty();
        let ghost mut title_part = Seq::<char>::empty();
        if let Some(href) = &attrs.href {
            writer.append(href.as_str());
            proof {
                href_part = href@;
            }
        }
        if let Some(title) = &attrs.title {
            writer.append(" \"");
            writer.append(title.as_str());
            writer.append("\"");
            proof {
                title_part = " \""@ + title@ + "\""@;
            }
        }
        assert(writer@ =~= old(writer)@ + (href_part + title_part));
    } else {
        assert(writer@ =~= old(writer)@ + Seq::<char>::empty());
    }
}

fn write_mark_close(mark: &Mark, writer: &mut String)
    ensures
        final(writer)@ == old(writer)@ + mark_close(mark@),
{
    let tag = mark.type_.as_str();
    if str_eq(tag, "strong") {
        writer.append("**");
    } else if str_eq(tag, "em") {
        writer.append("*");
    } else if str_eq(tag, "strike") {
        writer.append("~~");
    } else if str_eq(tag, "code") {
        writer.append("`");
    } else if str_eq(tag, "link") {
        writer.append("](");
        write_link_target(mark, writer);
        writer.append(")");
        assert(writer@ =~= old(writer)@ + ("]("@ + link_target(mark@.attrs) + ")"@));
    } else {
        assert(writer@ =~= old(writer)@ + Seq::<char>::empty());
    }
}

impl Content {
    /// Writes the opening delimiter of each annotation, in list order.
    pub fn marks_start(&self, writer: &mut String)
        ensures
            final(writer)@ == old(writer)@ + opening(self@.marks),
    {
        if let Some(marks) = &self.marks {
            let ghost views = marks_view(marks@);
            let mut i: usize = 0;
            assert(writer@ =~= old(writer)@ + marks_open(views, 0));
            while i < marks.len()
                invariant
                    0 <= i <= marks.len(),
                    views == marks_view(marks@),
                    writer@ == old(writer)@ + marks_open(views, i as nat),
                decreases marks.len() - i,
            {
                write_mark_open(&marks[i], writer);
                i += 1;
                assert(writer@ =~= old(writer)@ + marks_open(views, i as nat));
            }
        } else {
            assert(writer@ =~= old(writer)@ + Seq::<char>::empty());
        }
    }

    /// Writes the closing delimiter of each annotation, the last annotation first.
    pub fn marks_end(&self, writer: &mut String)
        ensures
            final(writer)@ == old(writer)@ + closing(self@.marks),
    {
        if let Some(marks) = &self.marks {
            let ghost views = marks_view(marks@);
            let n = marks.len();
            let mut done: usize = 0;
            assert(writer@ =~= old(writer)@ + marks_close(views, 0));
            while done < n
                invariant
                    0 <= done <= n,
                    n == marks.len(),
                    views == marks_view(marks@),
                    writer@ == old(writer)@ + marks_close(views, done as nat),
                decreases n - done,
            {
                write_mark_close(&marks[n - 1 - done], writer);
                done += 1;
                assert(writer@ =~= old(writer)@ + marks_close(views, done as nat));
            }
        } else {
            assert(writer@ =~= old(writer)@ + Seq::<char>::empty());
        }
    }
}

/// The characters of an optional prefix.
pub open spec fn prefix_text(prefix: Option<&str>) -> Seq<char> {
    match prefix {
        Some(p) => p@,
        None => Seq::empty(),
    }
}

/// The widths of the first row's cells of a run of table rows.
pub open spec fn header_widths(rows: Seq<ContentView>) -> Seq<nat> {
    if rows.len() > 0 {
        widths_of(kids_markdown(rows[0]))
    } else {
        Seq::empty()
    }
}

/// Writing a unit `a` times and then `b` times writes it `a + b` times.
pub proof fn lemma_repeated_add(unit: Seq<char>, a: nat, b: nat)
    ensures
        repeated(unit, a) + repeated(unit, b) == repeated(unit, a + b),
    decreases b,
{
    if b == 0 {
        assert(repeated(unit, a) + repeated(unit, 0) =~= repeated(unit, a));
    } else {
        lemma_repeated_add(unit, a, (b - 1) as nat);
        assert(repeated(unit, a) + repeated(unit, b) =~= repeated(unit, a) + repeated(
            unit,
            (b - 1) as nat,
        ) + unit);
    }
}

fn write_prefixed(items: &Vec<Content>, prefix: Option<&str>, writer: &mut String)
    ensures
        final(writer)@ == old(writer)@ + prefixed(
            children_markdown(children_views(items@)),
            prefix_text(prefix),
            items.len() as nat,
        ),
    decreases items, 0nat,
{
    let ghost kids = children_markdown(children_views(items@));
    let mut i: usize = 0;
    assert(writer@ =~= old(writer)@ + prefixed(kids, prefix_text(prefix), 0));
    while i < items.len()
        invariant
            0 <= i <= items.len(),
            kids == children_markdown(children_views(items@)),
            writer@ == old(writer)@ + prefixed(kids, prefix_text(prefix), i as nat),
        decreases items.len() - i,
    {
        if let Some(p) = prefix {
            writer.append(p);
        }
        proof {
            assert(decreases_to!(*items => items[i as int]));
        }
        items[i].to_markdown(writer);
        proof {
            assert(kids[i as int] == markdown_text(items[i as int]@));
        }
        i += 1;
        assert(writer@ =~= old(writer)@ + prefixed(kids, prefix_text(prefix), i as nat));
    }
}

fn write_quoted_text(text: &str, writer: &mut String)
    ensures
        final(writer)@ == old(writer)@ + quoted(text@),
{
    let chars = chars_of(text);
    let len = chars.len();
    let mut from: usize = 0;
    loop
        invariant_except_break
            old(writer)@ + quoted(text@) == writer@ + quoted_from(text@, from as int),
        invariant
            from <= len,
            len == text@.len(),
            chars@ == text@,
        ensures
            writer@ == old(writer)@ + quoted(text@),
        decreases len - from,
    {
        let ghost before = writer@;
        let end = end_of_line(&chars, from);
        writer.append("> ");
        if end >= len {
            writer.append(text.substring_char(from, len));
            assert(writer@ =~= before + quoted_from(text@, from as int));
            break ;
        }
        writer.append(text.substring_char(from, end + 1));
        if end + 1 >= len {
            assert(writer@ =~= before + quoted_from(text@, from as int));
            break ;
        }
        assert(writer@ + quoted_from(text@, end + 1) =~= before + quoted_from(text@, from as int));
        from = end + 1;
    }
}

fn write_quoted(items: &Vec<Content>, writer: &mut String)
    ensures
        final(writer)@ == old(writer)@ + quoted_all(
            children_markdown(children_views(items@)),
            items.len() as nat,
        ),
    decreases items, 0nat,
{
    let ghost kids = children_markdown(children_views(items@));
    let mut i: usize = 0;
    assert(writer@ =~= old(writer)@ + quoted_all(kids, 0));
    while i < items.len()
        invariant
            0 <= i <= items.len(),
            kids == children_markdown(children_views(items@)),
            writer@ == old(writer)@ + quoted_all(kids, i as nat),
        decreases items.len() - i,
    {
        let mut child = String::new();
        proof {
            assert(decreases_to!(*items => items[i as int]));
        }
        items[i].to_markdown(&mut child);
        proof {
            assert(kids[i as int] == markdown_text(items[i as int]@));
            assert(child@ =~= kids[i as int]);
        }
        write_quoted_text(child.as_str(), writer);
        i += 1;
        assert(writer@ =~= old(writer)@ + quoted_all(kids, i as nat));
    }
}

fn write_numbered(items: &Vec<Content>, writer: &mut String)
    ensures
        final(writer)@ == old(writer)@ + numbered(
            children_markdown(children_views(items@)),
            items.len() as nat,
        ),
    decreases items, 0nat,
{
    let ghost kids = children_markdown(children_views(items@));
    let mut i: usize = 0;
    assert(writer@ =~= old(writer)@ + numbered(kids, 0));
    while i < items.len()
        invariant
            0 <= i <= items.len(),
            kids == children_markdown(children_views(items@)),
            writer@ == old(writer)@ + numbered(kids, i as nat),
        decreases items.len() - i,
    {
        push_decimal(writer, i + 1);
        writer.append(". ");
        proof {
            assert(decreases_to!(*items => items[i as int]));
        }
        items[i].to_markdown(writer);
        proof {
            assert(kids[i as int] == markdown_text(items[i as int]@));
        }
        i += 1;
        assert(writer@ =~= old(writer)@ + numbered(kids, i as nat));
    }
}

fn write_joined(items: &Vec<Content>, writer: &mut String)
    ensures
        final(writer)@ == old(writer)@ + joined(
            children_markdown(children_views(items@)),
            " | "@,
            items.len() as nat,
        ),
    decreases items, 0nat,
{
    let ghost kids = children_markdown(children_views(items@));
    let mut i: usize = 0;
    assert(writer@ =~= old(writer)@ + joined(kids, " | "@, 0));
    while i < items.len()
        invariant
            0 <= i <= items.len(),
            kids == children_markdown(children_views(items@)),
            writer@ == old(writer)@ + joined(kids, " | "@, i as nat),
        decreases items.len() - i,
    {
        if i > 0 {
            writer.append(" | ");
        }
        proof {
            assert(decreases_to!(*items => items[i as int]));
        }
        items[i].to_markdown(writer);
        proof {
            assert(kids[i as int] == markdown_text(items[i as int]@));
        }
        i += 1;
        assert(writer@ =~= old(writer)@ + joined(kids, " | "@, i as nat));
    }
}

fn measure_cells(row: &Content) -> (widths: Vec<usize>)
    ensures
        widths@.len() == widths_of(kids_markdown(row@)).len(),
        forall|j: int|
            0 <= j < widths@.len() ==> widths@[j] as nat == widths_of(kids_markdown(row@))[j],
    decreases row, 0nat,
{
    let mut widths: Vec<usize> = Vec::new();
    if let Some(cells) = &row.content {
        let ghost kids = children_markdown(children_views(cells@));
        assert(kids == kids_markdown(row@));
        let mut j: usize = 0;
        while j < cells.len()
            invariant
                0 <= j <= cells.len(),
                row.content == Some(*cells),
                kids == children_markdown(children_views(cells@)),
                widths@.len() == j,
                forall|k: int| 0 <= k < j ==> widths@[k] as nat == rendered_width(kids[k]),
            decreases cells.len() - j,
        {
            let mut cell = String::new();
            proof {
                assert(decreases_to!(row => row.content));
                assert(decreases_to!(row.content => row.content->0));
                assert(decreases_to!(*cells => cells[j as int]));
            }
            cells[j].to_markdown(&mut cell);
            proof {
                assert(kids[j as int] == markdown_text(cells[j as int]@));
                assert(cell@ =~= kids[j as int]);
            }
            widths.push(cell.as_str().as_bytes().len());
            j += 1;
        }
    }
    widths
}

fn write_separator(widths: &Vec<usize>, writer: &mut String)
    ensures
        forall|spec_widths: Seq<nat>|
            spec_widths.len() == widths@.len() && (forall|j: int|
                0 <= j < widths@.len() ==> widths@[j] as nat == spec_widths[j])
                ==> final(writer)@ == old(writer)@ + #[trigger] separator_row(spec_widths),
{
    let ghost exact = Seq::new(widths@.len(), |j: int| widths@[j] as nat);
    writer.append("|");
    let ghost start = writer@;
    let mut j: usize = 0;
    assert(writer@ =~= start + separator_columns(exact, 0));
    while j < widths.len()
        invariant
            0 <= j <= widths.len(),
            exact == Seq::new(widths@.len(), |j: int| widths@[j] as nat),
            writer@ == start + separator_columns(exact, j as nat),
        decreases widths.len() - j,
    {
        let ghost before = writer@;
        push_repeated(writer, "-", widths[j]);
        push_repeated(writer, "-", 2);
        writer.append("|");
        proof {
            lemma_repeated_add("-"@, widths[j as int] as nat, 2);
            assert(writer@ =~= before + repeated("-"@, exact[j as int] + 2) + "|"@);
        }
        j += 1;
        assert(writer@ =~= start + separator_columns(exact, j as nat));
    }
    writer.append("\n");
    assert(writer@ =~= old(writer)@ + separator_row(exact));
    assert forall|spec_widths: Seq<nat>|
        spec_widths.len() == widths@.len() && (forall|j: int|
            0 <= j < widths@.len() ==> widths@[j] as nat == spec_widths[j]) implies writer@
        == old(writer)@ + #[trigger] separator_row(spec_widths) by {
        assert(spec_widths =~= exact);
    }
}

fn write_table(rows: &Vec<Content>, writer: &mut String)
    ensures
        final(writer)@ == old(writer)@ + table_rows(
            children_markdown(children_views(rows@)),
            header_widths(children_views(rows@)),
            rows.len() as nat,
        ),
    decreases rows, 0nat,
{
    let ghost kids = children_markdown(children_views(rows@));
    let ghost spec_widths = header_widths(children_views(rows@));
    if rows.len() == 0 {
        assert(writer@ =~= old(writer)@ + table_rows(kids, spec_widths, 0));
        return ;
    }
    proof {
        assert(decreases_to!(*rows => rows[0]));
    }
    let widths = measure_cells(&rows[0]);
    assert(spec_widths == widths_of(kids_markdown(rows[0]@)));
    let mut i: usize = 0;
    assert(writer@ =~= old(writer)@ + table_rows(kids, spec_widths, 0));
    while i < rows.len()
        invariant
            0 <= i <= rows.len(),
            kids == children_markdown(children_views(rows@)),
            spec_widths.len() == widths@.len(),
            forall|j: int| 0 <= j < widths@.len() ==> widths@[j] as nat == spec_widths[j],
            writer@ == old(writer)@ + table_rows(kids, spec_widths, i as nat),
        decreases rows.len() - i,
    {
        proof {
            assert(decreases_to!(*rows => rows[i as int]));
        }
        let ghost before = writer@;
        rows[i].to_markdown(writer);
        proof {
            assert(kids[i as int] == markdown_text(rows[i as int]@));
        }
        if i == 0 {
            write_separator(&widths, writer);
            assert(writer@ == before + kids[0] + separator_row(spec_widths));
        }
        i += 1;
        assert(writer@ =~= old(writer)@ + table_rows(kids, spec_widths, i as nat));
    }
}

fn write_heading_prefix(attrs: &Option<Vec<(String, String)>>, writer: &mut String)
    ensures
        final(writer)@ == old(writer)@ + heading_prefix(attrs_of(*attrs)),
{
    let level: usize = match find_attr(attrs, "level") {
        Some(v) => {
            let v = v.as_str();
            if str_eq(v, "1") {
                1
            } else if str_eq(v, "2") {
                2
            } else if str_eq(v, "3") {
                3
            } else if str_eq(v, "4") {
                4
            } else if str_eq(v, "5") {
                5
            } else if str_eq(v, "6") {
                6
            } else {
                0
            }
        },
        None => 0,
    };
    assert(level as nat == heading_level(attr_value(attrs_of(*attrs), "level"@)));
    if level > 0 {
        push_repeated(writer, "#", level);
        writer.append(" ");
        assert(writer@ =~= old(writer)@ + (repeated("#"@, level as nat) + " "@));
    } else {
        assert(writer@ =~= old(writer)@ + Seq::<char>::empty());
    }
}

fn write_code_block(node: &Content, writer: &mut String)
    ensures
        final(writer)@ == old(writer)@ + code_block(node@.attrs, node@.text),
{
    let ghost mut lang_part = Seq::<char>::empty();
    let ghost mut text_part = Seq::<char>::empty();
    writer.append("```");
    if let Some(lang) = find_attr(&node.attrs, "language") {
        writer.append(lang.as_str());
        proof {
            lang_part = lang@;
        }
    }
    writer.append("\n");
    if let Some(text) = &node.text {
        writer.append(text.as_str());
        writer.append("\n");
        proof {
            text_part = text@ + "\n"@;
        }
    }
    writer.append("```\n");
    assert(writer@ =~= old(writer)@ + ("```"@ + lang_part + "\n"@ + text_part + "```\n"@));
}

impl Content {
    /// Writes the node as Markdown, by the rule of its tag.
    pub fn to_markdown(&self, writer: &mut String)
        ensures
            final(writer)@ == old(writer)@ + markdown_text(self@),
        decreases self, 1nat,
    {
        let tag = self.type_.as_str();
        proof {
            if self.content is Some {
                assert(decreases_to!(self => self.content));
                assert(decreases_to!(self.content => self.content->0));
                assert(kids_markdown(self@) == children_markdown(
                    children_views(self.content->0@),
                ));
            } else {
                assert(kids_markdown(self@) =~= Seq::<Seq<char>>::empty());
            }
        }
        let ghost kids = kids_markdown(self@);
        if str_eq(tag, "codeBlock") {
            write_code_block(self, writer);
        } else if str_eq(tag, "blockquote") {
            if let Some(items) = &self.content {
                write_quoted(items, writer);
            } else {
                assert(writer@ =~= old(writer)@ + quoted_all(kids, 0));
            }
        } else if str_eq(tag, "heading") {
            write_heading_prefix(&self.attrs, writer);
            if let Some(items) = &self.content {
                write_prefixed(items, None, writer);
            } else {
                assert(writer@ =~= old(writer)@ + heading_prefix(self@.attrs) + concat(kids));
            }
            writer.append("\n");
            assert(writer@ =~= old(writer)@ + (heading_prefix(self@.attrs) + concat(kids) + "\n"@));
        } else if str_eq(tag, "orderedList") {
            if let Some(items) = &self.content {
                write_numbered(items, writer);
            } else {
                assert(writer@ =~= old(writer)@ + numbered(kids, 0));
            }
        } else if str_eq(tag, "bulletList") {
            if let Some(items) = &self.content {
                write_prefixed(items, Some("* "), writer);
            } else {
                assert(writer@ =~= old(writer)@ + prefixed(kids, "* "@, 0));
            }
        } else if str_eq(tag, "table") {
            if let Some(rows) = &self.content {
                write_table(rows, writer);
                assert(first_row_widths(self@) == header_widths(children_views(rows@)));
            } else {
                assert(writer@ =~= old(writer)@ + table_rows(kids, first_row_widths(self@), 0));
            }
        } else if str_eq(tag, "tableRow") {
            if let Some(cells) = &self.content {
                writer.append("| ");
                write_joined(cells, writer);
                writer.append(" |\n");
                assert(writer@ =~= old(writer)@ + ("| "@ + joined(kids, " | "@, kids.len()) + " |\n"@));
            } else {
                assert(writer@ =~= old(writer)@ + Seq::<char>::empty());
            }
        } else if str_eq(tag, "rule") {
            writer.append("\n---\n\n");
        } else if str_eq(tag, "hardBreak") {
            writer.append("\n");
        } else {
            self.standard_to_markdown(writer);
        }
    }

    /// Writes the node by the default rule: the annotations' opening delimiters, the
    /// text, the children, the closing delimiters, and a line break unless the tag
    /// is inline.
    pub fn standard_to_markdown(&self, writer: &mut String)
        ensures
            final(writer)@ == old(writer)@ + standard(self@, kids_markdown(self@)),
        decreases self, 0nat,
    {
        let ghost kids = kids_markdown(self@);
        let ghost mut text_part = Seq::<char>::empty();
        self.marks_start(writer);
        if let Some(text) = &self.text {
            writer.append(text.as_str());
            proof {
                text_part = text@;
            }
        }
        if let Some(items) = &self.content {
            proof {
                assert(decreases_to!(self => self.content));
                assert(decreases_to!(self.content => self.content->0));
            }
            write_prefixed(items, None, writer);
        } else {
            assert(concat(kids) =~= Seq::<char>::empty());
        }
        assert(writer@ =~= old(writer)@ + opening(self@.marks) + text_part + concat(kids));
        self.marks_end(writer);
        if !self.inline() {
            writer.append("\n");
        }
        assert(writer@ =~= old(writer)@ + (opening(self@.marks) + text_part + concat(kids)
            + closing(self@.marks) + line_break(self@.type_)));
    }
}

impl AtlassianDoc {
    /// The document as Markdown: its blocks rendered one after the other.
    pub fn to_markdown(&self) -> (res: String)
        ensures
            res@ == doc_markdown(self@),
    {
        let mut out = String::new();
        write_prefixed(&self.content, None, &mut out);
        assert(out@ =~= doc_markdown(self@));
        out
    }
}

} // verus!
