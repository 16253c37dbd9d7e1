use jirascope::jira::{AtlassianDoc, Content, Mark, MarkAttrs};
use markdown::mdast;

fn node(type_: &str, content: Option<Vec<Content>>) -> Content {
    Content {
        type_: type_.to_string(),
        content,
        text: None,
        marks: None,
        attrs: None,
    }
}

fn marked(text: &str, marks: &[&str]) -> Content {
    Content {
        type_: "text".to_string(),
        content: None,
        text: Some(text.to_string()),
        marks: Some(
            marks
                .iter()
                .map(|m| Mark {
                    type_: m.to_string(),
                    attrs: None,
                })
                .collect(),
        ),
        attrs: None,
    }
}

fn wrapper(mark: &str, children: Vec<Content>) -> Content {
    Content {
        type_: "text".to_string(),
        content: Some(children),
        text: None,
        marks: Some(vec![Mark {
            type_: mark.to_string(),
            attrs: None,
        }]),
        attrs: None,
    }
}

fn render(content: Content) -> String {
    let mut out = String::new();
    content.to_markdown(&mut out);
    out
}

fn md_text(value: &str) -> mdast::Node {
    mdast::Node::Text(mdast::Text {
        value: value.to_string(),
        position: None,
    })
}

#[test]
fn document_text_is_one_plain_paragraph() {
    let doc = AtlassianDoc::text("plain");
    assert_eq!(
        doc,
        AtlassianDoc {
            version: 1,
            type_: "doc".to_string(),
            content: vec![Content::paragraph("plain")],
        }
    );
    assert_eq!(doc.to_markdown(), "plain\n");
}

#[test]
fn flatten_of_flat_tree_returns_it() {
    let tree = node(
        "paragraph",
        Some(vec![marked("a", &["strong"]), Content::text("b")]),
    );
    let expected = tree.clone();
    assert_eq!(tree.flatten(), vec![expected]);
}

#[test]
fn flatten_twice_is_flatten_once() {
    let tree = node(
        "paragraph",
        Some(vec![wrapper(
            "em",
            vec![
                wrapper("strong", vec![Content::text("Hello")]),
                Content::text(", "),
            ],
        )]),
    );
    let once = tree.flatten();
    let mut twice = Vec::new();
    for item in once.clone() {
        twice.extend(item.flatten());
    }
    assert_eq!(once, twice);
}

#[test]
fn flatten_puts_inner_marks_first() {
    let tree = wrapper(
        "em",
        vec![
            wrapper("strong", vec![Content::text("Hello")]),
            Content::text(", "),
            wrapper("strike", vec![Content::text("world!")]),
        ],
    );
    assert_eq!(
        tree.flatten(),
        vec![
            marked("Hello", &["strong", "em"]),
            marked(", ", &["em"]),
            marked("world!", &["strike", "em"]),
        ]
    );
}

#[test]
fn flatten_appends_to_marks_of_a_leaf() {
    let tree = wrapper("strong", vec![marked("x", &["code"])]);
    assert_eq!(tree.flatten(), vec![marked("x", &["code", "strong"])]);
}

#[test]
fn flatten_wrapper_without_children_vanishes() {
    let tree = wrapper("strong", vec![]);
    assert_eq!(tree.flatten(), Vec::<Content>::new());
}

#[test]
fn flatten_descends_into_blocks() {
    let tree = node(
        "blockquote",
        Some(vec![node(
            "paragraph",
            Some(vec![wrapper("em", vec![Content::text("q")])]),
        )]),
    );
    assert_eq!(
        tree.flatten(),
        vec![node(
            "blockquote",
            Some(vec![node("paragraph", Some(vec![marked("q", &["em"])]))]),
        )]
    );
}

#[test]
fn flatten_wrapper_without_marks_passes_leaves_on() {
    let tree = Content {
        type_: "text".to_string(),
        content: Some(vec![Content::text("a"), marked("b", &["em"])]),
        text: None,
        marks: None,
        attrs: None,
    };
    assert_eq!(
        tree.flatten(),
        vec![Content::text("a"), marked("b", &["em"])]
    );
}

#[test]
fn inline_and_should_flatten_by_tag() {
    for tag in [
        "text",
        "code",
        "inlineCard",
        "mention",
        "emoji",
        "listItem",
        "tableCell",
        "tableRow",
        "table",
    ] {
        assert!(node(tag, None).inline());
    }
    for tag in ["paragraph", "heading", "blockquote", "rule", "Text", ""] {
        assert!(!node(tag, None).inline());
    }
    for tag in ["text", "code", "inlineCard", "mention", "emoji"] {
        assert!(node(tag, Some(vec![])).should_flatten());
        assert!(!node(tag, None).should_flatten());
    }
    for tag in ["listItem", "tableCell", "paragraph"] {
        assert!(!node(tag, Some(vec![])).should_flatten());
    }
}

#[test]
fn two_marks_close_in_reverse_order() {
    assert_eq!(render(marked("x", &["strong", "code"])), "**`x`**");
    assert_eq!(render(marked("x", &["code", "strike"])), "`~~x~~`");
}

#[test]
fn unknown_mark_writes_nothing() {
    assert_eq!(render(marked("x", &["underline"])), "x");
}

#[test]
fn link_without_attrs_or_href() {
    let mut leaf = marked("x", &["link"]);
    assert_eq!(render(leaf.clone()), "[x]()");
    leaf.marks = Some(vec![Mark {
        type_: "link".to_string(),
        attrs: Some(MarkAttrs {
            href: None,
            title: Some("t".to_string()),
        }),
    }]);
    assert_eq!(render(leaf), "[x]( \"t\")");
}

#[test]
fn code_block_without_language() {
    let block = Content {
        type_: "codeBlock".to_string(),
        content: None,
        text: Some("let x = 1;".to_string()),
        marks: None,
        attrs: None,
    };
    assert_eq!(render(block), "```\nlet x = 1;\n```\n");
}

#[test]
fn code_block_without_text() {
    let block = Content {
        type_: "codeBlock".to_string(),
        content: None,
        text: None,
        marks: None,
        attrs: Some(vec![("language".to_string(), "c".to_string())]),
    };
    assert_eq!(render(block), "```c\n```\n");
}

#[test]
fn heading_without_usable_level_has_no_prefix() {
    let mut heading = node("heading", Some(vec![Content::text("T")]));
    assert_eq!(render(heading.clone()), "T\n");
    heading.attrs = Some(vec![("level".to_string(), "7".to_string())]);
    assert_eq!(render(heading.clone()), "T\n");
    heading.attrs = Some(vec![("level".to_string(), "two".to_string())]);
    assert_eq!(render(heading.clone()), "T\n");
    heading.attrs = Some(vec![
        ("id".to_string(), "1".to_string()),
        ("level".to_string(), "3".to_string()),
    ]);
    assert_eq!(render(heading), "### T\n");
}

#[test]
fn heading_each_level() {
    let expected = ["# T\n", "## T\n", "### T\n", "#### T\n", "##### T\n", "###### T\n"];
    for level in 1..=6usize {
        let mut heading = node("heading", Some(vec![Content::text("T")]));
        heading.attrs = Some(vec![("level".to_string(), level.to_string())]);
        assert_eq!(render(heading), expected[level - 1]);
    }
}

#[test]
fn ordered_list_counts_past_nine() {
    let items = (0..11)
        .map(|_| node("listItem", Some(vec![Content::paragraph("i")])))
        .collect();
    let list = node("orderedList", Some(items));
    assert_eq!(
        render(list),
        "1. i\n2. i\n3. i\n4. i\n5. i\n6. i\n7. i\n8. i\n9. i\n10. i\n11. i\n"
    );
}

#[test]
fn containers_without_children_render_nothing() {
    for tag in ["blockquote", "orderedList", "bulletList", "table", "tableRow"] {
        assert_eq!(render(node(tag, None)), "");
    }
    for tag in ["blockquote", "orderedList", "bulletList", "table"] {
        assert_eq!(render(node(tag, Some(vec![]))), "");
    }
    assert_eq!(render(node("tableRow", Some(vec![]))), "|  |\n");
    assert_eq!(render(node("heading", None)), "\n");
    assert_eq!(render(node("paragraph", None)), "\n");
}

#[test]
fn rule_and_hard_break() {
    assert_eq!(render(node("rule", None)), "\n---\n\n");
    assert_eq!(render(node("hardBreak", None)), "\n");
}

#[test]
fn table_separator_follows_header_widths() {
    let cell = |t: &str| node("tableCell", Some(vec![Content::text(t)]));
    let table = node(
        "table",
        Some(vec![
            node("tableRow", Some(vec![cell("Name"), cell(""), cell("é")])),
            node("tableRow", Some(vec![cell("a"), cell("b"), cell("c")])),
        ]),
    );
    assert_eq!(
        render(table),
        "| Name |  | é |\n|------|--|----|\n| a | b | c |\n"
    );
}

#[test]
fn table_with_header_only_and_row_without_cells() {
    let header = node("tableRow", None);
    let table = node("table", Some(vec![header]));
    assert_eq!(render(table), "|\n");
}

#[test]
fn same_as_tells_trees_apart() {
    let a = node("paragraph", Some(vec![marked("x", &["em"])]));
    let b = node("paragraph", Some(vec![marked("x", &["strong"])]));
    assert!(a.same_as(&a.clone()));
    assert!(!a.same_as(&b));
    assert!(!a.same_as(&node("paragraph", None)));
    let doc = AtlassianDoc::text("t");
    assert!(doc.same_as(&doc.clone()));
    assert!(!doc.same_as(&AtlassianDoc::text("u")));
}

#[test]
fn node_text_maps_to_leaf() {
    assert_eq!(
        Content::from_markdown_node(md_text("hi")),
        Content::text("hi")
    );
}

#[test]
fn node_break_maps_to_hard_break() {
    let node_ = mdast::Node::Break(mdast::Break { position: None });
    assert_eq!(Content::from_markdown_node(node_), node("hardBreak", None));
}

#[test]
fn node_thematic_break_maps_to_rule() {
    let node_ = mdast::Node::ThematicBreak(mdast::ThematicBreak { position: None });
    assert_eq!(Content::from_markdown_node(node_), node("rule", None));
}

#[test]
fn node_without_counterpart_maps_to_sentinel() {
    let html = mdast::Node::Html(mdast::Html {
        value: "<b>".to_string(),
        position: None,
    });
    assert_eq!(
        Content::from_markdown_node(html),
        Content::text("-!- unimplemented markdown node -!-")
    );
    let root = mdast::Node::Root(mdast::Root {
        children: vec![md_text("x")],
        position: None,
    });
    assert_eq!(
        Content::from_markdown_node(root),
        Content::text("-!- unimplemented markdown node -!-")
    );
}

#[test]
fn node_heading_carries_level() {
    for depth in 1..=6u8 {
        let heading = mdast::Node::Heading(mdast::Heading {
            children: vec![md_text("T")],
            position: None,
            depth,
        });
        let mut expected = node("heading", Some(vec![Content::text("T")]));
        expected.attrs = Some(vec![("level".to_string(), depth.to_string())]);
        assert_eq!(Content::from_markdown_node(heading), expected);
    }
}

#[test]
fn node_code_with_and_without_language() {
    let code = |lang: Option<&str>| {
        mdast::Node::Code(mdast::Code {
            value: "x".to_string(),
            position: None,
            lang: lang.map(|l| l.to_string()),
            meta: None,
        })
    };
    let mut expected = Content {
        type_: "codeBlock".to_string(),
        content: None,
        text: Some("x".to_string()),
        marks: None,
        attrs: None,
    };
    assert_eq!(Content::from_markdown_node(code(None)), expected);
    expected.attrs = Some(vec![("language".to_string(), "rust".to_string())]);
    assert_eq!(Content::from_markdown_node(code(Some("rust"))), expected);
}

#[test]
fn node_lists_by_order() {
    let list = |ordered: bool| {
        mdast::Node::List(mdast::List {
            children: vec![mdast::Node::ListItem(mdast::ListItem {
                children: vec![],
                position: None,
                spread: false,
                checked: None,
            })],
            position: None,
            ordered,
            start: None,
            spread: false,
        })
    };
    assert_eq!(
        Content::from_markdown_node(list(true)),
        node("orderedList", Some(vec![node("listItem", Some(vec![]))]))
    );
    assert_eq!(
        Content::from_markdown_node(list(false)),
        node("bulletList", Some(vec![node("listItem", Some(vec![]))]))
    );
}

#[test]
fn node_spans_map_to_nested_wrappers() {
    let strong = mdast::Node::Strong(mdast::Strong {
        children: vec![md_text("b")],
        position: None,
    });
    let emphasis = mdast::Node::Emphasis(mdast::Emphasis {
        children: vec![strong, md_text("i")],
        position: None,
    });
    assert_eq!(
        Content::from_markdown_node(emphasis),
        wrapper(
            "em",
            vec![wrapper("strong", vec![Content::text("b")]), Content::text("i")]
        )
    );
    let delete = mdast::Node::Delete(mdast::Delete {
        children: vec![],
        position: None,
    });
    assert_eq!(Content::from_markdown_node(delete), wrapper("strike", vec![]));
}

#[test]
fn node_inline_code_is_a_marked_leaf() {
    let code = mdast::Node::InlineCode(mdast::InlineCode {
        value: "x".to_string(),
        position: None,
    });
    assert_eq!(Content::from_markdown_node(code), marked("x", &["code"]));
}

#[test]
fn node_link_keeps_url_and_title() {
    let link = mdast::Node::Link(mdast::Link {
        children: vec![md_text("t")],
        position: None,
        url: "u".to_string(),
        title: Some("n".to_string()),
    });
    let mut expected = wrapper("link", vec![Content::text("t")]);
    expected.marks = Some(vec![Mark {
        type_: "link".to_string(),
        attrs: Some(MarkAttrs {
            href: Some("u".to_string()),
            title: Some("n".to_string()),
        }),
    }]);
    assert_eq!(Content::from_markdown_node(link), expected);
}

#[test]
fn from_mdast_flattens_children_of_root() {
    let root = mdast::Node::Root(mdast::Root {
        children: vec![mdast::Node::Paragraph(mdast::Paragraph {
            children: vec![mdast::Node::Strong(mdast::Strong {
                children: vec![md_text("b")],
                position: None,
            })],
            position: None,
        })],
        position: None,
    });
    assert_eq!(
        AtlassianDoc::from_mdast(&root),
        AtlassianDoc {
            version: 1,
            type_: "doc".to_string(),
            content: vec![node("paragraph", Some(vec![marked("b", &["strong"])]))],
        }
    );
    assert_eq!(
        AtlassianDoc::from_mdast(&md_text("x")),
        AtlassianDoc {
            version: 1,
            type_: "doc".to_string(),
            content: vec![],
        }
    );
}

#[test]
fn from_markdown_hard_break() {
    let doc = AtlassianDoc::from_markdown("a\\\nb");
    assert_eq!(
        doc.content,
        vec![node(
            "paragraph",
            Some(vec![
                Content::text("a"),
                node("hardBreak", None),
                Content::text("b"),
            ]),
        )]
    );
}

#[test]
fn from_markdown_image_degrades_to_sentinel() {
    let doc = AtlassianDoc::from_markdown("![alt](pic.png)");
    assert_eq!(
        doc.content,
        vec![node(
            "paragraph",
            Some(vec![Content::text("-!- unimplemented markdown node -!-")]),
        )]
    );
}

#[test]
fn simple_paragraph_round_trip() {
    let doc = AtlassianDoc::from_markdown("Hello, world!\n");
    assert_eq!(doc.to_markdown(), "Hello, world!\n");
}

#[test]
fn single_annotations_round_trip() {
    for text in [
        "**Hello, world!**",
        "*Hello, world!*",
        "~~Hello, world!~~",
        "`Hello, world!`",
        "[text](url)",
        "[text](url \"title\")",
    ] {
        let doc = AtlassianDoc::from_markdown(text);
        assert_eq!(doc.to_markdown(), format!("{}\n", text));
    }
}

#[test]
fn blockquote_prefixes_every_line() {
    let broken = node(
        "paragraph",
        Some(vec![
            Content::text("a"),
            node("hardBreak", None),
            Content::text("b"),
        ]),
    );
    assert_eq!(render(node("blockquote", Some(vec![broken]))), "> a\n> b\n");
    assert_eq!(
        render(node("blockquote", Some(vec![node("rule", None)]))),
        "> \n> ---\n> \n"
    );
    assert_eq!(
        render(node("blockquote", Some(vec![Content::text("x")]))),
        "> x"
    );
    assert_eq!(
        render(node("blockquote", Some(vec![node("paragraph", None)]))),
        "> \n"
    );
    let empty = Content {
        type_: "text".to_string(),
        content: None,
        text: None,
        marks: None,
        attrs: None,
    };
    assert_eq!(render(node("blockquote", Some(vec![empty]))), "> ");
    let inner = node("blockquote", Some(vec![Content::paragraph("a")]));
    assert_eq!(render(node("blockquote", Some(vec![inner]))), "> > a\n");
    let list = node(
        "bulletList",
        Some(vec![
            node("listItem", Some(vec![Content::paragraph("é")])),
            node("listItem", Some(vec![Content::paragraph("b")])),
        ]),
    );
    assert_eq!(
        render(node("blockquote", Some(vec![list]))),
        "> * é\n> * b\n"
    );
}

#[test]
fn blockquote_round_trip_with_two_lines() {
    let doc = AtlassianDoc::from_markdown("> a\\\n> b\n");
    assert_eq!(doc.to_markdown(), "> a\n> b\n");
}
