//! Flattening: nested style wrappers become flat runs of annotated leaves.

use crate::jira::doc::{
    children_views, clone_marks, is_leaf_tag, is_wrapper, marks_view, well_formed, Content,
    ContentView, Mark, MarkView,
};
use vstd::prelude::*;

verus! {

/// A leaf after a wrapper around it has been removed: the wrapper's annotations
/// stand behind the leaf's own.
pub open spec fn with_marks(leaf: ContentView, marks: Seq<MarkView>) -> ContentView {
    ContentView {
        marks: Some(
            match leaf.marks {
                Some(own) => own + marks,
                None => marks,
            },
        ),
        ..leaf
    }
}

/// The nodes that take a node's place once no style wrapper is left in it.
///
/// A wrapper gives way to the flattened nodes of its children, each with the
/// wrapper's annotations added. Any other node stays, with its children flattened.
pub open spec fn flattened(c: ContentView) -> Seq<ContentView>
    decreases c, 0nat,
{
    match c.content {
        Some(items) => {
            let inner = flattened_all(items, items.len());
            if is_leaf_tag(c.type_) {
                match c.marks {
                    Some(m) => Seq::new(inner.len(), |k: int| with_marks(inner[k], m)),
                    None => inner,
                }
            } else {
                seq![ContentView { content: Some(inner), ..c }]
            }
        },
        None => seq![c],
    }
}

/// The flattened nodes of the first `n` items, in order.
pub open spec fn flattened_all(items: Seq<ContentView>, n: nat) -> Seq<ContentView>
    decreases items, n,
{
    if n == 0 || n > items.len() {
        Seq::empty()
    } else {
        flattened_all(items, (n - 1) as nat) + flattened(items[n - 1])
    }
}

/// No style wrapper stands anywhere in the tree.
pub open spec fn is_flat(c: ContentView) -> bool
    decreases c,
{
    &&& !is_wrapper(c)
    &&& match c.content {
        Some(items) => forall|i: int| 0 <= i < items.len() ==> is_flat(#[trigger] items[i]),
        None => true,
    }
}

/// The items of a vector in opposite order.
fn reversed<T>(v: Vec<T>) -> (res: Vec<T>)
    ensures
        res@ == v@.reverse(),
{
    let mut v = v;
    let ghost given = v@;
    let mut res: Vec<T> = Vec::new();
    while v.len() > 0
        invariant
            v@.len() + res@.len() == given.len(),
            v@ == given.take(v@.len() as int),
            forall|k: int| 0 <= k < res@.len() ==> res@[k] == given[given.len() - 1 - k],
        decreases v.len(),
    {
        let item = v.pop().unwrap();
        res.push(item);
    }
    assert(res@ =~= given.reverse());
    res
}

fn add_marks(leaf: Content, marks: &Vec<Mark>) -> (res: Content)
    ensures
        res@ == with_marks(leaf@, marks_view(marks@)),
{
    let Content { type_, content, text, marks: own, attrs } = leaf;
    let merged = match own {
        Some(own) => {
            let mut own = own;
            let ghost before = own@;
            let mut i: usize = 0;
            while i < marks.len()
                invariant
                    0 <= i <= marks.len(),
                    own@.len() == before.len() + i,
                    forall|k: int| 0 <= k < before.len() ==> own@[k] == before[k],
                    forall|k: int| 0 <= k < i ==> own@[before.len() + k]@ == marks@[k]@,
                decreases marks.len() - i,
            {
                own.push(marks[i].clone());
                i += 1;
            }
            assert(marks_view(own@) =~= marks_view(before) + marks_view(marks@));
            own
        },
        None => clone_marks(marks),
    };
    Content { type_, content, text, marks: Some(merged), attrs }
}

fn add_marks_to_all(leaves: Vec<Content>, marks: &Vec<Mark>) -> (res: Vec<Content>)
    ensures
        children_views(res@) == Seq::new(
            leaves@.len(),
            |k: int| with_marks(children_views(leaves@)[k], marks_view(marks@)),
        ),
{
    let ghost given = leaves@;
    let n = leaves.len();
    let mut stack = reversed(leaves);
    let mut res: Vec<Content> = Vec::new();
    while stack.len() > 0
        invariant
            stack@.len() + res@.len() == n,
            n == given.len(),
            forall|k: int| 0 <= k < stack@.len() ==> stack@[k] == given[n - 1 - k],
            forall|k: int|
                0 <= k < res@.len() ==> res@[k]@ == with_marks(
                    given[k]@,
                    marks_view(marks@),
                ),
        decreases stack.len(),
    {
        let leaf = stack.pop().unwrap();
        res.push(add_marks(leaf, marks));
    }
    assert(children_views(res@) =~= Seq::new(
        given.len(),
        |k: int| with_marks(children_views(given)[k], marks_view(marks@)),
    ));
    res
}

/// Flattens each node of a run and gathers what comes of it, in order.
pub fn flatten_all(items: Vec<Content>) -> (res: Vec<Content>)
    ensures
        children_views(res@) == flattened_all(children_views(items@), items@.len()),
    decreases items, 0nat,
{
    let ghost given = items@;
    let ghost views = children_views(items@);
    let n = items.len();
    let mut stack = reversed(items);
    let mut res: Vec<Content> = Vec::new();
    assert(children_views(res@) =~= flattened_all(views, 0));
    while stack.len() > 0
        invariant
            stack@.len() <= n,
            n == given.len(),
            given == items@,
            views == children_views(given),
            forall|k: int| 0 <= k < stack@.len() ==> stack@[k] == given[n - 1 - k],
            children_views(res@) == flattened_all(views, (n - stack@.len()) as nat),
        decreases stack.len(),
    {
        let ghost done = n - stack@.len();
        let ghost gathered = res@;
        let child = stack.pop().unwrap();
        proof {
            assert(child == given[done]);
            assert(decreases_to!(items => items[done]));
        }
        let mut leaves = child.flatten();
        let ghost added = leaves@;
        res.append(&mut leaves);
        proof {
            assert(res@ == gathered + added);
            assert(children_views(res@) =~= children_views(gathered) + children_views(added));
            assert(views[done] == child@);
        }
    }
    res
}

impl Content {
    /// Replaces every style wrapper in the tree by its annotated descendants.
    ///
    /// The result holds the wrapper's leaves where the node itself is a wrapper,
    /// and the node alone, with flattened children, where it is not.
    pub fn flatten(self) -> (res: Vec<Content>)
        ensures
            children_views(res@) == flattened(self@),
        decreases self, 1nat,
    {
        let ghost view = self@;
        let wrapper = self.should_flatten();
        let ghost whole = self;
        let Content { type_, content, text, marks, attrs } = self;
        match content {
            Some(items) => {
                proof {
                    assert(decreases_to!(whole => whole.content));
                    assert(decreases_to!(whole.content => whole.content->0));
                }
                let inner = flatten_all(items);
                if wrapper {
                    match marks {
                        Some(m) => add_marks_to_all(inner, &m),
                        None => inner,
                    }
                } else {
                    let node = Content { type_, content: Some(inner), text, marks, attrs };
                    let res = vec![node];
                    proof {
                        assert(children_views(res@) =~= flattened(view));
                    }
                    res
                }
            },
            None => {
                let node = Content { type_, content: None, text, marks, attrs };
                let res = vec![node];
                proof {
                    assert(node@ == view);
                    assert(children_views(res@) =~= flattened(view));
                }
                res
            },
        }
    }
}

/// Flattening an item list whose items are all flat gives the list back.
pub proof fn lemma_flat_items_stay(items: Seq<ContentView>, n: nat)
    requires
        n <= items.len(),
        forall|i: int| 0 <= i < items.len() ==> is_flat(#[trigger] items[i]),
    ensures
        flattened_all(items, n) == items.take(n as int),
    decreases items, n,
{
    if n == 0 {
        assert(flattened_all(items, n) =~= items.take(0));
    } else {
        lemma_flat_items_stay(items, (n - 1) as nat);
        lemma_flat_stays(items[n - 1]);
        assert(flattened_all(items, n) =~= items.take(n as int));
    }
}

/// Flattening a tree that holds no style wrapper returns the tree unchanged.
pub proof fn lemma_flat_stays(c: ContentView)
    requires
        is_flat(c),
    ensures
        flattened(c) == seq![c],
    decreases c, 0nat,
{
    match c.content {
        Some(items) => {
            lemma_flat_items_stay(items, items.len());
            assert(items.take(items.len() as int) =~= items);
        },
        None => {},
    }
}

/// Adding annotations to a flat node leaves it flat.
pub proof fn lemma_with_marks_flat(leaf: ContentView, marks: Seq<MarkView>)
    requires
        is_flat(leaf),
    ensures
        is_flat(with_marks(leaf, marks)),
{
    let marked = with_marks(leaf, marks);
    assert(marked.content == leaf.content);
    assert(marked.type_ == leaf.type_);
}

/// Whatever the tree, no style wrapper is left in what flattening returns.
pub proof fn lemma_flattened_is_flat(c: ContentView)
    ensures
        forall|k: int| 0 <= k < flattened(c).len() ==> is_flat(#[trigger] flattened(c)[k]),
    decreases c, 0nat,
{
    match c.content {
        Some(items) => {
            lemma_flattened_items_are_flat(items, items.len());
            let inner = flattened_all(items, items.len());
            if is_leaf_tag(c.type_) {
                match c.marks {
                    Some(m) => {
                        assert forall|k: int| 0 <= k < flattened(c).len() implies is_flat(
                            #[trigger] flattened(c)[k],
                        ) by {
                            lemma_with_marks_flat(inner[k], m);
                        }
                    },
                    None => {},
                }
            } else {
                let node = ContentView { content: Some(inner), ..c };
                assert(is_flat(node));
                assert(flattened(c) =~= seq![node]);
            }
        },
        None => {
            assert(is_flat(c));
        },
    }
}

/// Whatever the items, no style wrapper is left in what flattening the list returns.
pub proof fn lemma_flattened_items_are_flat(items: Seq<ContentView>, n: nat)
    ensures
        forall|k: int|
            0 <= k < flattened_all(items, n).len() ==> is_flat(
                #[trigger] flattened_all(items, n)[k],
            ),
    decreases items, n,
{
    if n == 0 || n > items.len() {
    } else {
        lemma_flattened_items_are_flat(items, (n - 1) as nat);
        lemma_flattened_is_flat(items[n - 1]);
        let front = flattened_all(items, (n - 1) as nat);
        let back = flattened(items[n - 1]);
        assert forall|k: int| 0 <= k < flattened_all(items, n).len() implies is_flat(
            #[trigger] flattened_all(items, n)[k],
        ) by {
            if k < front.len() {
                assert(flattened_all(items, n)[k] == front[k]);
            } else {
                assert(flattened_all(items, n)[k] == back[k - front.len()]);
            }
        }
    }
}

/// A well-formed tree holds no style wrapper.
pub proof fn lemma_well_formed_is_flat(c: ContentView)
    requires
        well_formed(c),
    ensures
        is_flat(c),
    decreases c,
{
    reveal_strlit("text");
    reveal_strlit("code");
    reveal_strlit("inlineCard");
    reveal_strlit("mention");
    reveal_strlit("emoji");
    reveal_strlit("codeBlock");
    reveal_strlit("rule");
    reveal_strlit("hardBreak");
    reveal_strlit("paragraph");
    reveal_strlit("blockquote");
    reveal_strlit("heading");
    reveal_strlit("orderedList");
    reveal_strlit("bulletList");
    reveal_strlit("listItem");
    reveal_strlit("table");
    reveal_strlit("tableRow");
    reveal_strlit("tableCell");
    assert("text"@.len() == 4 && "code"@.len() == 4 && "inlineCard"@.len() == 10);
    assert("mention"@.len() == 7 && "emoji"@.len() == 5 && "paragraph"@.len() == 9);
    assert("blockquote"@.len() == 10 && "heading"@.len() == 7 && "orderedList"@.len() == 11);
    assert("bulletList"@.len() == 10 && "listItem"@.len() == 8 && "table"@.len() == 5);
    assert("tableRow"@.len() == 8 && "tableCell"@.len() == 9);
    assert("inlineCard"@[0] != "blockquote"@[0] && "inlineCard"@[0] != "bulletList"@[0]);
    assert("mention"@[0] != "heading"@[0]);
    assert("emoji"@[0] != "table"@[0]);
    match c.content {
        Some(items) => {
            assert(!is_leaf_tag(c.type_));
            assert forall|i: int| 0 <= i < items.len() implies is_flat(#[trigger] items[i]) by {
                lemma_well_formed_is_flat(items[i]);
            }
        },
        None => {},
    }
}

/// Flattening a well-formed tree returns it unchanged.
pub proof fn lemma_well_formed_stays(c: ContentView)
    requires
        well_formed(c),
    ensures
        flattened(c) == seq![c],
{
    lemma_well_formed_is_flat(c);
    lemma_flat_stays(c);
}

/// Flattening is idempotent: flattening what a first pass returned changes nothing.
pub proof fn lemma_flatten_idempotent(c: ContentView)
    ensures
        flattened_all(flattened(c), flattened(c).len()) == flattened(c),
{
    let once = flattened(c);
    lemma_flattened_is_flat(c);
    lemma_flat_items_stay(once, once.len());
    assert(once.take(once.len() as int) =~= once);
}

} // verus!
