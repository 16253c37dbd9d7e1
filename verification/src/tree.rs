//! The tree of projects, issues and subtasks, line by line.

use crate::jira::issue::{Issue, IssueView};
use crate::jira::project::{ProjectDetailed, ProjectDetailedView};
use crate::state::{get_icon, issues_view, projects_view, State};
use crate::text::str_eq;
use vstd::prelude::*;
use vstd::string::*;

verus! {

/// What a line of the tree links to.
#[derive(Debug, Clone, Copy, PartialEq, Eq, Structural)]
pub enum ButtonKind {
    Project,
    Issue,
}

/// One line of the tree of projects and issues: the text before the button,
/// the button's label, and the text behind the button.
#[derive(Debug, PartialEq, Eq)]
pub struct TreeLine {
    pub lead: String,
    pub key: String,
    pub button: ButtonKind,
    pub tail: String,
}

/// What a `TreeLine` holds.
pub struct TreeLineView {
    pub lead: Seq<char>,
    pub key: Seq<char>,
    pub button: ButtonKind,
    pub tail: Seq<char>,
}

impl View for TreeLine {
    type V = TreeLineView;

    open spec fn view(&self) -> TreeLineView {
        TreeLineView { lead: self.lead@, key: self.key@, button: self.button, tail: self.tail@ }
    }
}

/// The views of a list of lines.
pub open spec fn lines_view(lines: Seq<TreeLine>) -> Seq<TreeLineView> {
    Seq::new(lines.len(), |i: int| lines[i]@)
}

/// Whether the issue belongs to the project and is a subtask, or is none, as asked.
pub open spec fn in_project(issue: IssueView, project_key: Seq<char>, subtask: bool) -> bool {
    issue.fields.project.key == project_key && (issue.fields.parent is Some) == subtask
}

/// A list of positions, ordered by the identifiers of the issues there, with
/// the position `p` added behind every position whose issue's identifier is
/// not greater.
pub open spec fn insert_by_id(sorted: Seq<int>, issues: Seq<IssueView>, p: int) -> Seq<int>
    decreases sorted.len(),
{
    if sorted.len() == 0 || issues[sorted.last()].id <= issues[p].id {
        sorted.push(p)
    } else {
        insert_by_id(sorted.drop_last(), issues, p).push(sorted.last())
    }
}

/// The positions, among the first `n`, of the project's issues of the kind
/// asked for, ordered by identifier; equal identifiers keep their order.
pub open spec fn sorted_positions(
    issues: Seq<IssueView>,
    project_key: Seq<char>,
    subtask: bool,
    n: nat,
) -> Seq<int>
    decreases n,
{
    if n == 0 || n > issues.len() {
        Seq::empty()
    } else {
        let earlier = sorted_positions(issues, project_key, subtask, (n - 1) as nat);
        if in_project(issues[n - 1], project_key, subtask) {
            insert_by_id(earlier, issues, n - 1)
        } else {
            earlier
        }
    }
}

/// Those of the first `n` positions in `subs` whose issue has the parent `parent_id`.
pub open spec fn children_of(
    subs: Seq<int>,
    issues: Seq<IssueView>,
    parent_id: i64,
    n: nat,
) -> Seq<int>
    decreases n,
{
    if n == 0 || n > subs.len() {
        Seq::empty()
    } else {
        let earlier = children_of(subs, issues, parent_id, (n - 1) as nat);
        match issues[subs[n - 1]].fields.parent {
            Some(parent) => if parent.id == parent_id {
                earlier.push(subs[n - 1])
            } else {
                earlier
            },
            None => earlier,
        }
    }
}

/// The mark before a line: a corner for the last of `len` lines, a tee for the others.
pub open spec fn icon(i: int, len: int) -> Seq<char> {
    if i + 1 == len {
        "└"@
    } else {
        "├"@
    }
}

/// The line of a project: its key as the button, then its name.
pub open spec fn project_line(project: ProjectDetailedView) -> TreeLineView {
    TreeLineView {
        lead: Seq::empty(),
        key: project.key,
        button: ButtonKind::Project,
        tail: ": "@ + project.name,
    }
}

/// The line of an issue behind `lead`: its key as the button, then its summary and status.
pub open spec fn issue_line(issue: IssueView, lead: Seq<char>) -> TreeLineView {
    TreeLineView {
        lead,
        key: issue.key,
        button: ButtonKind::Issue,
        tail: ": "@ + issue.fields.summary + " - "@ + issue.fields.status.name,
    }
}

/// The lines of the first `n` subtasks of one issue, indented by two spaces.
pub open spec fn subtask_lines(kids: Seq<int>, issues: Seq<IssueView>, n: nat) -> Seq<TreeLineView>
    decreases n,
{
    if n == 0 || n > kids.len() {
        Seq::empty()
    } else {
        subtask_lines(kids, issues, (n - 1) as nat).push(
            issue_line(issues[kids[n - 1]], "  "@ + icon(n - 1, kids.len() as int) + " "@),
        )
    }
}

/// The lines of the first `n` issues of a project, each followed by its subtasks.
pub open spec fn issue_blocks(
    issues: Seq<IssueView>,
    tops: Seq<int>,
    subs: Seq<int>,
    n: nat,
) -> Seq<TreeLineView>
    decreases n,
{
    if n == 0 || n > tops.len() {
        Seq::empty()
    } else {
        let top = issues[tops[n - 1]];
        let kids = children_of(subs, issues, top.id, subs.len());
        issue_blocks(issues, tops, subs, (n - 1) as nat).push(
            issue_line(top, icon(n - 1, tops.len() as int) + " "@),
        ) + subtask_lines(kids, issues, kids.len())
    }
}

/// The lines of one project: the project, then its issues by identifier,
/// each with its subtasks by identifier.
pub open spec fn project_block(
    project: ProjectDetailedView,
    issues: Seq<IssueView>,
) -> Seq<TreeLineView> {
    let tops = sorted_positions(issues, project.key, false, issues.len());
    let subs = sorted_positions(issues, project.key, true, issues.len());
    seq![project_line(project)] + issue_blocks(issues, tops, subs, tops.len())
}

/// The lines of the first `n` projects.
pub open spec fn tree(
    projects: Seq<ProjectDetailedView>,
    issues: Seq<IssueView>,
    n: nat,
) -> Seq<TreeLineView>
    decreases n,
{
    if n == 0 || n > projects.len() {
        Seq::empty()
    } else {
        tree(projects, issues, (n - 1) as nat) + project_block(projects[n - 1], issues)
    }
}

/// The positions as mathematical integers.
pub open spec fn positions_view(positions: Seq<usize>) -> Seq<int> {
    Seq::new(positions.len(), |i: int| positions[i] as int)
}

/// Adding a position by the rule of `insert_by_id` puts it at index `at`,
/// where every later entry has a greater identifier and the entry before has not.
proof fn lemma_insert_at(sorted: Seq<int>, issues: Seq<IssueView>, p: int, at: int)
    requires
        0 <= at <= sorted.len(),
        forall|k: int| at <= k < sorted.len() ==> issues[#[trigger] sorted[k]].id > issues[p].id,
        at > 0 ==> issues[sorted[at - 1]].id <= issues[p].id,
    ensures
        insert_by_id(sorted, issues, p) == sorted.insert(at, p),
    decreases sorted.len(),
{
    if at == sorted.len() {
        assert(sorted.insert(at, p) =~= sorted.push(p));
    } else {
        let front = sorted.drop_last();
        assert(issues[sorted[sorted.len() - 1]].id > issues[p].id);
        assert forall|k: int| at <= k < front.len() implies issues[#[trigger] front[k]].id
            > issues[p].id by {
            assert(front[k] == sorted[k]);
        }
        lemma_insert_at(front, issues, p, at);
        assert(front.insert(at, p).push(sorted.last()) =~= sorted.insert(at, p));
    }
}

/// The positions of the project's issues of the kind asked for, ordered by identifier.
fn positions_by_id(issues: &Vec<Issue>, project_key: &str, subtask: bool) -> (positions: Vec<usize>)
    ensures
        positions_view(positions@) == sorted_positions(
            issues_view(issues@),
            project_key@,
            subtask,
            issues@.len(),
        ),
        forall|k: int| 0 <= k < positions@.len() ==> positions@[k] < issues@.len(),
{
    let ghost views = issues_view(issues@);
    let mut positions: Vec<usize> = Vec::new();
    let mut i: usize = 0;
    assert(positions_view(positions@) =~= sorted_positions(views, project_key@, subtask, 0));
    while i < issues.len()
        invariant
            0 <= i <= issues.len(),
            views == issues_view(issues@),
            positions_view(positions@) == sorted_positions(views, project_key@, subtask, i as nat),
            forall|k: int| 0 <= k < positions@.len() ==> positions@[k] < i,
        decreases issues.len() - i,
    {
        let issue = &issues[i];
        let matches = str_eq(issue.fields.project.key.as_str(), project_key)
            && issue.fields.parent.is_some() == subtask;
        assert(matches == in_project(views[i as int], project_key@, subtask));
        if matches {
            let ghost before = positions_view(positions@);
            let mut at: usize = positions.len();
            while at > 0 && issues[positions[at - 1]].id > issue.id
                invariant
                    0 <= at <= positions@.len(),
                    i < issues.len(),
                    *issue == issues@[i as int],
                    views == issues_view(issues@),
                    before == positions_view(positions@),
                    forall|k: int| 0 <= k < positions@.len() ==> positions@[k] < i,
                    forall|k: int|
                        at <= k < before.len() ==> views[#[trigger] before[k]].id > views[i as int].id,
                decreases at,
            {
                at -= 1;
            }
            proof {
                lemma_insert_at(before, views, i as int, at as int);
            }
            positions.insert(at, i);
            assert(positions_view(positions@) =~= before.insert(at as int, i as int));
        }
        i += 1;
    }
    positions
}

/// Those positions in `subs` whose issue has the parent `parent_id`.
fn subtasks_of(issues: &Vec<Issue>, subs: &Vec<usize>, parent_id: i64) -> (kids: Vec<usize>)
    requires
        forall|k: int| 0 <= k < subs@.len() ==> subs@[k] < issues@.len(),
    ensures
        positions_view(kids@) == children_of(
            positions_view(subs@),
            issues_view(issues@),
            parent_id,
            subs@.len(),
        ),
        forall|k: int| 0 <= k < kids@.len() ==> kids@[k] < issues@.len(),
{
    let ghost views = issues_view(issues@);
    let ghost all = positions_view(subs@);
    let mut kids: Vec<usize> = Vec::new();
    let mut j: usize = 0;
    assert(positions_view(kids@) =~= children_of(all, views, parent_id, 0));
    while j < subs.len()
        invariant
            0 <= j <= subs.len(),
            views == issues_view(issues@),
            all == positions_view(subs@),
            forall|k: int| 0 <= k < subs@.len() ==> subs@[k] < issues@.len(),
            forall|k: int| 0 <= k < kids@.len() ==> kids@[k] < issues@.len(),
            positions_view(kids@) == children_of(all, views, parent_id, j as nat),
        decreases subs.len() - j,
    {
        let p = subs[j];
        let ghost before = positions_view(kids@);
        let is_child = match &issues[p].fields.parent {
            Some(parent) => parent.id == parent_id,
            None => false,
        };
        if is_child {
            kids.push(p);
            assert(positions_view(kids@) =~= before.push(p as int));
        }
        assert(all[j as int] == p);
        j += 1;
    }
    kids
}

fn line_of_issue(issue: &Issue, indent: &str, i: usize, len: usize) -> (line: TreeLine)
    ensures
        line@ == issue_line(issue@, indent@ + icon(i as int, len as int) + " "@),
{
    let mut lead = indent.to_owned();
    lead.append(get_icon(i, len));
    lead.append(" ");
    let mut tail = ": ".to_owned();
    tail.append(issue.fields.summary.as_str());
    tail.append(" - ");
    tail.append(issue.fields.status.name.as_str());
    TreeLine { lead, key: issue.key.clone(), button: ButtonKind::Issue, tail }
}

fn push_project(lines: &mut Vec<TreeLine>, project: &ProjectDetailed, issues: &Vec<Issue>)
    ensures
        lines_view(final(lines)@) == lines_view(old(lines)@) + project_block(
            project@,
            issues_view(issues@),
        ),
{
    let ghost views = issues_view(issues@);
    let ghost start = lines_view(lines@);
    let mut tail = ": ".to_owned();
    tail.append(project.name.as_str());
    lines.push(
        TreeLine {
            lead: String::new(),
            key: project.key.clone(),
            button: ButtonKind::Project,
            tail,
        },
    );
    let ghost head = lines_view(lines@);
    assert(head =~= start + seq![project_line(project@)]);
    let tops = positions_by_id(issues, project.key.as_str(), false);
    let subs = positions_by_id(issues, project.key.as_str(), true);
    let ghost top_positions = positions_view(tops@);
    let ghost sub_positions = positions_view(subs@);
    let size = tops.len();
    let mut i: usize = 0;
    assert(lines_view(lines@) =~= head + issue_blocks(views, top_positions, sub_positions, 0));
    while i < size
        invariant
            0 <= i <= size,
            size == tops@.len(),
            views == issues_view(issues@),
            top_positions == positions_view(tops@),
            sub_positions == positions_view(subs@),
            forall|k: int| 0 <= k < tops@.len() ==> tops@[k] < issues@.len(),
            forall|k: int| 0 <= k < subs@.len() ==> subs@[k] < issues@.len(),
            lines_view(lines@) == head + issue_blocks(
                views,
                top_positions,
                sub_positions,
                i as nat,
            ),
        decreases size - i,
    {
        let issue = &issues[tops[i]];
        let ghost before = lines_view(lines@);
        lines.push(line_of_issue(issue, "", i, size));
        proof {
            reveal_strlit("");
            assert(""@ + icon(i as int, size as int) + " "@ =~= icon(i as int, size as int) + " "@);
            assert(top_positions[i as int] == tops@[i as int]);
            assert(views[tops@[i as int] as int] == issue@);
        }
        let ghost with_issue = lines_view(lines@);
        assert(with_issue =~= before.push(
            issue_line(issue@, icon(i as int, size as int) + " "@),
        ));
        let kids = subtasks_of(issues, &subs, issue.id);
        let ghost kid_positions = positions_view(kids@);
        let count = kids.len();
        let mut j: usize = 0;
        assert(lines_view(lines@) =~= with_issue + subtask_lines(kid_positions, views, 0));
        while j < count
            invariant
                0 <= j <= count,
                count == kids@.len(),
                views == issues_view(issues@),
                kid_positions == positions_view(kids@),
                forall|k: int| 0 <= k < kids@.len() ==> kids@[k] < issues@.len(),
                lines_view(lines@) == with_issue + subtask_lines(kid_positions, views, j as nat),
            decreases count - j,
        {
            let ghost earlier = lines_view(lines@);
            lines.push(line_of_issue(&issues[kids[j]], "  ", j, count));
            proof {
                assert(kid_positions[j as int] == kids@[j as int]);
                assert(lines_view(lines@) =~= earlier.push(
                    issue_line(
                        views[kid_positions[j as int]],
                        "  "@ + icon(j as int, count as int) + " "@,
                    ),
                ));
            }
            j += 1;
        }
        i += 1;
        assert(lines_view(lines@) =~= head + issue_blocks(
            views,
            top_positions,
            sub_positions,
            i as nat,
        ));
    }
    assert(lines_view(lines@) =~= start + project_block(project@, views));
}

/// The tree of projects and issues as the editor shows it, line by line.
pub fn tree_lines(state: &State) -> (lines: Vec<TreeLine>)
    ensures
        lines_view(lines@) == tree(state@.projects, state@.issues, state@.projects.len()),
{
    let projects = state.projects();
    let issues = state.issues();
    let ghost project_views = projects_view(projects@);
    let ghost issue_views = issues_view(issues@);
    let mut lines: Vec<TreeLine> = Vec::new();
    let mut i: usize = 0;
    assert(lines_view(lines@) =~= tree(project_views, issue_views, 0));
    while i < projects.len()
        invariant
            0 <= i <= projects.len(),
            project_views == projects_view(projects@),
            issue_views == issues_view(issues@),
            lines_view(lines@) == tree(project_views, issue_views, i as nat),
        decreases projects.len() - i,
    {
        push_project(&mut lines, &projects[i], issues);
        i += 1;
    }
    lines
}

/// The issues at the positions have identifiers that never fall from one to the next.
pub open spec fn ordered_by_id(positions: Seq<int>, issues: Seq<IssueView>) -> bool {
    forall|a: int, b: int|
        0 <= a < b < positions.len() ==> issues[#[trigger] positions[a]].id <= issues[
            #[trigger] positions[b]].id
}

/// Adding a position to an ordered list keeps the list ordered, keeps what it
/// held, and adds that position and no other.
pub proof fn lemma_insert_by_id(sorted: Seq<int>, issues: Seq<IssueView>, p: int)
    requires
        ordered_by_id(sorted, issues),
    ensures
        ordered_by_id(insert_by_id(sorted, issues, p), issues),
        insert_by_id(sorted, issues, p).len() == sorted.len() + 1,
        forall|q: int| #[trigger]
            insert_by_id(sorted, issues, p).contains(q) <==> (q == p || sorted.contains(q)),
    decreases sorted.len(),
{
    let result = insert_by_id(sorted, issues, p);
    if sorted.len() == 0 || issues[sorted.last()].id <= issues[p].id {
        assert forall|a: int, b: int| 0 <= a < b < result.len() implies issues[
            #[trigger] result[a]].id <= issues[#[trigger] result[b]].id by {
            if b == sorted.len() {
                assert(result[a] == sorted[a]);
                if a < sorted.len() - 1 {
                    assert(issues[sorted[a]].id <= issues[sorted[sorted.len() - 1]].id);
                }
            } else {
                assert(result[a] == sorted[a] && result[b] == sorted[b]);
            }
        }
        assert forall|q: int| #[trigger] result.contains(q) <==> (q == p || sorted.contains(q)) by {
            if result.contains(q) {
                let k = choose|k: int| 0 <= k < result.len() && result[k] == q;
                if k < sorted.len() {
                    assert(sorted[k] == q);
                }
            }
            if sorted.contains(q) {
                let k = choose|k: int| 0 <= k < sorted.len() && sorted[k] == q;
                assert(result[k] == q);
            }
            if q == p {
                assert(result[sorted.len() as int] == p);
            }
        }
    } else {
        let front = sorted.drop_last();
        let last = sorted.last();
        assert forall|a: int, b: int| 0 <= a < b < front.len() implies issues[
            #[trigger] front[a]].id <= issues[#[trigger] front[b]].id by {
            assert(front[a] == sorted[a] && front[b] == sorted[b]);
        }
        lemma_insert_by_id(front, issues, p);
        let inner = insert_by_id(front, issues, p);
        assert(result == inner.push(last));
        assert forall|a: int, b: int| 0 <= a < b < result.len() implies issues[
            #[trigger] result[a]].id <= issues[#[trigger] result[b]].id by {
            if b == inner.len() {
                assert(result[a] == inner[a]);
                assert(inner.contains(inner[a]));
                if inner[a] != p {
                    assert(front.contains(inner[a]));
                    let k = choose|k: int| 0 <= k < front.len() && front[k] == inner[a];
                    assert(sorted[k] == inner[a]);
                    assert(issues[sorted[k]].id <= issues[sorted[sorted.len() - 1]].id);
                }
            } else {
                assert(result[a] == inner[a] && result[b] == inner[b]);
            }
        }
        assert forall|q: int| #[trigger] result.contains(q) <==> (q == p || sorted.contains(q)) by {
            if result.contains(q) {
                let k = choose|k: int| 0 <= k < result.len() && result[k] == q;
                if k < inner.len() {
                    assert(inner[k] == q);
                    assert(inner.contains(q));
                    if q != p {
                        assert(front.contains(q));
                        let m = choose|m: int| 0 <= m < front.len() && front[m] == q;
                        assert(sorted[m] == q);
                    }
                } else {
                    assert(sorted[sorted.len() - 1] == q);
                }
            }
            if sorted.contains(q) {
                let k = choose|k: int| 0 <= k < sorted.len() && sorted[k] == q;
                if k < front.len() {
                    assert(front[k] == q);
                    assert(front.contains(q));
                    assert(inner.contains(q));
                    let m = choose|m: int| 0 <= m < inner.len() && inner[m] == q;
                    assert(result[m] == q);
                } else {
                    assert(result[inner.len() as int] == q);
                }
            }
            if q == p {
                assert(inner.contains(p));
                let m = choose|m: int| 0 <= m < inner.len() && inner[m] == p;
                assert(result[m] == p);
            }
        }
    }
}

/// The sorted positions are ordered by identifier and are exactly the
/// positions of the project's issues of the kind asked for.
pub proof fn lemma_sorted_positions(
    issues: Seq<IssueView>,
    project_key: Seq<char>,
    subtask: bool,
    n: nat,
)
    requires
        n <= issues.len(),
    ensures
        ordered_by_id(sorted_positions(issues, project_key, subtask, n), issues),
        forall|q: int| #[trigger]
            sorted_positions(issues, project_key, subtask, n).contains(q) <==> (0 <= q < n
                && in_project(issues[q], project_key, subtask)),
    decreases n,
{
    let result = sorted_positions(issues, project_key, subtask, n);
    if n > 0 {
        let earlier = sorted_positions(issues, project_key, subtask, (n - 1) as nat);
        lemma_sorted_positions(issues, project_key, subtask, (n - 1) as nat);
        if in_project(issues[n - 1], project_key, subtask) {
            lemma_insert_by_id(earlier, issues, n - 1);
        }
        assert forall|q: int| #[trigger]
            result.contains(q) <==> (0 <= q < n && in_project(
                issues[q],
                project_key,
                subtask,
            )) by {
            if in_project(issues[n - 1], project_key, subtask) {
                assert(result.contains(q) <==> (q == n - 1 || earlier.contains(q)));
                assert(earlier.contains(q) <==> (0 <= q < n - 1 && in_project(
                    issues[q],
                    project_key,
                    subtask,
                )));
            } else {
                assert(result == earlier);
            }
        }
    } else {
        assert forall|q: int| !result.contains(q) by {
            if result.contains(q) {
                let k = choose|k: int| 0 <= k < result.len() && result[k] == q;
            }
        }
    }
}

} // verus!
