//! The lists last fetched from the server, and the check-out of one issue
//! and one project for editing.

use crate::error::Error;
use crate::jira::issue::{Issue, IssueView};
use crate::jira::project::{Project, ProjectDetailed, ProjectDetailedView, ProjectView};
use crate::text::str_eq;
use vstd::prelude::*;
use vstd::string::*;

verus! {

/// What is known of the one item that is checked out for editing.
#[derive(Debug)]
pub enum ConflictCell<T> {
    /// Nothing is checked out.
    Empty,
    /// The item `key` is checked out and has not changed since.
    Armed { key: String },
    /// The item `key` has changed on the server; `old` is what was checked out.
    Outdated { key: String, old: T },
    /// The item `key` is gone from the server.
    Deleted { key: String },
}

/// What a `ConflictCell` holds.
pub enum CellView<V> {
    Empty,
    Armed { key: Seq<char> },
    Outdated { key: Seq<char>, old: V },
    Deleted { key: Seq<char> },
}

/// The view of a cell that holds an issue.
pub open spec fn issue_cell_view(cell: ConflictCell<Issue>) -> CellView<IssueView> {
    match cell {
        ConflictCell::Empty => CellView::Empty,
        ConflictCell::Armed { key } => CellView::Armed { key: key@ },
        ConflictCell::Outdated { key, old } => CellView::Outdated { key: key@, old: old@ },
        ConflictCell::Deleted { key } => CellView::Deleted { key: key@ },
    }
}

/// The view of a cell that holds a project.
pub open spec fn project_cell_view(cell: ConflictCell<ProjectDetailed>) -> CellView<
    ProjectDetailedView,
> {
    match cell {
        ConflictCell::Empty => CellView::Empty,
        ConflictCell::Armed { key } => CellView::Armed { key: key@ },
        ConflictCell::Outdated { key, old } => CellView::Outdated { key: key@, old: old@ },
        ConflictCell::Deleted { key } => CellView::Deleted { key: key@ },
    }
}

/// The views of a list of issues.
pub open spec fn issues_view(issues: Seq<Issue>) -> Seq<IssueView> {
    Seq::new(issues.len(), |i: int| issues[i]@)
}

/// The views of a list of projects.
pub open spec fn projects_view(projects: Seq<ProjectDetailed>) -> Seq<ProjectDetailedView> {
    Seq::new(projects.len(), |i: int| projects[i]@)
}

/// The first issue with the given key, from index `from` on.
pub open spec fn find_issue(issues: Seq<IssueView>, key: Seq<char>, from: int) -> Option<IssueView>
    decreases issues.len() - from,
{
    if from < 0 || from >= issues.len() {
        None
    } else if issues[from].key == key {
        Some(issues[from])
    } else {
        find_issue(issues, key, from + 1)
    }
}

/// The first project with the given key, from index `from` on.
pub open spec fn find_project(
    projects: Seq<ProjectDetailedView>,
    key: Seq<char>,
    from: int,
) -> Option<ProjectDetailedView>
    decreases projects.len() - from,
{
    if from < 0 || from >= projects.len() {
        None
    } else if projects[from].key == key {
        Some(projects[from])
    } else {
        find_project(projects, key, from + 1)
    }
}

/// The project of the same id, key and name, without the details.
pub open spec fn plain_project(p: ProjectDetailedView) -> ProjectView {
    ProjectView { id: p.id, key: p.key, name: p.name }
}

/// The issue cell after the list of issues went from `old` to `new`.
///
/// Only an armed cell reacts, and only where the list changed: its issue gone
/// from the new list makes it `Deleted`; its issue with another time of last
/// change makes it `Outdated`, with the issue as the old list had it.
pub open spec fn issue_cell_after(
    cell: CellView<IssueView>,
    old: Seq<IssueView>,
    new: Seq<IssueView>,
) -> CellView<IssueView> {
    match cell {
        CellView::Armed { key } => if new == old {
            cell
        } else {
            match find_issue(new, key, 0) {
                Some(now) => match find_issue(old, key, 0) {
                    Some(before) => if now.fields.updated != before.fields.updated {
                        CellView::Outdated { key, old: before }
                    } else {
                        cell
                    },
                    None => cell,
                },
                None => CellView::Deleted { key },
            }
        },
        _ => cell,
    }
}

/// The project cell after the list of projects went from `old` to `new`.
///
/// Only an armed cell reacts, and only where the list changed: its project gone
/// from the new list makes it `Deleted`; its project changed in any field makes
/// it `Outdated`, with the project as the old list had it.
pub open spec fn project_cell_after(
    cell: CellView<ProjectDetailedView>,
    old: Seq<ProjectDetailedView>,
    new: Seq<ProjectDetailedView>,
) -> CellView<ProjectDetailedView> {
    match cell {
        CellView::Armed { key } => if new == old {
            cell
        } else {
            match find_project(new, key, 0) {
                Some(now) => match find_project(old, key, 0) {
                    Some(before) => if now != before {
                        CellView::Outdated { key, old: before }
                    } else {
                        cell
                    },
                    None => cell,
                },
                None => CellView::Deleted { key },
            }
        },
        _ => cell,
    }
}

/// The first issue of the list with the given key.
pub fn lookup_issue(values: &Vec<Issue>, key: &str) -> (found: Option<Issue>)
    ensures
        match found {
            Some(issue) => find_issue(issues_view(values@), key@, 0) == Some(issue@),
            None => find_issue(issues_view(values@), key@, 0) is None,
        },
{
    let ghost views = issues_view(values@);
    let mut i: usize = 0;
    while i < values.len()
        invariant
            0 <= i <= values.len(),
            views == issues_view(values@),
            find_issue(views, key@, 0) == find_issue(views, key@, i as int),
        decreases values.len() - i,
    {
        if str_eq(values[i].key.as_str(), key) {
            return Some(values[i].clone());
        }
        i += 1;
    }
    None
}

/// The first project of the list with the given key.
pub fn lookup_project(values: &Vec<ProjectDetailed>, key: &str) -> (found: Option<ProjectDetailed>)
    ensures
        match found {
            Some(project) => find_project(projects_view(values@), key@, 0) == Some(project@),
            None => find_project(projects_view(values@), key@, 0) is None,
        },
{
    let ghost views = projects_view(values@);
    let mut i: usize = 0;
    while i < values.len()
        invariant
            0 <= i <= values.len(),
            views == projects_view(values@),
            find_project(views, key@, 0) == find_project(views, key@, i as int),
        decreases values.len() - i,
    {
        if str_eq(values[i].key.as_str(), key) {
            return Some(values[i].clone());
        }
        i += 1;
    }
    None
}

/// Whether two lists of issues agree item by item.
pub fn same_issues(a: &Vec<Issue>, b: &Vec<Issue>) -> (same: bool)
    ensures
        same == (issues_view(a@) == issues_view(b@)),
{
    if a.len() != b.len() {
        assert(issues_view(a@).len() != issues_view(b@).len());
        return false;
    }
    let mut i: usize = 0;
    while i < a.len()
        invariant
            0 <= i <= a.len(),
            a.len() == b.len(),
            forall|k: int| 0 <= k < i ==> a[k]@ == b[k]@,
        decreases a.len() - i,
    {
        if !a[i].same_as(&b[i]) {
            assert(issues_view(a@)[i as int] != issues_view(b@)[i as int]);
            return false;
        }
        i += 1;
    }
    assert(issues_view(a@) =~= issues_view(b@));
    true
}

/// Whether two lists of projects agree item by item.
pub fn same_projects(a: &Vec<ProjectDetailed>, b: &Vec<ProjectDetailed>) -> (same: bool)
    ensures
        same == (projects_view(a@) == projects_view(b@)),
{
    if a.len() != b.len() {
        assert(projects_view(a@).len() != projects_view(b@).len());
        return false;
    }
    let mut i: usize = 0;
    while i < a.len()
        invariant
            0 <= i <= a.len(),
            a.len() == b.len(),
            forall|k: int| 0 <= k < i ==> a[k]@ == b[k]@,
        decreases a.len() - i,
    {
        if !a[i].same_as(&b[i]) {
            assert(projects_view(a@)[i as int] != projects_view(b@)[i as int]);
            return false;
        }
        i += 1;
    }
    assert(projects_view(a@) =~= projects_view(b@));
    true
}

/// What the editor knows of the server: the projects and issues as last
/// fetched, and the item that is checked out of each kind.
#[derive(Debug)]
pub struct State {
    projects: Vec<ProjectDetailed>,
    issues: Vec<Issue>,
    dirty: bool,
    issue_rentcell: ConflictCell<Issue>,
    project_rentcell: ConflictCell<ProjectDetailed>,
}

/// What a `State` holds.
pub struct StateView {
    pub projects: Seq<ProjectDetailedView>,
    pub issues: Seq<IssueView>,
    pub dirty: bool,
    pub issue_cell: CellView<IssueView>,
    pub project_cell: CellView<ProjectDetailedView>,
}

impl View for State {
    type V = StateView;

    closed spec fn view(&self) -> StateView {
        StateView {
            projects: projects_view(self.projects@),
            issues: issues_view(self.issues@),
            dirty: self.dirty,
            issue_cell: issue_cell_view(self.issue_rentcell),
            project_cell: project_cell_view(self.project_rentcell),
        }
    }
}

impl State {
    /// The state before anything was fetched or checked out.
    pub fn new() -> (state: State)
        ensures
            state@ == (StateView {
                projects: Seq::empty(),
                issues: Seq::empty(),
                dirty: false,
                issue_cell: CellView::Empty,
                project_cell: CellView::Empty,
            }),
    {
        let state = State {
            projects: Vec::new(),
            issues: Vec::new(),
            dirty: false,
            issue_rentcell: ConflictCell::Empty,
            project_rentcell: ConflictCell::Empty,
        };
        proof {
            assert(state@.projects =~= Seq::empty());
            assert(state@.issues =~= Seq::empty());
        }
        state
    }

    /// The projects as last fetched.
    pub fn projects(&self) -> (projects: &Vec<ProjectDetailed>)
        ensures
            projects_view(projects@) == self@.projects,
    {
        &self.projects
    }

    /// The first project with the given key.
    pub fn get_project_detailed(&self, key: &str) -> (found: Option<ProjectDetailed>)
        ensures
            match found {
                Some(project) => find_project(self@.projects, key@, 0) == Some(project@),
                None => find_project(self@.projects, key@, 0) is None,
            },
    {
        lookup_project(&self.projects, key)
    }

    /// The first project with the given key, without its details.
    pub fn get_project(&self, key: &str) -> (found: Option<Project>)
        ensures
            match found {
                Some(project) => match find_project(self@.projects, key@, 0) {
                    Some(detailed) => project@ == plain_project(detailed),
                    None => false,
                },
                None => find_project(self@.projects, key@, 0) is None,
            },
    {
        match lookup_project(&self.projects, key) {
            Some(project) => Some(project.to_project()),
            None => None,
        }
    }

    /// The issues as last fetched.
    pub fn issues(&self) -> (issues: &Vec<Issue>)
        ensures
            issues_view(issues@) == self@.issues,
    {
        &self.issues
    }

    /// The first issue with the given key.
    pub fn get_issue(&self, key: &str) -> (found: Option<Issue>)
        ensures
            match found {
                Some(issue) => find_issue(self@.issues, key@, 0) == Some(issue@),
                None => find_issue(self@.issues, key@, 0) is None,
            },
    {
        lookup_issue(&self.issues, key)
    }

    /// Whether a refresh has ever found the server's lists changed.
    pub fn dirty(&self) -> (dirty: bool)
        ensures
            dirty == self@.dirty,
    {
        self.dirty
    }

    /// The cell of the project that is checked out.
    pub fn get_current_work_project(&self) -> (cell: &ConflictCell<ProjectDetailed>)
        ensures
            project_cell_view(*cell) == self@.project_cell,
    {
        &self.project_rentcell
    }

    /// The cell of the issue that is checked out.
    pub fn get_current_work_issue(&self) -> (cell: &ConflictCell<Issue>)
        ensures
            issue_cell_view(*cell) == self@.issue_cell,
    {
        &self.issue_rentcell
    }

    /// Checks the issue out, unless one is checked out already: then nothing
    /// changes and the error says so.
    pub fn check_out_issue(&mut self, issue_key: String) -> (res: Result<(), Error>)
        ensures
            old(self)@.issue_cell is Empty ==> res is Ok && final(self)@ == (StateView {
                issue_cell: CellView::Armed { key: issue_key@ },
                ..old(self)@
            }),
            !(old(self)@.issue_cell is Empty) ==> final(self)@ == old(self)@ && (res matches Err(
                Error::Jirascope { message },
            ) && message@ == "Issue already checked out."@),
    {
        match self.issue_rentcell {
            ConflictCell::Empty => {
                self.issue_rentcell = ConflictCell::Armed { key: issue_key };
                Ok(())
            },
            _ => Err(Error::jirascope("Issue already checked out.")),
        }
    }

    /// Checks the project out, unless one is checked out already: then nothing
    /// changes and the error says so.
    pub fn check_out_project(&mut self, project_key: String) -> (res: Result<(), Error>)
        ensures
            old(self)@.project_cell is Empty ==> res is Ok && final(self)@ == (StateView {
                project_cell: CellView::Armed { key: project_key@ },
                ..old(self)@
            }),
            !(old(self)@.project_cell is Empty) ==> final(self)@ == old(self)@ && (res matches Err(
                Error::Jirascope { message },
            ) && message@ == "Project already checked out."@),
    {
        match self.project_rentcell {
            ConflictCell::Empty => {
                self.project_rentcell = ConflictCell::Armed { key: project_key };
                Ok(())
            },
            _ => Err(Error::jirascope("Project already checked out.")),
        }
    }

    /// Gives the issue back if it is the one checked out and has not changed
    /// since; says whether it did.
    pub fn try_return_issue(&mut self, issue_key: &str) -> (returned: bool)
        ensures
            returned == (old(self)@.issue_cell == CellView::<IssueView>::Armed {
                key: issue_key@,
            }),
            returned ==> final(self)@ == (StateView {
                issue_cell: CellView::Empty,
                ..old(self)@
            }),
            !returned ==> final(self)@ == old(self)@,
    {
        let matches = match &self.issue_rentcell {
            ConflictCell::Armed { key } => str_eq(key.as_str(), issue_key),
            _ => false,
        };
        if matches {
            self.issue_rentcell = ConflictCell::Empty;
        }
        matches
    }

    /// Gives back whatever issue is checked out.
    pub fn return_issue(&mut self)
        ensures
            final(self)@ == (StateView { issue_cell: CellView::Empty, ..old(self)@ }),
    {
        self.issue_rentcell = ConflictCell::Empty;
    }

    /// Gives the project back if it is the one checked out and has not changed
    /// since; says whether it did.
    pub fn try_return_project(&mut self, project_key: &str) -> (returned: bool)
        ensures
            returned == (old(self)@.project_cell == CellView::<ProjectDetailedView>::Armed {
                key: project_key@,
            }),
            returned ==> final(self)@ == (StateView {
                project_cell: CellView::Empty,
                ..old(self)@
            }),
            !returned ==> final(self)@ == old(self)@,
    {
        let matches = match &self.project_rentcell {
            ConflictCell::Armed { key } => str_eq(key.as_str(), project_key),
            _ => false,
        };
        if matches {
            self.project_rentcell = ConflictCell::Empty;
        }
        matches
    }

    /// Gives back whatever project is checked out.
    pub fn return_project(&mut self)
        ensures
            final(self)@ == (StateView { project_cell: CellView::Empty, ..old(self)@ }),
    {
        self.project_rentcell = ConflictCell::Empty;
    }

    /// Takes in the projects that the server returned. The state is dirty once
    /// the list differs from the one held, and the project cell reacts to it.
    pub fn refresh_projects(&mut self, new_projects: Vec<ProjectDetailed>)
        ensures
            final(self)@ == (StateView {
                projects: projects_view(new_projects@),
                dirty: old(self)@.dirty || projects_view(new_projects@) != old(self)@.projects,
                project_cell: project_cell_after(
                    old(self)@.project_cell,
                    old(self)@.projects,
                    projects_view(new_projects@),
                ),
                ..old(self)@
            }),
    {
        if !same_projects(&new_projects, &self.projects) {
            self.dirty = true;
            let armed: Option<String> = match &self.project_rentcell {
                ConflictCell::Armed { key } => Some(key.clone()),
                _ => None,
            };
            if let Some(key) = armed {
                match lookup_project(&new_projects, key.as_str()) {
                    Some(project) => {
                        if let Some(old) = lookup_project(&self.projects, key.as_str()) {
                            if !project.same_as(&old) {
                                self.project_rentcell = ConflictCell::Outdated { key, old };
                            }
                        }
                    },
                    None => {
                        self.project_rentcell = ConflictCell::Deleted { key };
                    },
                }
            }
        }
        self.projects = new_projects;
    }

    /// Takes in the issues that the server returned. The state is dirty once
    /// the list differs from the one held, and the issue cell reacts to it.
    pub fn refresh_issues(&mut self, new_issues: Vec<Issue>)
        ensures
            final(self)@ == (StateView {
                issues: issues_view(new_issues@),
                dirty: old(self)@.dirty || issues_view(new_issues@) != old(self)@.issues,
                issue_cell: issue_cell_after(
                    old(self)@.issue_cell,
                    old(self)@.issues,
                    issues_view(new_issues@),
                ),
                ..old(self)@
            }),
    {
        if !same_issues(&new_issues, &self.issues) {
            self.dirty = true;
            let armed: Option<String> = match &self.issue_rentcell {
                ConflictCell::Armed { key } => Some(key.clone()),
                _ => None,
            };
            if let Some(key) = armed {
                match lookup_issue(&new_issues, key.as_str()) {
                    Some(issue) => {
                        if let Some(old) = lookup_issue(&self.issues, key.as_str()) {
                            if !str_eq(issue.fields.updated.as_str(), old.fields.updated.as_str()) {
                                self.issue_rentcell = ConflictCell::Outdated { key, old };
                            }
                        }
                    },
                    None => {
                        self.issue_rentcell = ConflictCell::Deleted { key };
                    },
                }
            }
        }
        self.issues = new_issues;
    }

    /// Takes in both lists that the server returned: the projects, then the issues.
    pub fn refresh(&mut self, new_projects: Vec<ProjectDetailed>, new_issues: Vec<Issue>)
        ensures
            final(self)@ == (StateView {
                projects: projects_view(new_projects@),
                issues: issues_view(new_issues@),
                dirty: old(self)@.dirty || projects_view(new_projects@) != old(self)@.projects
                    || issues_view(new_issues@) != old(self)@.issues,
                issue_cell: issue_cell_after(
                    old(self)@.issue_cell,
                    old(self)@.issues,
                    issues_view(new_issues@),
                ),
                project_cell: project_cell_after(
                    old(self)@.project_cell,
                    old(self)@.projects,
                    projects_view(new_projects@),
                ),
            }),
    {
        self.refresh_projects(new_projects);
        self.refresh_issues(new_issues);
    }
}

/// The mark before a line of a tree: a corner for the last of `len` lines, a tee for the others.
pub fn get_icon(i: usize, len: usize) -> (icon: &'static str)
    ensures
        icon@ == (if i + 1 == len {
            "└"@
        } else {
            "├"@
        }),
{
    if len > 0 && i == len - 1 {
        "└"
    } else {
        "├"
    }
}

} // verus!
