//! The edit buffers: the lines that show an issue or a project, and the
//! changes read back from what the user made of them.

use crate::chars::{
    chars_of, drop_copies, find_from, find_labelled, first_match, labelled_line,
    line_at, skip_copies, stop_of_line, trim_end, trim_start,
};
use crate::error::Error;
use crate::jira::doc::{opt_text, AtlassianDoc};
use crate::jira::issue::{Issue, IssueEdit, IssueEditFields, IssueView};
use crate::jira::mdast::parsed_document;
use crate::jira::project::{ProjectDetailed, ProjectDetailedView, ProjectEdit};
use crate::jira::render::doc_markdown;
use crate::jira::user::{User, UserView};
use crate::state::{find_issue, find_project, CellView, ConflictCell, State};
use crate::text::str_eq;
use vstd::prelude::*;
use vstd::string::*;

verus! {

/// The key that an edit buffer names: its first line without the stars around it.
pub open spec fn buffer_key(content: Seq<char>) -> Seq<char> {
    trim_end(trim_start(line_at(content, 0), "* "@), " *"@)
}

/// What the first line that begins with `label` says behind the label.
pub open spec fn field_value(content: Seq<char>, label: Seq<char>) -> Option<Seq<char>> {
    match labelled_line(content, label, 0) {
        Some(line) => Some(trim_start(line, label)),
        None => None,
    }
}

/// Everything behind the first `Description: ` of the buffer; the whole buffer
/// where it holds none.
pub open spec fn description_text(content: Seq<char>) -> Seq<char> {
    match first_match(content, "Description: "@, 0) {
        Some(at) => content.skip(at + "Description: "@.len()),
        None => content,
    }
}

/// The key that an edit buffer names.
pub fn key_in_buffer(content: &str) -> (key: String)
    ensures
        key@ == buffer_key(content@),
{
    let chars = chars_of(content);
    let open = chars_of("* ");
    let close = chars_of(" *");
    let stop = stop_of_line(&chars, 0);
    let lo = skip_copies(&chars, &open, 0, stop);
    let hi = drop_copies(&chars, &close, lo, stop);
    content.substring_char(lo, hi).to_owned()
}

/// What the first line of the buffer that begins with `label` says behind the label.
pub fn field_in_buffer(content: &str, label: &str) -> (value: Option<String>)
    ensures
        opt_text(value) == field_value(content@, label@),
{
    let chars = chars_of(content);
    let mark = chars_of(label);
    match find_labelled(&chars, &mark) {
        Some((lo, hi)) => {
            let start = skip_copies(&chars, &mark, lo, hi);
            Some(content.substring_char(start, hi).to_owned())
        },
        None => None,
    }
}

/// Everything behind the first `Description: ` of the buffer.
pub fn description_in_buffer(content: &str) -> (text: String)
    ensures
        text@ == description_text(content@),
{
    let chars = chars_of(content);
    let mark = chars_of("Description: ");
    match find_from(&chars, &mark, 0) {
        Some(at) => {
            let total = chars.len();
            let start = at + mark.len();
            assert(content@.subrange(start as int, content@.len() as int) =~= content@.skip(
                start as int,
            ));
            content.substring_char(start, total).to_owned()
        },
        None => content.to_owned(),
    }
}

/// The change to an issue that an edit buffer asks for, by field.
pub open spec fn issue_edit_of(content: Seq<char>, edit: IssueEdit) -> bool {
    &&& opt_text(edit.fields.summary) == field_value(content, "Summary: "@)
    &&& match edit.fields.description {
        Some(doc) => description_text(content).len() > 0 && doc@ == parsed_document(
            description_text(content),
        ),
        None => description_text(content).len() == 0,
    }
    &&& edit.fields.priority is None
    &&& edit.fields.status is None
    &&& edit.fields.assignee is None
}

/// Reads an issue's edit buffer: the key of the issue, and the change that the
/// buffer asks for. The summary is the line so labelled; the description is
/// the Markdown behind its label, read into a document.
pub fn issue_edit_from_buffer(content: &str) -> (res: (String, IssueEdit))
    ensures
        res.0@ == buffer_key(content@),
        issue_edit_of(content@, res.1),
{
    let key = key_in_buffer(content);
    let summary = field_in_buffer(content, "Summary: ");
    let text = description_in_buffer(content);
    let description = if text.as_str().is_empty() {
        None
    } else {
        Some(AtlassianDoc::from_markdown(text.as_str()))
    };
    let edit = IssueEdit {
        fields: IssueEditFields {
            summary,
            description,
            priority: None,
            status: None,
            assignee: None,
        },
    };
    (key, edit)
}

/// The account of the first user with the given display name.
pub open spec fn account_of(users: Seq<UserView>, name: Seq<char>, from: int) -> Option<Seq<char>>
    decreases users.len() - from,
{
    if from < 0 || from >= users.len() {
        None
    } else if users[from].display_name == name {
        Some(users[from].account_id)
    } else {
        account_of(users, name, from + 1)
    }
}

/// The views of a list of users.
pub open spec fn users_view(users: Seq<User>) -> Seq<UserView> {
    Seq::new(users.len(), |i: int| users[i]@)
}

/// The account of the first user with the given display name.
pub fn find_account(users: &Vec<User>, name: &str) -> (account: Option<String>)
    ensures
        opt_text(account) == account_of(users_view(users@), name@, 0),
{
    let ghost views = users_view(users@);
    let mut i: usize = 0;
    while i < users.len()
        invariant
            0 <= i <= users.len(),
            views == users_view(users@),
            account_of(views, name@, 0) == account_of(views, name@, i as int),
        decreases users.len() - i,
    {
        if str_eq(users[i].display_name.as_str(), name) {
            return Some(users[i].account_id.clone());
        }
        i += 1;
    }
    None
}

/// The address that a project's edit buffer asks for: none where the line is
/// missing or says `None`.
pub open spec fn url_change(value: Option<Seq<char>>) -> Option<Option<Seq<char>>> {
    match value {
        Some(url) => if url == "None"@ {
            None
        } else {
            Some(Some(url))
        },
        None => None,
    }
}

/// The change to a project that an edit buffer asks for, by field.
pub open spec fn project_edit_of(
    content: Seq<char>,
    users: Seq<UserView>,
    edit: ProjectEdit,
) -> bool {
    &&& opt_text(edit.key) == (if buffer_key(content).len() == 0 {
        None
    } else {
        Some(buffer_key(content))
    })
    &&& opt_text(edit.name) == field_value(content, "Name: "@)
    &&& opt_text(edit.description) == field_value(content, "Description: "@)
    &&& match edit.url {
        Some(url) => url_change(field_value(content, "URL: "@)) == Some(opt_text(url)),
        None => url_change(field_value(content, "URL: "@)) is None,
    }
    &&& match field_value(content, "Lead: "@) {
        Some(lead) => opt_text(edit.lead_account_id) == account_of(users, lead, 0)
            && edit.lead_account_id is Some,
        None => edit.lead_account_id is None,
    }
    &&& edit.category_id is None
    &&& edit.assignee_type is None
}

/// Whether the buffer names a lead that no user goes by.
pub open spec fn names_unknown_lead(content: Seq<char>, users: Seq<UserView>) -> bool {
    match field_value(content, "Lead: "@) {
        Some(lead) => account_of(users, lead, 0) is None,
        None => false,
    }
}

/// Reads a project's edit buffer: the key that the buffer now names, and the
/// change that it asks for. A lead that is no user's display name is an error.
pub fn project_edit_from_buffer(content: &str, users: &Vec<User>) -> (res: Result<
    (String, ProjectEdit),
    Error,
>)
    ensures
        match res {
            Ok((key, edit)) => !names_unknown_lead(content@, users_view(users@)) && key@
                == buffer_key(content@) && project_edit_of(content@, users_view(users@), edit),
            Err(e) => names_unknown_lead(content@, users_view(users@)) && (e matches Error::Jirascope {
                message,
            } && message@ == "Invalid user."@),
        },
{
    let key = key_in_buffer(content);
    let new_key = if key.as_str().is_empty() {
        None
    } else {
        Some(key.clone())
    };
    let name = field_in_buffer(content, "Name: ");
    let description = field_in_buffer(content, "Description: ");
    let url = match field_in_buffer(content, "URL: ") {
        Some(url) => if str_eq(url.as_str(), "None") {
            None
        } else {
            Some(Some(url))
        },
        None => None,
    };
    let lead_account_id = match field_in_buffer(content, "Lead: ") {
        Some(lead) => match find_account(users, lead.as_str()) {
            Some(account) => Some(account),
            None => {
                return Err(Error::jirascope("Invalid user."));
            },
        },
        None => None,
    };
    let edit = ProjectEdit {
        key: new_key,
        name,
        description,
        url,
        lead_account_id,
        category_id: None,
        assignee_type: None,
    };
    Ok((key, edit))
}

/// How a line of a buffer is to look.
#[derive(Debug, Clone, Copy, PartialEq, Eq, Structural)]
pub enum Face {
    /// Ordinary text.
    Plain,
    /// The key of the item that the buffer is about.
    Key,
    /// A notice that something changed.
    Alert,
    /// What the item was when it was checked out.
    Old,
    /// What the item is now.
    New,
}

/// One line of a buffer.
#[derive(Debug, PartialEq, Eq)]
pub struct BufferLine {
    pub text: String,
    pub face: Face,
}

/// The texts and faces of a list of lines.
pub open spec fn buffer_view(lines: Seq<BufferLine>) -> Seq<(Seq<char>, Face)> {
    Seq::new(lines.len(), |i: int| (lines[i].text@, lines[i].face))
}

/// The title line of a buffer: the key between stars.
pub open spec fn title(key: Seq<char>) -> Seq<char> {
    "* "@ + key + " *"@
}

/// The lines that show an issue with the given face, the title line apart.
pub open spec fn issue_fields(issue: IssueView, face: Face) -> Seq<(Seq<char>, Face)> {
    seq![
        ("Summary: "@ + issue.fields.summary, face),
        ("Status: "@ + issue.fields.status.name, face),
    ] + (match issue.fields.description {
        Some(doc) => seq![("Description: "@ + doc_markdown(doc), face)],
        None => Seq::empty(),
    })
}

/// The buffer that shows an issue under the given key.
pub open spec fn issue_buffer(key: Seq<char>, issue: IssueView) -> Seq<(Seq<char>, Face)> {
    seq![(title(key), Face::Key)] + issue_fields(issue, Face::Plain)
}

/// The lines that show a project with the given face, the title line
/// included; the address only where the project has one.
pub open spec fn project_fields(project: ProjectDetailedView, face: Face) -> Seq<
    (Seq<char>, Face),
> {
    seq![
        (title(project.key), face),
        ("Name: "@ + project.name, face),
        ("Description: "@ + project.description, face),
    ] + (match project.url {
        Some(url) => seq![("URL: "@ + url, face)],
        None => Seq::empty(),
    }) + seq![("Lead: "@ + project.lead.display_name, face)]
}

/// The buffer in which a project is edited; a missing address reads `None`.
pub open spec fn project_buffer(project: ProjectDetailedView) -> Seq<(Seq<char>, Face)> {
    seq![
        (title(project.key), Face::Key),
        ("Name: "@ + project.name, Face::Plain),
        ("Description: "@ + project.description, Face::Plain),
        ("URL: "@ + (match project.url {
            Some(url) => url,
            None => "None"@,
        }), Face::Plain),
        ("Lead: "@ + project.lead.display_name, Face::Plain),
    ]
}

fn line(label: &str, value: &str, face: Face) -> (res: BufferLine)
    ensures
        res.text@ == label@ + value@,
        res.face == face,
{
    let mut text = label.to_owned();
    text.append(value);
    BufferLine { text, face }
}

fn title_line(key: &str, face: Face) -> (res: BufferLine)
    ensures
        res.text@ == title(key@),
        res.face == face,
{
    let mut text = "* ".to_owned();
    text.append(key);
    text.append(" *");
    BufferLine { text, face }
}

fn push_issue_fields(lines: &mut Vec<BufferLine>, issue: &Issue, face: Face)
    ensures
        buffer_view(final(lines)@) == buffer_view(old(lines)@) + issue_fields(issue@, face),
{
    let ghost start = buffer_view(lines@);
    lines.push(line("Summary: ", issue.fields.summary.as_str(), face));
    lines.push(line("Status: ", issue.fields.status.name.as_str(), face));
    if let Some(doc) = &issue.fields.description {
        let shown = doc.to_markdown();
        lines.push(line("Description: ", shown.as_str(), face));
    }
    assert(buffer_view(lines@) =~= start + issue_fields(issue@, face));
}

fn push_project_fields(lines: &mut Vec<BufferLine>, project: &ProjectDetailed, face: Face)
    ensures
        buffer_view(final(lines)@) == buffer_view(old(lines)@) + project_fields(project@, face),
{
    let ghost start = buffer_view(lines@);
    lines.push(title_line(project.key.as_str(), face));
    lines.push(line("Name: ", project.name.as_str(), face));
    lines.push(line("Description: ", project.description.as_str(), face));
    if let Some(url) = &project.url {
        lines.push(line("URL: ", url.as_str(), face));
    }
    lines.push(line("Lead: ", project.lead.display_name.as_str(), face));
    assert(buffer_view(lines@) =~= start + project_fields(project@, face));
}

/// The lines of the buffer that shows an issue under the given key.
pub fn issue_buffer_lines(key: &str, issue: &Issue) -> (lines: Vec<BufferLine>)
    ensures
        buffer_view(lines@) == issue_buffer(key@, issue@),
{
    let mut lines: Vec<BufferLine> = Vec::new();
    lines.push(title_line(key, Face::Key));
    push_issue_fields(&mut lines, issue, Face::Plain);
    assert(buffer_view(lines@) =~= issue_buffer(key@, issue@));
    lines
}

/// The lines of the buffer in which a project is edited.
pub fn project_buffer_lines(project: &ProjectDetailed) -> (lines: Vec<BufferLine>)
    ensures
        buffer_view(lines@) == project_buffer(project@),
{
    let mut lines: Vec<BufferLine> = Vec::new();
    lines.push(title_line(project.key.as_str(), Face::Key));
    lines.push(line("Name: ", project.name.as_str(), Face::Plain));
    lines.push(line("Description: ", project.description.as_str(), Face::Plain));
    match &project.url {
        Some(url) => {
            lines.push(line("URL: ", url.as_str(), Face::Plain));
        },
        None => {
            lines.push(line("URL: ", "None", Face::Plain));
        },
    }
    lines.push(line("Lead: ", project.lead.display_name.as_str(), Face::Plain));
    assert(buffer_view(lines@) =~= project_buffer(project@));
    lines
}

/// The lines that tell what became of the issue that is checked out: nothing
/// while it is unchanged; that it is gone; or what it was and what it is now.
pub open spec fn issue_diff(cell: CellView<IssueView>, issues: Seq<IssueView>) -> Seq<
    (Seq<char>, Face),
> {
    match cell {
        CellView::Deleted { key } => seq![
            (title(key), Face::Key),
            ("Issue was deleted."@, Face::Alert),
        ],
        CellView::Outdated { key, old } => seq![
            (title(key), Face::Key),
            ("Issue was changed since last access."@, Face::Alert),
            ("Old:"@, Face::Alert),
        ] + issue_fields(old, Face::Old) + seq![("New:"@, Face::Alert)] + (match find_issue(
            issues,
            key,
            0,
        ) {
            Some(now) => issue_fields(now, Face::New),
            None => Seq::empty(),
        }),
        _ => Seq::empty(),
    }
}

/// The lines that tell what became of the project that is checked out: nothing
/// while it is unchanged; that it is gone; or what it was and what it is now.
pub open spec fn project_diff(
    cell: CellView<ProjectDetailedView>,
    projects: Seq<ProjectDetailedView>,
) -> Seq<(Seq<char>, Face)> {
    match cell {
        CellView::Deleted { key } => seq![
            (title(key), Face::Key),
            ("Issue was deleted."@, Face::Alert),
        ],
        CellView::Outdated { key, old } => seq![
            (title(key), Face::Key),
            ("Issue was changed since last access."@, Face::Alert),
            ("Old:"@, Face::Alert),
        ] + project_fields(old, Face::Old) + seq![("New:"@, Face::Alert)] + (match find_project(
            projects,
            key,
            0,
        ) {
            Some(now) => project_fields(now, Face::New),
            None => Seq::empty(),
        }),
        _ => Seq::empty(),
    }
}

fn push_diff_head(lines: &mut Vec<BufferLine>, key: &str)
    ensures
        buffer_view(final(lines)@) == buffer_view(old(lines)@) + seq![
            (title(key@), Face::Key),
            ("Issue was changed since last access."@, Face::Alert),
            ("Old:"@, Face::Alert),
        ],
{
    let ghost start = buffer_view(lines@);
    lines.push(title_line(key, Face::Key));
    lines.push(notice("Issue was changed since last access."));
    lines.push(notice("Old:"));
    assert(buffer_view(lines@) =~= start + seq![
        (title(key@), Face::Key),
        ("Issue was changed since last access."@, Face::Alert),
        ("Old:"@, Face::Alert),
    ]);
}

fn notice(text: &str) -> (res: BufferLine)
    ensures
        res.text@ == text@,
        res.face == Face::Alert,
{
    BufferLine { text: text.to_owned(), face: Face::Alert }
}

/// The lines that tell what became of the issue that is checked out.
pub fn issue_diff_lines(state: &State) -> (lines: Vec<BufferLine>)
    ensures
        buffer_view(lines@) == issue_diff(state@.issue_cell, state@.issues),
{
    let mut lines: Vec<BufferLine> = Vec::new();
    match state.get_current_work_issue() {
        ConflictCell::Deleted { key } => {
            lines.push(title_line(key.as_str(), Face::Key));
            lines.push(notice("Issue was deleted."));
            assert(buffer_view(lines@) =~= issue_diff(state@.issue_cell, state@.issues));
        },
        ConflictCell::Outdated { key, old } => {
            push_diff_head(&mut lines, key.as_str());
            push_issue_fields(&mut lines, old, Face::Old);
            lines.push(notice("New:"));
            if let Some(now) = state.get_issue(key.as_str()) {
                push_issue_fields(&mut lines, &now, Face::New);
            }
            assert(buffer_view(lines@) =~= issue_diff(state@.issue_cell, state@.issues));
        },
        _ => {
            assert(buffer_view(lines@) =~= issue_diff(state@.issue_cell, state@.issues));
        },
    }
    lines
}

/// The lines that tell what became of the project that is checked out.
pub fn project_diff_lines(state: &State) -> (lines: Vec<BufferLine>)
    ensures
        buffer_view(lines@) == project_diff(state@.project_cell, state@.projects),
{
    let mut lines: Vec<BufferLine> = Vec::new();
    match state.get_current_work_project() {
        ConflictCell::Deleted { key } => {
            lines.push(title_line(key.as_str(), Face::Key));
            lines.push(notice("Issue was deleted."));
            assert(buffer_view(lines@) =~= project_diff(state@.project_cell, state@.projects));
        },
        ConflictCell::Outdated { key, old } => {
            push_diff_head(&mut lines, key.as_str());
            push_project_fields(&mut lines, old, Face::Old);
            lines.push(notice("New:"));
            if let Some(now) = state.get_project_detailed(key.as_str()) {
                push_project_fields(&mut lines, &now, Face::New);
            }
            assert(buffer_view(lines@) =~= project_diff(state@.project_cell, state@.projects));
        },
        _ => {
            assert(buffer_view(lines@) =~= project_diff(state@.project_cell, state@.projects));
        },
    }
    lines
}

} // verus!
