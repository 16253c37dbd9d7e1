//! Issues and what is sent to create, change and move them.

use crate::jira::doc::{AtlassianDoc, DocView};
use crate::jira::project::{Project, ProjectView};
use crate::jira::user::{User, UserView};
use crate::jira::WrappedId;
use crate::text::str_eq;
use vstd::prelude::*;
use vstd::string::*;

verus! {

/// A JSON value that the server sends and this library passes on unread.
#[verifier::external_type_specification]
#[verifier::external_body]
pub struct ExJsonValue(serde_json::Value);

/// How urgent an issue is.
#[derive(Debug, PartialEq, Eq)]
pub struct Priority {
    pub name: String,
}

/// The workflow state of an issue.
#[derive(Debug, PartialEq, Eq)]
pub struct Status {
    pub id: i64,
    pub name: String,
}

/// What a `Status` holds.
pub struct StatusView {
    pub id: i64,
    pub name: Seq<char>,
}

impl View for Priority {
    type V = Seq<char>;

    open spec fn view(&self) -> Seq<char> {
        self.name@
    }
}

impl View for Status {
    type V = StatusView;

    open spec fn view(&self) -> StatusView {
        StatusView { id: self.id, name: self.name@ }
    }
}

impl Clone for Priority {
    fn clone(&self) -> (res: Self)
        ensures
            res@ == self@,
    {
        Priority { name: self.name.clone() }
    }
}

impl Clone for Status {
    fn clone(&self) -> (res: Self)
        ensures
            res@ == self@,
    {
        Status { id: self.id, name: self.name.clone() }
    }
}

/// The fields of an issue.
#[derive(Debug, PartialEq, Eq)]
pub struct IssueFields {
    pub summary: String,
    pub description: Option<AtlassianDoc>,
    pub priority: Priority,
    pub status: Status,
    pub assignee: Option<User>,
    pub reporter: User,
    /// When the issue was created, as an ISO 8601 text.
    pub created: String,
    /// When the issue was last changed, as an ISO 8601 text.
    pub updated: String,
    pub project: Project,
    pub parent: Option<WrappedId>,
}

/// What an `IssueFields` holds.
pub struct IssueFieldsView {
    pub summary: Seq<char>,
    pub description: Option<DocView>,
    pub priority: Seq<char>,
    pub status: StatusView,
    pub assignee: Option<UserView>,
    pub reporter: UserView,
    pub created: Seq<char>,
    pub updated: Seq<char>,
    pub project: ProjectView,
    pub parent: Option<WrappedId>,
}

impl View for IssueFields {
    type V = IssueFieldsView;

    open spec fn view(&self) -> IssueFieldsView {
        IssueFieldsView {
            summary: self.summary@,
            description: match self.description {
                Some(d) => Some(d@),
                None => None,
            },
            priority: self.priority@,
            status: self.status@,
            assignee: match self.assignee {
                Some(u) => Some(u@),
                None => None,
            },
            reporter: self.reporter@,
            created: self.created@,
            updated: self.updated@,
            project: self.project@,
            parent: self.parent,
        }
    }
}

impl Clone for IssueFields {
    fn clone(&self) -> (res: Self)
        ensures
            res@ == self@,
    {
        IssueFields {
            summary: self.summary.clone(),
            description: match &self.description {
                Some(d) => Some(d.clone()),
                None => None,
            },
            priority: self.priority.clone(),
            status: self.status.clone(),
            assignee: match &self.assignee {
                Some(u) => Some(u.clone()),
                None => None,
            },
            reporter: self.reporter.clone(),
            created: self.created.clone(),
            updated: self.updated.clone(),
            project: self.project.clone(),
            parent: self.parent,
        }
    }
}

impl IssueFields {
    /// Whether two sets of fields agree throughout.
    pub fn same_as(&self, other: &IssueFields) -> (same: bool)
        ensures
            same == (self@ == other@),
    {
        let descriptions = match (&self.description, &other.description) {
            (Some(a), Some(b)) => a.same_as(b),
            (None, None) => true,
            _ => false,
        };
        let assignees = match (&self.assignee, &other.assignee) {
            (Some(a), Some(b)) => a.same_as(b),
            (None, None) => true,
            _ => false,
        };
        let parents = match (&self.parent, &other.parent) {
            (Some(a), Some(b)) => a.id == b.id,
            (None, None) => true,
            _ => false,
        };
        str_eq(self.summary.as_str(), other.summary.as_str()) && descriptions && str_eq(
            self.priority.name.as_str(),
            other.priority.name.as_str(),
        ) && self.status.id == other.status.id && str_eq(
            self.status.name.as_str(),
            other.status.name.as_str(),
        ) && assignees && self.reporter.same_as(&other.reporter) && str_eq(
            self.created.as_str(),
            other.created.as_str(),
        ) && str_eq(self.updated.as_str(), other.updated.as_str()) && self.project.same_as(
            &other.project,
        ) && parents
    }
}

/// An issue.
#[derive(Debug, PartialEq, Eq)]
pub struct Issue {
    pub id: i64,
    pub key: String,
    pub fields: IssueFields,
}

/// What an `Issue` holds.
pub struct IssueView {
    pub id: i64,
    pub key: Seq<char>,
    pub fields: IssueFieldsView,
}

impl View for Issue {
    type V = IssueView;

    open spec fn view(&self) -> IssueView {
        IssueView { id: self.id, key: self.key@, fields: self.fields@ }
    }
}

impl Clone for Issue {
    fn clone(&self) -> (res: Self)
        ensures
            res@ == self@,
    {
        Issue { id: self.id, key: self.key.clone(), fields: self.fields.clone() }
    }
}

impl Issue {
    /// Whether two issues agree throughout.
    pub fn same_as(&self, other: &Issue) -> (same: bool)
        ensures
            same == (self@ == other@),
    {
        self.id == other.id && str_eq(self.key.as_str(), other.key.as_str())
            && self.fields.same_as(&other.fields)
    }
}

/// The issues that a search returned.
#[derive(Debug, Clone)]
pub struct Issues {
    pub issues: Vec<Issue>,
}

/// A kind of issue that a project offers.
#[derive(Debug, Clone)]
pub struct IssueType {
    pub id: String,
    pub name: String,
    pub description: String,
    pub is_subtask: bool,
    pub fields: Option<serde_json::Value>,
}

/// The fields of an issue that is to be created.
#[derive(Debug, Clone)]
pub struct IssueCreationFields {
    pub project: Project,
    pub issue_type: IssueType,
    pub summary: String,
    pub description: Option<AtlassianDoc>,
    pub priority: Option<Priority>,
    pub assignee: Option<User>,
    pub parent: Option<WrappedId>,
}

/// The request to create an issue.
#[derive(Debug, Clone)]
pub struct IssueCreation {
    pub fields: IssueCreationFields,
}

/// What the server returns for an issue that was created.
#[derive(Debug, Clone)]
pub struct CreatedIssue {
    pub id: i64,
    pub key: String,
    pub self_link: String,
}

/// The fields of an issue that are to change; a field that is `None` stays as it is.
#[derive(Debug, Clone)]
pub struct IssueEditFields {
    pub summary: Option<String>,
    pub description: Option<AtlassianDoc>,
    pub priority: Option<Priority>,
    pub status: Option<Status>,
    pub assignee: Option<Option<User>>,
}

/// The request to change an issue.
#[derive(Debug, Clone)]
pub struct IssueEdit {
    pub fields: IssueEditFields,
}

impl Default for IssueEditFields {
    fn default() -> (fields: IssueEditFields)
        ensures
            fields.summary is None,
            fields.description is None,
            fields.priority is None,
            fields.status is None,
            fields.assignee is None,
    {
        IssueEditFields {
            summary: None,
            description: None,
            priority: None,
            status: None,
            assignee: None,
        }
    }
}

impl Default for IssueEdit {
    fn default() -> (edit: IssueEdit)
        ensures
            edit.fields.summary is None,
            edit.fields.description is None,
            edit.fields.priority is None,
            edit.fields.status is None,
            edit.fields.assignee is None,
    {
        IssueEdit { fields: IssueEditFields::default() }
    }
}

/// A kind of event that the server reports about issues.
#[derive(Debug, Clone)]
pub struct IssueEvent {
    pub id: i64,
    pub name: String,
}

/// What a project offers for new issues.
#[derive(Debug, Clone)]
pub struct ProjectIssueCreationMeta {
    pub id: i64,
    pub key: String,
    pub name: String,
    pub issue_types: Vec<IssueType>,
}

/// What each project offers for new issues.
#[derive(Debug, Clone)]
pub struct IssueCreationMeta {
    pub projects: Vec<ProjectIssueCreationMeta>,
}

/// The type of a field as the server describes it.
#[derive(Debug, Clone)]
pub struct MetaFieldSchema {
    pub schema_type: String,
    pub system: Option<String>,
    pub items: Option<String>,
    pub custom: Option<String>,
    pub custom_id: Option<isize>,
}

/// A field that can be edited, with what it admits.
#[derive(Debug, Clone)]
pub struct IssueEditMetaField {
    pub required: bool,
    pub name: String,
    pub key: String,
    pub schema: MetaFieldSchema,
    pub allowed_values: Option<Vec<serde_json::Value>>,
    pub operations: Option<Vec<String>>,
    pub has_default_value: Option<bool>,
    pub default_value: Option<serde_json::Value>,
}

/// The fields of an issue that can be edited, by name.
#[derive(Debug, Clone)]
pub struct IssueEditMeta {
    pub fields: Vec<(String, IssueEditMetaField)>,
}

/// A step that an issue can take in its workflow.
#[derive(Debug, Clone)]
pub struct IssueTransitionDescriptor {
    pub id: i64,
    pub name: String,
    pub to: Status,
}

/// The steps that an issue can take.
#[derive(Debug, Clone)]
pub struct IssueTransitionDescriptors {
    pub transitions: Vec<IssueTransitionDescriptor>,
}

/// The request to take a step.
#[derive(Debug, Clone)]
pub struct IssueTransition {
    pub transition: IssueTransitionDescriptor,
}

} // verus!
