//! The types of the Jira REST interface.

use vstd::prelude::*;

pub mod doc;
pub mod error;
pub mod flatten;
pub mod issue;
pub mod laws;
pub mod mdast;
pub mod project;
pub mod render;
pub mod user;

pub use doc::{AtlassianDoc, Content, Mark, MarkAttrs};
pub use error::ErrorCollection;
pub use issue::{
    CreatedIssue, Issue, IssueCreation, IssueCreationFields, IssueCreationMeta, IssueEdit,
    IssueEditFields, IssueEditMeta, IssueEditMetaField, IssueEvent, IssueFields, IssueTransition,
    IssueTransitionDescriptor, IssueTransitionDescriptors, IssueType, Issues, MetaFieldSchema,
    Priority, ProjectIssueCreationMeta, Status,
};
pub use project::{
    AssigneeType, FieldConfigurationScheme, Project, ProjectCategory, ProjectCreate,
    ProjectCreateDetails, ProjectCreated, ProjectDetailed, ProjectEdit, ProjectIssueSecurityLevel,
    ProjectIssueSecurityScheme, ProjectList, ProjectTemplate,
};
pub use user::User;

verus! {

/// One page of a list that the server hands out in parts.
#[derive(Debug, Clone)]
pub struct Paginated<T> {
    pub start_at: usize,
    pub max_results: usize,
    pub total: usize,
    pub is_last: bool,
    pub values: Vec<T>,
}

/// An identifier that travels as an object with one field.
#[derive(Debug, Clone, Copy, PartialEq, Eq, Structural)]
pub struct WrappedId {
    pub id: i64,
}

impl WrappedId {
    /// The wrapped form of `id`.
    pub fn new(id: i64) -> (wrapped: WrappedId)
        ensures
            wrapped.id == id,
    {
        Self { id }
    }
}

} // verus!
