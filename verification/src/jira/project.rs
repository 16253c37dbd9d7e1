//! Projects, what is sent to create and change them, and the templates on offer.

use crate::jira::doc::{opt_str_eq, opt_text};
use crate::jira::user::{User, UserView};
use crate::text::str_eq;
use vstd::prelude::*;
use vstd::string::*;

verus! {

/// A project as issues refer to it.
#[derive(Debug, PartialEq, Eq)]
pub struct Project {
    pub id: i64,
    pub key: String,
    pub name: String,
}

/// What a `Project` holds.
pub struct ProjectView {
    pub id: i64,
    pub key: Seq<char>,
    pub name: Seq<char>,
}

impl View for Project {
    type V = ProjectView;

    open spec fn view(&self) -> ProjectView {
        ProjectView { id: self.id, key: self.key@, name: self.name@ }
    }
}

impl Clone for Project {
    fn clone(&self) -> (res: Self)
        ensures
            res@ == self@,
    {
        Project { id: self.id, key: self.key.clone(), name: self.name.clone() }
    }
}

impl Project {
    /// Whether two projects agree in every field.
    pub fn same_as(&self, other: &Project) -> (same: bool)
        ensures
            same == (self@ == other@),
    {
        self.id == other.id && str_eq(self.key.as_str(), other.key.as_str()) && str_eq(
            self.name.as_str(),
            other.name.as_str(),
        )
    }
}

/// A project with its description, its lead and its address.
#[derive(Debug, PartialEq, Eq)]
pub struct ProjectDetailed {
    pub id: i64,
    pub key: String,
    pub name: String,
    pub description: String,
    pub lead: User,
    pub url: Option<String>,
}

/// What a `ProjectDetailed` holds.
pub struct ProjectDetailedView {
    pub id: i64,
    pub key: Seq<char>,
    pub name: Seq<char>,
    pub description: Seq<char>,
    pub lead: UserView,
    pub url: Option<Seq<char>>,
}

impl View for ProjectDetailed {
    type V = ProjectDetailedView;

    open spec fn view(&self) -> ProjectDetailedView {
        ProjectDetailedView {
            id: self.id,
            key: self.key@,
            name: self.name@,
            description: self.description@,
            lead: self.lead@,
            url: opt_text(self.url),
        }
    }
}

impl Clone for ProjectDetailed {
    fn clone(&self) -> (res: Self)
        ensures
            res@ == self@,
    {
        ProjectDetailed {
            id: self.id,
            key: self.key.clone(),
            name: self.name.clone(),
            description: self.description.clone(),
            lead: self.lead.clone(),
            url: match &self.url {
                Some(u) => Some(u.clone()),
                None => None,
            },
        }
    }
}

impl ProjectDetailed {
    /// The project without its details.
    pub fn to_project(self) -> (project: Project)
        ensures
            project@ == (ProjectView { id: self@.id, key: self@.key, name: self@.name }),
    {
        Project { id: self.id, key: self.key, name: self.name }
    }

    /// Whether two projects agree in every field.
    pub fn same_as(&self, other: &ProjectDetailed) -> (same: bool)
        ensures
            same == (self@ == other@),
    {
        self.id == other.id && str_eq(self.key.as_str(), other.key.as_str()) && str_eq(
            self.name.as_str(),
            other.name.as_str(),
        ) && str_eq(self.description.as_str(), other.description.as_str()) && self.lead.same_as(
            &other.lead,
        ) && opt_str_eq(&self.url, &other.url)
    }
}

/// What the server returns for a project that was created.
#[derive(Debug, Clone)]
pub struct ProjectCreated {
    pub id: i64,
    pub key: String,
}

/// A list of projects.
#[derive(Debug, Clone)]
pub struct ProjectList {
    pub projects: Vec<Project>,
}

/// Who gets the issues of a project that name no assignee.
#[derive(Debug, Clone)]
pub enum AssigneeType {
    ProjectLead,
    Unassigned,
}

/// How a new project is set up: from a template, or scheme by scheme.
#[derive(Debug, Clone)]
pub enum ProjectCreateDetails {
    Template { project_template_key: String },
    Granular {
        issue_security_scheme: i64,
        permission_scheme: i64,
        notification_scheme: i64,
        issue_type_scheme: i64,
        issue_type_screen_scheme: i64,
        field_configuration_scheme: i64,
        workflow_scheme: i64,
    },
}

/// The request to create a project.
#[derive(Debug, Clone)]
pub struct ProjectCreate {
    pub key: String,
    pub name: String,
    pub description: String,
    pub url: Option<String>,
    pub lead_account_id: String,
    pub category_id: Option<i64>,
    pub project_type_key: String,
    pub assignee_type: AssigneeType,
    pub details: ProjectCreateDetails,
}

/// The request to change a project; a field that is `None` stays as it is.
#[derive(Debug, Clone)]
pub struct ProjectEdit {
    pub key: Option<String>,
    pub name: Option<String>,
    pub description: Option<String>,
    pub url: Option<Option<String>>,
    pub lead_account_id: Option<String>,
    pub category_id: Option<Option<i64>>,
    pub assignee_type: Option<AssigneeType>,
}

impl Default for ProjectEdit {
    fn default() -> (edit: ProjectEdit)
        ensures
            edit.key is None,
            edit.name is None,
            edit.description is None,
            edit.url is None,
            edit.lead_account_id is None,
            edit.category_id is None,
            edit.assignee_type is None,
    {
        ProjectEdit {
            key: None,
            name: None,
            description: None,
            url: None,
            lead_account_id: None,
            category_id: None,
            assignee_type: None,
        }
    }
}

/// A template that a project can be created from.
#[derive(Debug, Clone)]
pub struct ProjectTemplate {
    pub id: &'static str,
    pub description: &'static str,
}

/// A category that projects are filed under.
#[derive(Debug, Clone)]
pub struct ProjectCategory {
    pub id: i64,
    pub name: String,
    pub description: String,
}

/// A scheme that says which fields the issues of a project have.
#[derive(Debug, Clone)]
pub struct FieldConfigurationScheme {
    pub id: i64,
    pub name: String,
    pub description: String,
}

/// One level of an issue security scheme.
#[derive(Debug, Clone)]
pub struct ProjectIssueSecurityLevel {
    pub id: i64,
    pub name: String,
    pub description: String,
}

/// A scheme that says who may see which issues of a project.
#[derive(Debug, Clone)]
pub struct ProjectIssueSecurityScheme {
    pub id: i64,
    pub name: String,
    pub description: String,
    pub default_security_level_id: String,
    pub levels: Vec<ProjectIssueSecurityLevel>,
}

/// The identifier and the description of a template.
pub open spec fn template_view(template: ProjectTemplate) -> (Seq<char>, Seq<char>) {
    (template.id@, template.description@)
}

/// The identifiers and descriptions of a list of templates.
pub open spec fn templates_view(templates: Seq<ProjectTemplate>) -> Seq<(Seq<char>, Seq<char>)> {
    Seq::new(templates.len(), |i: int| template_view(templates[i]))
}

/// The kinds of project, by key.
pub open spec fn type_keys() -> Seq<Seq<char>> {
    seq!["software"@, "business"@, "service_desk"@]
}

/// Every template that a project can be created from: first those for
/// business projects, then those for service desks, then those for software.
pub open spec fn template_table() -> Seq<(Seq<char>, Seq<char>)> {
    seq![
        ("com.atlassian.jira-core-project-templates:jira-core-simplified-content-management"@, "Simplified content management"@),
        ("com.atlassian.jira-core-project-templates:jira-core-simplified-document-approval"@, "Simplified document approval"@),
        ("com.atlassian.jira-core-project-templates:jira-core-simplified-lead-tracking"@, "Simplified lead tracking"@),
        ("com.atlassian.jira-core-project-templates:jira-core-simplified-process-control"@, "Simplified process control"@),
        ("com.atlassian.jira-core-project-templates:jira-core-simplified-procurement"@, "Simplified procurement"@),
        ("com.atlassian.jira-core-project-templates:jira-core-simplified-project-management"@, "Simplified project management"@),
        ("com.atlassian.jira-core-project-templates:jira-core-simplified-recruitment"@, "Simplified recruitment"@),
        ("com.atlassian.jira-core-project-templates:jira-core-simplified-task-tracking"@, "Simplified task tracking"@),
        ("com.atlassian.servicedesk:simplified-it-service-management"@, "Simplified IT service management"@),
        ("com.atlassian.servicedesk:simplified-general-service-desk-it"@, "Simplified general service desk (IT)"@),
        ("com.atlassian.servicedesk:simplified-general-service-desk-business"@, "Simplified general service desk (Business)"@),
        ("com.atlassian.servicedesk:simplified-external-service-desk"@, "Simplified external service desk"@),
        ("com.atlassian.servicedesk:simplified-hr-service-desk"@, "Simplified HR service desk"@),
        ("com.atlassian.servicedesk:simplified-facilities-service-desk"@, "Simplified facilities service desk"@),
        ("com.atlassian.servicedesk:simplified-legal-service-desk"@, "Simplified legal service desk"@),
        ("com.atlassian.servicedesk:simplified-analytics-service-desk"@, "Simplified analytics service desk"@),
        ("com.atlassian.servicedesk:simplified-marketing-service-desk"@, "Simplified marketing service desk"@),
        ("com.atlassian.servicedesk:simplified-design-service-desk"@, "Simplified design service desk"@),
        ("com.atlassian.servicedesk:simplified-sales-service-desk"@, "Simplified sales service desk"@),
        ("com.atlassian.servicedesk:simplified-finance-service-desk"@, "Simplified finance service desk"@),
        ("com.atlassian.servicedesk:next-gen-it-service-desk"@, "Next-gen IT service desk"@),
        ("com.atlassian.servicedesk:next-gen-hr-service-desk"@, "Next-gen HR service desk"@),
        ("com.atlassian.servicedesk:next-gen-legal-service-desk"@, "Next-gen legal service desk"@),
        ("com.atlassian.servicedesk:next-gen-marketing-service-desk"@, "Next-gen marketing service desk"@),
        ("com.atlassian.servicedesk:next-gen-facilities-service-desk"@, "Next-gen facilities service desk"@),
        ("com.atlassian.servicedesk:next-gen-general-service-desk"@, "Next-gen general service desk"@),
        ("com.atlassian.servicedesk:next-gen-general-it-service-desk"@, "Next-gen general service desk (IT)"@),
        ("com.atlassian.servicedesk:next-gen-general-business-service-desk"@, "Next-gen general service desk (Business)"@),
        ("com.atlassian.servicedesk:next-gen-analytics-service-desk"@, "Next-gen analytics service desk"@),
        ("com.atlassian.servicedesk:next-gen-finance-service-desk"@, "Next-gen finance service desk"@),
        ("com.atlassian.servicedesk:next-gen-design-service-desk"@, "Next-gen design service desk"@),
        ("com.atlassian.servicedesk:next-gen-sales-service-desk"@, "Next-gen sales service desk"@),
        ("com.pyxis.greenhopper.jira:gh-simplified-agility-kanban"@, "Agile Kanban"@),
        ("com.pyxis.greenhopper.jira:gh-simplified-agility-scrum"@, "Agile Scrum"@),
        ("com.pyxis.greenhopper.jira:gh-simplified-basic"@, "Basic"@),
        ("com.pyxis.greenhopper.jira:gh-simplified-kanban-classic"@, "Kanban Classic"@),
        ("com.pyxis.greenhopper.jira:gh-simplified-scrum-classic"@, "Scrum Classic"@),
    ]
}

/// Where in the table the templates of a kind of project stand: from the
/// first index up to, not including, the second.
pub open spec fn type_range(project_type_key: Seq<char>) -> Option<(int, int)> {
    if project_type_key == "business"@ {
        Some((0, 8))
    } else if project_type_key == "service_desk"@ {
        Some((8, 32))
    } else if project_type_key == "software"@ {
        Some((32, 37))
    } else {
        None
    }
}

/// The kinds of project, by key.
pub fn project_type_keys() -> (keys: Vec<&'static str>)
    ensures
        Seq::new(keys@.len(), |i: int| keys@[i]@) == type_keys(),
{
    let keys = vec!["software", "business", "service_desk"];
    assert(Seq::new(keys@.len(), |i: int| keys@[i]@) =~= type_keys());
    keys
}

/// Every template that a project can be created from.
pub fn project_templates() -> (templates: Vec<ProjectTemplate>)
    ensures
        templates_view(templates@) == template_table(),
        templates@.len() == 37,
{
    let templates = vec![
        ProjectTemplate { id: "com.atlassian.jira-core-project-templates:jira-core-simplified-content-management", description: "Simplified content management" },
        ProjectTemplate { id: "com.atlassian.jira-core-project-templates:jira-core-simplified-document-approval", description: "Simplified document approval" },
        ProjectTemplate { id: "com.atlassian.jira-core-project-templates:jira-core-simplified-lead-tracking", description: "Simplified lead tracking" },
        ProjectTemplate { id: "com.atlassian.jira-core-project-templates:jira-core-simplified-process-control", description: "Simplified process control" },
        ProjectTemplate { id: "com.atlassian.jira-core-project-templates:jira-core-simplified-procurement", description: "Simplified procurement" },
        ProjectTemplate { id: "com.atlassian.jira-core-project-templates:jira-core-simplified-project-management", description: "Simplified project management" },
        ProjectTemplate { id: "com.atlassian.jira-core-project-templates:jira-core-simplified-recruitment", description: "Simplified recruitment" },
        ProjectTemplate { id: "com.atlassian.jira-core-project-templates:jira-core-simplified-task-tracking", description: "Simplified task tracking" },
        ProjectTemplate { id: "com.atlassian.servicedesk:simplified-it-service-management", description: "Simplified IT service management" },
        ProjectTemplate { id: "com.atlassian.servicedesk:simplified-general-service-desk-it", description: "Simplified general service desk (IT)" },
        ProjectTemplate { id: "com.atlassian.servicedesk:simplified-general-service-desk-business", description: "Simplified general service desk (Business)" },
        ProjectTemplate { id: "com.atlassian.servicedesk:simplified-external-service-desk", description: "Simplified external service desk" },
        ProjectTemplate { id: "com.atlassian.servicedesk:simplified-hr-service-desk", description: "Simplified HR service desk" },
        ProjectTemplate { id: "com.atlassian.servicedesk:simplified-facilities-service-desk", description: "Simplified facilities service desk" },
        ProjectTemplate { id: "com.atlassian.servicedesk:simplified-legal-service-desk", description: "Simplified legal service desk" },
        ProjectTemplate { id: "com.atlassian.servicedesk:simplified-analytics-service-desk", description: "Simplified analytics service desk" },
        ProjectTemplate { id: "com.atlassian.servicedesk:simplified-marketing-service-desk", description: "Simplified marketing service desk" },
        ProjectTemplate { id: "com.atlassian.servicedesk:simplified-design-service-desk", description: "Simplified design service desk" },
        ProjectTemplate { id: "com.atlassian.servicedesk:simplified-sales-service-desk", description: "Simplified sales service desk" },
        ProjectTemplate { id: "com.atlassian.servicedesk:simplified-finance-service-desk", description: "Simplified finance service desk" },
        ProjectTemplate { id: "com.atlassian.servicedesk:next-gen-it-service-desk", description: "Next-gen IT service desk" },
        ProjectTemplate { id: "com.atlassian.servicedesk:next-gen-hr-service-desk", description: "Next-gen HR service desk" },
        ProjectTemplate { id: "com.atlassian.servicedesk:next-gen-legal-service-desk", description: "Next-gen legal service desk" },
        ProjectTemplate { id: "com.atlassian.servicedesk:next-gen-marketing-service-desk", description: "Next-gen marketing service desk" },
        ProjectTemplate { id: "com.atlassian.servicedesk:next-gen-facilities-service-desk", description: "Next-gen facilities service desk" },
        ProjectTemplate { id: "com.atlassian.servicedesk:next-gen-general-service-desk", description: "Next-gen general service desk" },
        ProjectTemplate { id: "com.atlassian.servicedesk:next-gen-general-it-service-desk", description: "Next-gen general service desk (IT)" },
        ProjectTemplate { id: "com.atlassian.servicedesk:next-gen-general-business-service-desk", description: "Next-gen general service desk (Business)" },
        ProjectTemplate { id: "com.atlassian.servicedesk:next-gen-analytics-service-desk", description: "Next-gen analytics service desk" },
        ProjectTemplate { id: "com.atlassian.servicedesk:next-gen-finance-service-desk", description: "Next-gen finance service desk" },
        ProjectTemplate { id: "com.atlassian.servicedesk:next-gen-design-service-desk", description: "Next-gen design service desk" },
        ProjectTemplate { id: "com.atlassian.servicedesk:next-gen-sales-service-desk", description: "Next-gen sales service desk" },
        ProjectTemplate { id: "com.pyxis.greenhopper.jira:gh-simplified-agility-kanban", description: "Agile Kanban" },
        ProjectTemplate { id: "com.pyxis.greenhopper.jira:gh-simplified-agility-scrum", description: "Agile Scrum" },
        ProjectTemplate { id: "com.pyxis.greenhopper.jira:gh-simplified-basic", description: "Basic" },
        ProjectTemplate { id: "com.pyxis.greenhopper.jira:gh-simplified-kanban-classic", description: "Kanban Classic" },
        ProjectTemplate { id: "com.pyxis.greenhopper.jira:gh-simplified-scrum-classic", description: "Scrum Classic" },
    ];
    assert(templates_view(templates@) =~= template_table());
    templates
}

/// Where in the table the templates of a kind of project stand.
pub fn template_range(project_type_key: &str) -> (range: Option<(usize, usize)>)
    ensures
        match range {
            Some((from, to)) => type_range(project_type_key@) == Some((from as int, to as int)),
            None => type_range(project_type_key@) is None,
        },
{
    if str_eq(project_type_key, "business") {
        Some((0, 8))
    } else if str_eq(project_type_key, "service_desk") {
        Some((8, 32))
    } else if str_eq(project_type_key, "software") {
        Some((32, 37))
    } else {
        None
    }
}

/// The templates of a kind of project, in the table's order; none for a kind
/// that the table does not know.
pub fn templates_of_type(project_type_key: &str) -> (templates: Vec<ProjectTemplate>)
    ensures
        templates_view(templates@) == (match type_range(project_type_key@) {
            Some((from, to)) => template_table().subrange(from, to),
            None => Seq::empty(),
        }),
{
    let all = project_templates();
    let mut templates: Vec<ProjectTemplate> = Vec::new();
    match template_range(project_type_key) {
        Some((from, to)) => {
            let mut i: usize = from;
            while i < to
                invariant
                    from <= i <= to <= 37,
                    all@.len() == 37,
                    templates@.len() == i - from,
                    forall|k: int|
                        0 <= k < i - from ==> template_view(templates@[k]) == template_view(
                            all@[from + k],
                        ),
                decreases to - i,
            {
                let template = &all[i];
                templates.push(
                    ProjectTemplate { id: template.id, description: template.description },
                );
                i += 1;
            }
            assert(templates_view(templates@) =~= templates_view(all@).subrange(
                from as int,
                to as int,
            ));
        },
        None => {
            assert(templates_view(templates@) =~= Seq::<(Seq<char>, Seq<char>)>::empty());
        },
    }
    templates
}

/// Who gets unassigned issues, by the place of the answer in the list that is
/// offered: the project's lead first, nobody second.
pub fn assignee_type_at(index: usize) -> (choice: Option<AssigneeType>)
    ensures
        index == 0 ==> choice == Some(AssigneeType::ProjectLead),
        index == 1 ==> choice == Some(AssigneeType::Unassigned),
        index > 1 ==> choice is None,
{
    if index == 0 {
        Some(AssigneeType::ProjectLead)
    } else if index == 1 {
        Some(AssigneeType::Unassigned)
    } else {
        None
    }
}

/// What an answer to the question for a new address means: the word `none`
/// leaves the address as it is; any other answer, an empty one too, sets it.
pub fn url_answer(answer: Option<String>) -> (change: Option<Option<String>>)
    ensures
        match change {
            Some(url) => opt_text(url) == opt_text(answer) && opt_text(answer) != Some("none"@),
            None => opt_text(answer) == Some("none"@),
        },
{
    let keep = match &answer {
        Some(text) => str_eq(text.as_str(), "none"),
        None => false,
    };
    if keep {
        None
    } else {
        Some(answer)
    }
}

/// What a choice from the categories, with `None` offered behind them, means:
/// the identifier of the category at `index`, or no category for the entry behind the last.
pub fn category_answer(index: usize, categories: &Vec<ProjectCategory>) -> (choice: Option<i64>)
    ensures
        choice == (if index < categories@.len() {
            Some(categories@[index as int].id)
        } else {
            None
        }),
{
    if index < categories.len() {
        Some(categories[index].id)
    } else {
        None
    }
}

} // verus!
