use jirascope::client::issue_key;
use jirascope::editing::{
    description_in_buffer, field_in_buffer, find_account, issue_buffer_lines, issue_diff_lines,
    issue_edit_from_buffer, key_in_buffer, project_buffer_lines, project_diff_lines,
    project_edit_from_buffer, BufferLine, Face,
};
use jirascope::jira::project::{
    assignee_type_at, category_answer, project_templates, project_type_keys, template_range,
    templates_of_type, url_answer,
};
use jirascope::jira::{
    AssigneeType, AtlassianDoc, Issue, IssueFields, Priority, Project, ProjectCategory,
    ProjectDetailed, Status, User, WrappedId,
};
use jirascope::state::State;
use jirascope::tree::{tree_lines, ButtonKind, TreeLine};
use jirascope::Error;

fn user(name: &str) -> User {
    User {
        display_name: name.to_string(),
        active: true,
        account_id: format!("id-{}", name),
        account_type: "atlassian".to_string(),
    }
}

fn project(key: &str, name: &str, url: Option<&str>) -> ProjectDetailed {
    ProjectDetailed {
        id: 7,
        key: key.to_string(),
        name: name.to_string(),
        description: "about".to_string(),
        lead: user("Ann"),
        url: url.map(|u| u.to_string()),
    }
}

fn issue(id: i64, key: &str, project_key: &str, parent: Option<i64>) -> Issue {
    Issue {
        id,
        key: key.to_string(),
        fields: IssueFields {
            summary: format!("sum {}", key),
            description: None,
            priority: Priority {
                name: "High".to_string(),
            },
            status: Status {
                id: 3,
                name: "Open".to_string(),
            },
            assignee: None,
            reporter: user("rep"),
            created: "c".to_string(),
            updated: "u".to_string(),
            project: Project {
                id: 7,
                key: project_key.to_string(),
                name: "n".to_string(),
            },
            parent: parent.map(WrappedId::new),
        },
    }
}

fn plain(text: &str) -> BufferLine {
    BufferLine {
        text: text.to_string(),
        face: Face::Plain,
    }
}

fn faced(text: &str, face: Face) -> BufferLine {
    BufferLine {
        text: text.to_string(),
        face,
    }
}

fn tree_line(lead: &str, key: &str, button: ButtonKind, tail: &str) -> TreeLine {
    TreeLine {
        lead: lead.to_string(),
        key: key.to_string(),
        button,
        tail: tail.to_string(),
    }
}

#[test]
fn key_is_first_line_without_stars() {
    assert_eq!(key_in_buffer("* ABC-1 *\nSummary: s\n"), "ABC-1");
    assert_eq!(key_in_buffer("* * ABC-1 * *\nx"), "ABC-1");
    assert_eq!(key_in_buffer("ABC-1"), "ABC-1");
    assert_eq!(key_in_buffer("* ABC-1 *\r\nrest"), "ABC-1");
    assert_eq!(key_in_buffer(""), "");
    assert_eq!(key_in_buffer("\n* ABC-1 *"), "");
    assert_eq!(key_in_buffer("* *"), "*");
    assert_eq!(key_in_buffer("*  *"), "");
}

#[test]
fn key_agrees_with_std_trimming() {
    for content in ["* A *", "* * A", "A * *", "*A*", "* é *\nb", " * A * "] {
        let expected = content
            .lines()
            .next()
            .unwrap()
            .trim_start_matches("* ")
            .trim_end_matches(" *");
        assert_eq!(key_in_buffer(content), expected, "{:?}", content);
    }
}

#[test]
fn field_is_first_labelled_line() {
    let content = "* K *\nSummary: first\nStatus: Open\nSummary: second\n";
    assert_eq!(
        field_in_buffer(content, "Summary: "),
        Some("first".to_string())
    );
    assert_eq!(field_in_buffer(content, "Status: "), Some("Open".to_string()));
    assert_eq!(field_in_buffer(content, "Name: "), None);
    assert_eq!(field_in_buffer("x Summary: y", "Summary: "), None);
    assert_eq!(
        field_in_buffer("Summary: Summary: twice", "Summary: "),
        Some("twice".to_string())
    );
    assert_eq!(field_in_buffer("Summary: ", "Summary: "), Some(String::new()));
    assert_eq!(
        field_in_buffer("a\r\nSummary: é\r\nb", "Summary: "),
        Some("é".to_string())
    );
    assert_eq!(field_in_buffer("", "Summary: "), None);
    assert_eq!(
        field_in_buffer("\n\nSummary: late", "Summary: "),
        Some("late".to_string())
    );
}

#[test]
fn field_agrees_with_std_lines() {
    let contents = [
        "Name: a\nName: b",
        "x\nName: Name: b\r\n",
        "Name:\nName: \n",
        "Name: last",
        "\n",
        "a\rName: b\nName: c\r",
    ];
    for content in contents {
        let expected = content
            .lines()
            .find(|l| l.starts_with("Name: "))
            .map(|l| l.trim_start_matches("Name: ").to_string());
        assert_eq!(field_in_buffer(content, "Name: "), expected, "{:?}", content);
    }
}

#[test]
fn description_is_everything_behind_the_label() {
    assert_eq!(
        description_in_buffer("* K *\nDescription: one\ntwo\n"),
        "one\ntwo\n"
    );
    assert_eq!(description_in_buffer("no label"), "no label");
    assert_eq!(description_in_buffer("Description: "), "");
    assert_eq!(
        description_in_buffer("a Description: b Description: c"),
        "b Description: c"
    );
    assert_eq!(description_in_buffer(""), "");
    assert_eq!(description_in_buffer("é Description: ü"), "ü");
}

#[test]
fn issue_edit_from_buffer_reads_fields() {
    let (key, edit) =
        issue_edit_from_buffer("* ABC-1 *\nSummary: New title\nStatus: Open\nDescription: **b**\n");
    assert_eq!(key, "ABC-1");
    assert_eq!(edit.fields.summary, Some("New title".to_string()));
    assert_eq!(
        edit.fields.description,
        Some(AtlassianDoc::from_markdown("**b**\n"))
    );
    assert!(edit.fields.priority.is_none());
    assert!(edit.fields.status.is_none());
    assert!(edit.fields.assignee.is_none());

    let (key, edit) = issue_edit_from_buffer("* ABC-1 *\nDescription: ");
    assert_eq!(key, "ABC-1");
    assert_eq!(edit.fields.summary, None);
    assert_eq!(edit.fields.description, None);

    let (_, edit) = issue_edit_from_buffer("plain");
    assert_eq!(
        edit.fields.description,
        Some(AtlassianDoc::from_markdown("plain"))
    );
}

#[test]
fn project_edit_from_buffer_reads_fields() {
    let users = vec![user("Ann"), user("Bob")];
    let content = "* NEW *\nName: Renamed\nDescription: d\nURL: http://x\nLead: Bob\n";
    let (key, edit) = project_edit_from_buffer(content, &users).unwrap();
    assert_eq!(key, "NEW");
    assert_eq!(edit.key, Some("NEW".to_string()));
    assert_eq!(edit.name, Some("Renamed".to_string()));
    assert_eq!(edit.description, Some("d".to_string()));
    assert_eq!(edit.url, Some(Some("http://x".to_string())));
    assert_eq!(edit.lead_account_id, Some("id-Bob".to_string()));
    assert!(edit.category_id.is_none());
    assert!(edit.assignee_type.is_none());
}

#[test]
fn project_edit_from_buffer_edge_cases() {
    let users = vec![user("Ann")];
    let (key, edit) = project_edit_from_buffer("\nURL: None\n", &users).unwrap();
    assert_eq!(key, "");
    assert_eq!(edit.key, None);
    assert_eq!(edit.name, None);
    assert_eq!(edit.url, None);
    assert_eq!(edit.lead_account_id, None);

    let (_, edit) = project_edit_from_buffer("* K *\nURL: ", &users).unwrap();
    assert_eq!(edit.url, Some(Some(String::new())));

    match project_edit_from_buffer("* K *\nLead: Zed", &users) {
        Err(Error::Jirascope { message }) => assert_eq!(message, "Invalid user."),
        _ => panic!("an unknown lead must be refused"),
    }
    assert!(project_edit_from_buffer("* K *\nLead: Zed", &[].to_vec()).is_err());
}

#[test]
fn find_account_takes_first_user_of_that_name() {
    let mut twin = user("Ann");
    twin.account_id = "other".to_string();
    let users = vec![user("Bob"), user("Ann"), twin];
    assert_eq!(find_account(&users, "Ann"), Some("id-Ann".to_string()));
    assert_eq!(find_account(&users, "ann"), None);
}

#[test]
fn issue_buffer_shows_fields() {
    let mut shown = issue(1, "ABC-1", "P", None);
    assert_eq!(
        issue_buffer_lines("ABC-1", &shown),
        vec![
            faced("* ABC-1 *", Face::Key),
            plain("Summary: sum ABC-1"),
            plain("Status: Open"),
        ]
    );
    shown.fields.description = Some(AtlassianDoc::text("hello"));
    assert_eq!(
        issue_buffer_lines("X", &shown),
        vec![
            faced("* X *", Face::Key),
            plain("Summary: sum ABC-1"),
            plain("Status: Open"),
            plain("Description: hello\n"),
        ]
    );
}

#[test]
fn project_buffer_shows_fields() {
    assert_eq!(
        project_buffer_lines(&project("P", "Proj", None)),
        vec![
            faced("* P *", Face::Key),
            plain("Name: Proj"),
            plain("Description: about"),
            plain("URL: None"),
            plain("Lead: Ann"),
        ]
    );
    assert_eq!(
        project_buffer_lines(&project("P", "Proj", Some("http://x")))[3],
        plain("URL: http://x")
    );
}

#[test]
fn project_buffer_reads_back() {
    let shown = project("P", "Proj", Some("http://x"));
    let content: String = project_buffer_lines(&shown)
        .iter()
        .map(|l| format!("{}\n", l.text))
        .collect();
    let (key, edit) = project_edit_from_buffer(&content, &[user("Ann")].to_vec()).unwrap();
    assert_eq!(key, "P");
    assert_eq!(edit.name, Some("Proj".to_string()));
    assert_eq!(edit.description, Some("about".to_string()));
    assert_eq!(edit.url, Some(Some("http://x".to_string())));
    assert_eq!(edit.lead_account_id, Some("id-Ann".to_string()));
}

#[test]
fn diff_lines_by_cell() {
    let mut state = State::new();
    assert!(issue_diff_lines(&state).is_empty());
    assert!(project_diff_lines(&state).is_empty());

    let mut old_issue = issue(1, "A-1", "P", None);
    old_issue.fields.updated = "t1".to_string();
    state.refresh(vec![project("P", "old", None)], vec![old_issue.clone()]);
    state.check_out_issue("A-1".to_string()).unwrap();
    state.check_out_project("P".to_string()).unwrap();
    assert!(issue_diff_lines(&state).is_empty());

    let mut new_issue = issue(1, "A-1", "P", None);
    new_issue.fields.updated = "t2".to_string();
    new_issue.fields.summary = "changed".to_string();
    state.refresh(vec![project("P", "new", Some("u"))], vec![new_issue]);
    assert_eq!(
        issue_diff_lines(&state),
        vec![
            faced("* A-1 *", Face::Key),
            faced("Issue was changed since last access.", Face::Alert),
            faced("Old:", Face::Alert),
            faced("Summary: sum A-1", Face::Old),
            faced("Status: Open", Face::Old),
            faced("New:", Face::Alert),
            faced("Summary: changed", Face::New),
            faced("Status: Open", Face::New),
        ]
    );
    assert_eq!(
        project_diff_lines(&state),
        vec![
            faced("* P *", Face::Key),
            faced("Issue was changed since last access.", Face::Alert),
            faced("Old:", Face::Alert),
            faced("* P *", Face::Old),
            faced("Name: old", Face::Old),
            faced("Description: about", Face::Old),
            faced("Lead: Ann", Face::Old),
            faced("New:", Face::Alert),
            faced("* P *", Face::New),
            faced("Name: new", Face::New),
            faced("Description: about", Face::New),
            faced("URL: u", Face::New),
            faced("Lead: Ann", Face::New),
        ]
    );

    let mut gone = State::new();
    gone.refresh(vec![project("P", "n", None)], vec![issue(1, "A-1", "P", None)]);
    gone.check_out_issue("A-1".to_string()).unwrap();
    gone.check_out_project("P".to_string()).unwrap();
    gone.refresh(vec![], vec![]);
    assert_eq!(
        issue_diff_lines(&gone),
        vec![
            faced("* A-1 *", Face::Key),
            faced("Issue was deleted.", Face::Alert),
        ]
    );
    assert_eq!(
        project_diff_lines(&gone),
        vec![
            faced("* P *", Face::Key),
            faced("Issue was deleted.", Face::Alert),
        ]
    );
}

#[test]
fn tree_orders_issues_and_subtasks_by_id() {
    let mut state = State::new();
    state.refresh(
        vec![project("P", "First", None), project("Q", "Second", None)],
        vec![
            issue(30, "P-30", "P", None),
            issue(12, "P-12", "P", Some(10)),
            issue(10, "P-10", "P", None),
            issue(5, "Q-5", "Q", None),
            issue(11, "P-11", "P", Some(10)),
            issue(31, "P-31", "P", Some(30)),
            issue(99, "P-99", "P", Some(1234)),
        ],
    );
    assert_eq!(
        tree_lines(&state),
        vec![
            tree_line("", "P", ButtonKind::Project, ": First"),
            tree_line("├ ", "P-10", ButtonKind::Issue, ": sum P-10 - Open"),
            tree_line("  ├ ", "P-11", ButtonKind::Issue, ": sum P-11 - Open"),
            tree_line("  └ ", "P-12", ButtonKind::Issue, ": sum P-12 - Open"),
            tree_line("└ ", "P-30", ButtonKind::Issue, ": sum P-30 - Open"),
            tree_line("  └ ", "P-31", ButtonKind::Issue, ": sum P-31 - Open"),
            tree_line("", "Q", ButtonKind::Project, ": Second"),
            tree_line("└ ", "Q-5", ButtonKind::Issue, ": sum Q-5 - Open"),
        ]
    );
}

#[test]
fn tree_keeps_order_of_equal_ids_and_handles_empty() {
    let mut state = State::new();
    assert!(tree_lines(&state).is_empty());
    state.refresh(
        vec![project("P", "n", None)],
        vec![
            issue(1, "b", "P", None),
            issue(1, "a", "P", None),
            issue(0, "z", "P", None),
        ],
    );
    let keys: Vec<String> = tree_lines(&state).into_iter().map(|l| l.key).collect();
    assert_eq!(keys, ["P", "z", "b", "a"]);
    state.refresh(vec![project("P", "n", None)], vec![]);
    assert_eq!(
        tree_lines(&state),
        vec![tree_line("", "P", ButtonKind::Project, ": n")]
    );
}

#[test]
fn template_tables() {
    assert_eq!(
        project_type_keys(),
        ["software", "business", "service_desk"]
    );
    let all = project_templates();
    assert_eq!(all.len(), 37);
    assert_eq!(
        all[0].id,
        "com.atlassian.jira-core-project-templates:jira-core-simplified-content-management"
    );
    assert_eq!(all[0].description, "Simplified content management");
    assert_eq!(all[36].id, "com.pyxis.greenhopper.jira:gh-simplified-scrum-classic");
    assert_eq!(all[36].description, "Scrum Classic");
    assert_eq!(template_range("business"), Some((0, 8)));
    assert_eq!(template_range("service_desk"), Some((8, 32)));
    assert_eq!(template_range("software"), Some((32, 37)));
    assert_eq!(template_range("hardware"), None);
    let software = templates_of_type("software");
    assert_eq!(software.len(), 5);
    assert_eq!(software[0].description, "Agile Kanban");
    assert_eq!(software[4].description, "Scrum Classic");
    let desks = templates_of_type("service_desk");
    assert_eq!(desks.len(), 24);
    assert!(desks.iter().all(|t| t.id.starts_with("com.atlassian.servicedesk:")));
    assert_eq!(templates_of_type("business").len(), 8);
    assert!(templates_of_type("").is_empty());
}

#[test]
fn answers_to_prompts() {
    assert!(matches!(assignee_type_at(0), Some(AssigneeType::ProjectLead)));
    assert!(matches!(assignee_type_at(1), Some(AssigneeType::Unassigned)));
    assert!(assignee_type_at(2).is_none());
    assert_eq!(url_answer(Some("none".to_string())), None);
    assert_eq!(url_answer(None), Some(None));
    assert_eq!(
        url_answer(Some("http://x".to_string())),
        Some(Some("http://x".to_string()))
    );
    let categories = vec![
        ProjectCategory {
            id: 4,
            name: "a".to_string(),
            description: String::new(),
        },
        ProjectCategory {
            id: 9,
            name: "b".to_string(),
            description: String::new(),
        },
    ];
    assert_eq!(category_answer(0, &categories), Some(4));
    assert_eq!(category_answer(1, &categories), Some(9));
    assert_eq!(category_answer(2, &categories), None);
    assert_eq!(issue_key("ABC", "12"), "ABC-12");
}
