use jirascope::jira::{Issue, IssueFields, Priority, Project, ProjectDetailed, Status, User};
use jirascope::state::{get_icon, lookup_issue, lookup_project, ConflictCell, State};
use jirascope::Error;

fn user(name: &str) -> User {
    User {
        display_name: name.to_string(),
        active: true,
        account_id: format!("id-{}", name),
        account_type: "atlassian".to_string(),
    }
}

fn project(key: &str, name: &str) -> ProjectDetailed {
    ProjectDetailed {
        id: 7,
        key: key.to_string(),
        name: name.to_string(),
        description: "d".to_string(),
        lead: user("lead"),
        url: None,
    }
}

fn issue(key: &str, updated: &str) -> Issue {
    Issue {
        id: 1,
        key: key.to_string(),
        fields: IssueFields {
            summary: "s".to_string(),
            description: None,
            priority: Priority {
                name: "High".to_string(),
            },
            status: Status {
                id: 3,
                name: "Open".to_string(),
            },
            assignee: None,
            reporter: user("rep"),
            created: "2024-01-01".to_string(),
            updated: updated.to_string(),
            project: Project {
                id: 7,
                key: "P".to_string(),
                name: "Proj".to_string(),
            },
            parent: None,
        },
    }
}

#[test]
fn new_state_is_empty() {
    let state = State::new();
    assert!(state.projects().is_empty());
    assert!(state.issues().is_empty());
    assert!(!state.dirty());
    assert!(matches!(state.get_current_work_issue(), ConflictCell::Empty));
    assert!(matches!(
        state.get_current_work_project(),
        ConflictCell::Empty
    ));
}

#[test]
fn check_out_issue_once() {
    let mut state = State::new();
    assert!(state.check_out_issue("A-1".to_string()).is_ok());
    assert!(
        matches!(state.get_current_work_issue(), ConflictCell::Armed { key } if key == "A-1")
    );
    match state.check_out_issue("A-2".to_string()) {
        Err(Error::Jirascope { message }) => assert_eq!(message, "Issue already checked out."),
        _ => panic!("a second checkout must fail"),
    }
    assert!(
        matches!(state.get_current_work_issue(), ConflictCell::Armed { key } if key == "A-1")
    );
}

#[test]
fn check_out_project_once() {
    let mut state = State::new();
    assert!(state.check_out_project("P".to_string()).is_ok());
    match state.check_out_project("Q".to_string()) {
        Err(Error::Jirascope { message }) => assert_eq!(message, "Project already checked out."),
        _ => panic!("a second checkout must fail"),
    }
    assert!(
        matches!(state.get_current_work_project(), ConflictCell::Armed { key } if key == "P")
    );
}

#[test]
fn try_return_needs_the_armed_key() {
    let mut state = State::new();
    assert!(!state.try_return_issue("A-1"));
    state.check_out_issue("A-1".to_string()).unwrap();
    assert!(!state.try_return_issue("A-2"));
    assert!(state.try_return_issue("A-1"));
    assert!(matches!(state.get_current_work_issue(), ConflictCell::Empty));
    assert!(!state.try_return_issue("A-1"));

    assert!(!state.try_return_project("P"));
    state.check_out_project("P".to_string()).unwrap();
    assert!(!state.try_return_project("Q"));
    assert!(state.try_return_project("P"));
    assert!(matches!(
        state.get_current_work_project(),
        ConflictCell::Empty
    ));
}

#[test]
fn return_clears_any_cell() {
    let mut state = State::new();
    state.refresh(vec![project("P", "n")], vec![issue("A-1", "t1")]);
    state.check_out_issue("A-1".to_string()).unwrap();
    state.check_out_project("P".to_string()).unwrap();
    state.refresh(vec![], vec![]);
    assert!(matches!(
        state.get_current_work_issue(),
        ConflictCell::Deleted { key } if key == "A-1"
    ));
    assert!(matches!(
        state.get_current_work_project(),
        ConflictCell::Deleted { key } if key == "P"
    ));
    assert!(!state.try_return_issue("A-1"));
    state.return_issue();
    state.return_project();
    assert!(matches!(state.get_current_work_issue(), ConflictCell::Empty));
    assert!(matches!(
        state.get_current_work_project(),
        ConflictCell::Empty
    ));
}

#[test]
fn refresh_marks_changed_issue_outdated() {
    let mut state = State::new();
    state.refresh(vec![], vec![issue("A-1", "t1"), issue("A-2", "t1")]);
    assert!(state.dirty());
    state.check_out_issue("A-1".to_string()).unwrap();
    state.refresh(vec![], vec![issue("A-1", "t1"), issue("A-2", "t2")]);
    assert!(
        matches!(state.get_current_work_issue(), ConflictCell::Armed { key } if key == "A-1")
    );
    state.refresh(vec![], vec![issue("A-1", "t3"), issue("A-2", "t2")]);
    match state.get_current_work_issue() {
        ConflictCell::Outdated { key, old } => {
            assert_eq!(key, "A-1");
            assert_eq!(old, &issue("A-1", "t1"));
        }
        _ => panic!("the issue changed on the server"),
    }
    assert_eq!(state.get_issue("A-1"), Some(issue("A-1", "t3")));
    state.refresh(vec![], vec![issue("A-1", "t4")]);
    match state.get_current_work_issue() {
        ConflictCell::Outdated { old, .. } => assert_eq!(old, &issue("A-1", "t1")),
        _ => panic!("an outdated cell stays as it is"),
    }
}

#[test]
fn refresh_issue_compares_only_time_of_change() {
    let mut state = State::new();
    state.refresh(vec![], vec![issue("A-1", "t1")]);
    state.check_out_issue("A-1".to_string()).unwrap();
    let mut renamed = issue("A-1", "t1");
    renamed.fields.summary = "other".to_string();
    state.refresh(vec![], vec![renamed]);
    assert!(
        matches!(state.get_current_work_issue(), ConflictCell::Armed { key } if key == "A-1")
    );
}

#[test]
fn refresh_marks_changed_project_outdated() {
    let mut state = State::new();
    state.refresh(vec![project("P", "n")], vec![]);
    state.check_out_project("P".to_string()).unwrap();
    state.refresh(vec![project("P", "n")], vec![]);
    assert!(
        matches!(state.get_current_work_project(), ConflictCell::Armed { key } if key == "P")
    );
    state.refresh(vec![project("P", "m")], vec![]);
    match state.get_current_work_project() {
        ConflictCell::Outdated { key, old } => {
            assert_eq!(key, "P");
            assert_eq!(old, &project("P", "n"));
        }
        _ => panic!("the project changed on the server"),
    }
}

#[test]
fn refresh_with_armed_key_new_to_the_list_stays_armed() {
    let mut state = State::new();
    state.check_out_issue("A-9".to_string()).unwrap();
    state.refresh(vec![], vec![issue("A-9", "t1")]);
    assert!(
        matches!(state.get_current_work_issue(), ConflictCell::Armed { key } if key == "A-9")
    );
}

#[test]
fn refresh_without_change_is_not_dirty() {
    let mut state = State::new();
    state.refresh(vec![], vec![]);
    assert!(!state.dirty());
    state.refresh(vec![project("P", "n")], vec![]);
    assert!(state.dirty());
    state.refresh(vec![project("P", "n")], vec![]);
    assert!(state.dirty());
}

#[test]
fn lookups_take_the_first_match() {
    let mut first = project("P", "first");
    first.id = 1;
    let mut second = project("P", "second");
    second.id = 2;
    let list = vec![project("Q", "q"), first.clone(), second];
    assert_eq!(lookup_project(&list, "P"), Some(first.clone()));
    assert_eq!(lookup_project(&list, "R"), None);
    assert_eq!(lookup_issue(&vec![issue("A-1", "t")], "A-1"), Some(issue("A-1", "t")));
    assert_eq!(lookup_issue(&vec![issue("A-1", "t")], "a-1"), None);

    let mut state = State::new();
    state.refresh(list, vec![]);
    assert_eq!(state.get_project_detailed("P"), Some(first));
    assert_eq!(
        state.get_project("P"),
        Some(Project {
            id: 1,
            key: "P".to_string(),
            name: "first".to_string(),
        })
    );
    assert_eq!(state.get_project("none"), None);
}

#[test]
fn to_project_drops_the_details() {
    assert_eq!(
        project("P", "n").to_project(),
        Project {
            id: 7,
            key: "P".to_string(),
            name: "n".to_string(),
        }
    );
}

#[test]
fn icons_mark_the_last_line() {
    assert_eq!(get_icon(0, 1), "└");
    assert_eq!(get_icon(0, 2), "├");
    assert_eq!(get_icon(1, 2), "└");
    assert_eq!(get_icon(0, 0), "├");
}

#[test]
fn user_can_lead_when_active_atlassian() {
    let mut u = user("a");
    assert!(u.can_lead());
    u.active = false;
    assert!(!u.can_lead());
    u.active = true;
    u.account_type = "app".to_string();
    assert!(!u.can_lead());
}
