use jirascope::jira::{
    Issue, IssueCreationMeta, IssueFields, IssueType, Priority, Project, ProjectIssueCreationMeta,
    Status, User,
};
use jirascope::notes::{self, Note, NoteStore};
use jirascope::prompt::{
    force_prompt_string, issue_types_of, leads, non_empty, parent_candidates, position_of,
    signal_result,
};
use jirascope::request::Method;
use jirascope::table::{tuples_to_md_table, write_tuples_to_pyplot_data, AsRow};
use jirascope::Error;

fn user(name: &str, active: bool, kind: &str) -> User {
    User {
        display_name: name.to_string(),
        active,
        account_id: name.to_string(),
        account_type: kind.to_string(),
    }
}

fn issue(id: i64, key: &str, project_key: &str) -> Issue {
    Issue {
        id,
        key: key.to_string(),
        fields: IssueFields {
            summary: String::new(),
            description: None,
            priority: Priority {
                name: String::new(),
            },
            status: Status {
                id: 0,
                name: String::new(),
            },
            assignee: None,
            reporter: user("r", true, "atlassian"),
            created: String::new(),
            updated: String::new(),
            project: Project {
                id: 0,
                key: project_key.to_string(),
                name: String::new(),
            },
            parent: None,
        },
    }
}

fn kind(name: &str) -> IssueType {
    IssueType {
        id: name.to_string(),
        name: name.to_string(),
        description: String::new(),
        is_subtask: false,
        fields: None,
    }
}

#[test]
fn position_of_first_equal_choice() {
    let choices = vec!["a".to_string(), "b".to_string(), "a".to_string()];
    assert_eq!(position_of(&choices, "a"), Some(0));
    assert_eq!(position_of(&choices, "b"), Some(1));
    assert_eq!(position_of(&choices, "c"), None);
    assert_eq!(position_of(&Vec::new(), "a"), None);
}

#[test]
fn empty_answers() {
    assert_eq!(non_empty(None), None);
    assert_eq!(non_empty(Some(String::new())), None);
    assert_eq!(non_empty(Some("x".to_string())), Some("x".to_string()));
    assert_eq!(force_prompt_string(Some("x".to_string())).unwrap(), "x");
    match force_prompt_string(None) {
        Err(Error::Jirascope { message }) => assert_eq!(message, "Empty string not allowed."),
        _ => panic!("a missing answer must be refused"),
    }
}

#[test]
fn signal_by_outcome() {
    let won = signal_result(true, "Issue edited.", "Failed to edit issue.");
    assert!(won.refresh);
    assert_eq!(won.message, "Issue edited.");
    let lost = signal_result(false, "Issue edited.", "Failed to edit issue.");
    assert!(!lost.refresh);
    assert_eq!(lost.message, "Failed to edit issue.");
}

#[test]
fn leads_are_active_atlassian_accounts() {
    let users = vec![
        user("a", true, "atlassian"),
        user("b", false, "atlassian"),
        user("c", true, "app"),
        user("d", true, "atlassian"),
    ];
    let able: Vec<String> = leads(&users).into_iter().map(|u| u.display_name).collect();
    assert_eq!(able, ["a", "d"]);
    assert!(leads(&Vec::new()).is_empty());
}

#[test]
fn parent_candidates_of_project() {
    let issues = vec![issue(3, "P-3", "P"), issue(1, "Q-1", "Q"), issue(2, "P-2", "P")];
    assert_eq!(
        parent_candidates(&issues, "P"),
        vec![(3, "P-3".to_string()), (2, "P-2".to_string())]
    );
    assert!(parent_candidates(&issues, "R").is_empty());
}

#[test]
fn issue_types_of_project() {
    let meta = || IssueCreationMeta {
        projects: vec![
            ProjectIssueCreationMeta {
                id: 1,
                key: "A".to_string(),
                name: "a".to_string(),
                issue_types: vec![kind("Bug")],
            },
            ProjectIssueCreationMeta {
                id: 2,
                key: "B".to_string(),
                name: "b".to_string(),
                issue_types: vec![kind("Task"), kind("Story")],
            },
        ],
    };
    let names = |types: Option<Vec<IssueType>>| {
        types.map(|t| t.into_iter().map(|k| k.name).collect::<Vec<_>>())
    };
    assert_eq!(
        names(issue_types_of(meta(), 2)),
        Some(vec!["Task".to_string(), "Story".to_string()])
    );
    assert_eq!(names(issue_types_of(meta(), 1)), Some(vec!["Bug".to_string()]));
    assert_eq!(names(issue_types_of(meta(), 3)), None);
}

#[test]
fn note_store_numbers_notes_by_place() {
    let mut store = NoteStore::new();
    assert!(store.get_notes().is_empty());
    let fresh = |m: &str| Note {
        id: None,
        message: m.to_string(),
    };
    let (status, note) = store.create_note(fresh("first"));
    assert_eq!(status, 201);
    assert_eq!(
        note,
        Some(Note {
            id: Some(0),
            message: "first".to_string()
        })
    );
    let (status, note) = store.create_note(fresh("second"));
    assert_eq!(status, 201);
    assert_eq!(note.unwrap().id, Some(1));
    let (status, note) = store.create_note(Note {
        id: Some(7),
        message: "x".to_string(),
    });
    assert_eq!(status, 400);
    assert_eq!(note, None);
    assert_eq!(store.get_notes().len(), 2);

    let (status, note) = store.get_note_by_id(1);
    assert_eq!(status, 200);
    assert_eq!(note.unwrap().message, "second");
    assert_eq!(store.get_note_by_id(2), (404, None));

    let sent = Note {
        id: None,
        message: "changed".to_string(),
    };
    let (status, note) = store.update_note_by_id(0, sent.clone());
    assert_eq!(status, 200);
    assert_eq!(note, Some(sent.clone()));
    assert_eq!(
        store.get_notes(),
        vec![
            Note {
                id: Some(0),
                message: "changed".to_string()
            },
            Note {
                id: Some(1),
                message: "second".to_string()
            },
        ]
    );
    assert_eq!(store.update_note_by_id(5, sent), (404, None));
}

#[test]
fn note_requests() {
    let (request, note) = notes::register_note("m".to_string());
    assert_eq!(request.method(), Method::Post);
    assert_eq!(request.url(), "http://localhost:1937/notes");
    assert_eq!(request.header("Authorization"), None);
    assert_eq!(
        note,
        Note {
            id: None,
            message: "m".to_string()
        }
    );
    let request = notes::get_notes();
    assert_eq!(request.method(), Method::Get);
    assert_eq!(request.url(), "http://localhost:1937/notes");
    let request = notes::get_note_by_id(12);
    assert_eq!(request.method(), Method::Get);
    assert_eq!(request.url(), "http://localhost:1937/notes/12");
    let (request, note) = notes::update_note_by_id(3, "n".to_string());
    assert_eq!(request.method(), Method::Put);
    assert_eq!(request.url(), "http://localhost:1937/notes/3");
    assert_eq!(
        note,
        Note {
            id: Some(3),
            message: "n".to_string()
        }
    );
}

#[test]
fn tuples_are_rows() {
    assert_eq!((1,).as_row(), ["1"]);
    assert_eq!((1, "two", 'c').as_row(), ["1", "two", "c"]);
    assert_eq!(
        (1, 2, 3, 4, 5, 6, 7, 8).as_row(),
        ["1", "2", "3", "4", "5", "6", "7", "8"]
    );
    assert_eq!(
        tuples_to_md_table(&["Caller", "Time"], &[("Rust", 12), ("ELisp", 340)]),
        "| Caller | Time | \n| --- | --- |\n| Rust |12 |\n| ELisp |340 |\n"
    );
    let mut out = String::new();
    write_tuples_to_pyplot_data(&mut out, &["n"], &[(1u8,), (2u8,)]);
    assert_eq!(out, "labels = ['n', ]\ndata = [[1, ], [2, ], ]\n");
}
