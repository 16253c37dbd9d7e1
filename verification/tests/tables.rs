use jirascope::jira::ErrorCollection;
use jirascope::table::{
    tuples_to_md_table, write_tuples_to_md_table, write_tuples_to_pyplot_data, AsRow,
};
use jirascope::text::{push_decimal, push_repeated, str_eq};
use jirascope::Error;

fn row(cells: &[&str]) -> Vec<String> {
    cells.iter().map(|c| c.to_string()).collect()
}

#[test]
fn md_table_with_rows() {
    let rows = vec![row(&["1", "2"]), row(&["3", "4"])];
    assert_eq!(
        tuples_to_md_table(&["a", "b"], &rows),
        "| a | b | \n| --- | --- |\n| 1 |2 |\n| 3 |4 |\n"
    );
}

#[test]
fn md_table_without_rows_or_titles() {
    let none: Vec<Vec<String>> = Vec::new();
    assert_eq!(tuples_to_md_table(&["a"], &none), "| a | \n| --- |\n");
    assert_eq!(tuples_to_md_table(&[], &none), "| \n|\n");
    assert_eq!(tuples_to_md_table(&[], &[row(&[])]), "| \n|\n| \n");
}

#[test]
fn md_table_appends_to_writer() {
    let mut out = String::from("x");
    write_tuples_to_md_table(&mut out, &["t"], &[row(&["c"])]);
    assert_eq!(out, "x| t | \n| --- |\n| c |\n");
}

#[test]
fn pyplot_data_with_rows() {
    let mut out = String::new();
    write_tuples_to_pyplot_data(&mut out, &["a", "b"], &[row(&["1", "2"]), row(&["3", "4"])]);
    assert_eq!(
        out,
        "labels = ['a', 'b', ]\ndata = [[1, 2, ], [3, 4, ], ]\n"
    );
}

#[test]
fn pyplot_data_without_rows() {
    let none: Vec<Vec<String>> = Vec::new();
    let mut out = String::new();
    write_tuples_to_pyplot_data(&mut out, &[], &none);
    assert_eq!(out, "labels = []\ndata = []\n");
}

#[test]
fn vec_of_strings_is_its_own_row() {
    assert_eq!(row(&["a", "b"]).as_row(), row(&["a", "b"]));
}

#[test]
fn decimal_of_numbers() {
    for n in [0usize, 7, 9, 10, 11, 99, 100, 12345, usize::MAX] {
        let mut out = String::from("n=");
        push_decimal(&mut out, n);
        assert_eq!(out, format!("n={}", n));
    }
}

#[test]
fn repeated_units() {
    let mut out = String::from(">");
    push_repeated(&mut out, "ab", 3);
    assert_eq!(out, ">ababab");
    push_repeated(&mut out, "c", 0);
    assert_eq!(out, ">ababab");
}

#[test]
fn str_eq_compares_characters() {
    assert!(str_eq("", ""));
    assert!(str_eq("héllo", "héllo"));
    assert!(!str_eq("hello", "hellp"));
    assert!(!str_eq("hello", "hell"));
    assert!(!str_eq("a", "A"));
}

#[test]
fn error_collection_text() {
    let none = ErrorCollection {
        error_messages: vec![],
        errors: vec![],
    };
    assert_eq!(none.to_string(), "Unknown error");
    let one = ErrorCollection {
        error_messages: vec!["bad".to_string()],
        errors: vec![],
    };
    assert_eq!(one.to_string(), "bad");
    let field = ErrorCollection {
        error_messages: vec![],
        errors: vec![("summary".to_string(), "is required".to_string())],
    };
    assert_eq!(field.to_string(), "summary: is required");
    let many = ErrorCollection {
        error_messages: vec!["bad".to_string(), "worse".to_string()],
        errors: vec![
            ("a".to_string(), "x".to_string()),
            ("b".to_string(), "y".to_string()),
        ],
    };
    assert_eq!(many.to_string(), "bad, worse, a: x, b: y");
}

#[test]
fn error_text_of_each_variant() {
    assert_eq!(
        Error::jirascope("Empty string not allowed.").to_string(),
        "Jirascope error: Empty string not allowed."
    );
    assert_eq!(Error::auth("denied").to_string(), "Auth error: denied");
    assert_eq!(
        Error::Io("file not found".to_string()).to_string(),
        "IO error: file not found"
    );
    assert_eq!(
        Error::Ureq("timed out".to_string()).to_string(),
        "Ureq error: timed out"
    );
    let errors = ErrorCollection {
        error_messages: vec!["Issue does not exist".to_string()],
        errors: vec![],
    };
    assert_eq!(
        Error::Jira(404, errors).to_string(),
        "Jira error 404: Issue does not exist"
    );
}
