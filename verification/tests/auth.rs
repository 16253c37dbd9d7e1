use jirascope::request::{ApiRequest, Method};
use jirascope::{Auth, Config, Jirascope};

#[test]
fn basic_auth() {
    let mut auth = Auth::new("username", "api_token");
    assert_eq!(auth.get_basic_auth(), "dXNlcm5hbWU6YXBpX3Rva2Vu");
}

#[test]
fn auth() {
    let mut auth = Auth::new("username", "api_token");
    let request = ApiRequest::get("https://example.com");
    let request = auth.auth(request);
    assert_eq!(
        request.header("Authorization").unwrap(),
        "Basic dXNlcm5hbWU6YXBpX3Rva2Vu"
    );
}

#[test]
fn auth_with_login() {
    let mut auth = Auth::new("username", "api_token");
    let config = Config::new("https://example.atlassian.net");
    auth.login(&config).unwrap();

    let request = ApiRequest::get("https://example.com");
    let request = auth.auth(request);
    assert_eq!(
        request.header("Authorization").unwrap(),
        "Basic dXNlcm5hbWU6YXBpX3Rva2Vu"
    );
}

#[test]
fn basic_auth_is_stable_across_calls() {
    let mut auth = Auth::new("a", "b");
    let first = auth.get_basic_auth();
    let second = auth.get_basic_auth();
    assert_eq!(first, "YTpi");
    assert_eq!(first, second);
}

#[test]
fn basic_auth_of_empty_credentials() {
    let mut auth = Auth::new("", "");
    assert_eq!(auth.get_basic_auth(), "Og==");
}

#[test]
fn auth_keeps_method_and_url() {
    let mut auth = Auth::new("username", "api_token");
    let request = auth.auth(ApiRequest::new(Method::Put, "https://example.com/x"));
    assert_eq!(request.method(), Method::Put);
    assert_eq!(request.url(), "https://example.com/x");
}

#[test]
fn request_set_adds_and_replaces() {
    let request = ApiRequest::get("u");
    assert_eq!(request.header("Accept"), None);
    let request = request.set("Accept", "text/plain").set("X-Trace", "1");
    assert_eq!(request.header("Accept"), Some("text/plain"));
    assert_eq!(request.header("X-Trace"), Some("1"));
    let request = request.set("Accept", "application/json");
    assert_eq!(request.header("Accept"), Some("application/json"));
    assert_eq!(request.header("X-Trace"), Some("1"));
    assert_eq!(request.header("accept"), None);
}

#[test]
fn client_builds_issue_request() {
    let mut client = Jirascope::new(
        Config::new("https://example.atlassian.net"),
        Auth::new("username", "api_token"),
    );
    client.init().unwrap();
    let request = client.get_issue("ABC-1");
    assert_eq!(request.method(), Method::Get);
    assert_eq!(
        request.url(),
        "https://example.atlassian.net/rest/api/3/issue/ABC-1"
    );
    assert_eq!(
        request.header("Authorization"),
        Some("Basic dXNlcm5hbWU6YXBpX3Rva2Vu")
    );
}

#[test]
fn client_builds_fixed_paths() {
    let mut client = Jirascope::new(Config::new("http://j"), Auth::new("u", "t"));
    assert_eq!(client.get_users().url(), "http://j/rest/api/3/users/search");
    assert_eq!(
        client.get_projects().url(),
        "http://j/rest/api/3/project?expand=description,lead,url"
    );
    assert_eq!(client.get_all_issues().url(), "http://j/rest/api/3/search");
    assert_eq!(client.get_issue_events().url(), "http://j/rest/api/3/events");
    assert_eq!(
        client.get_issue_creation_meta().url(),
        "http://j/rest/api/3/issue/createmeta"
    );
    assert_eq!(
        client.get_issue_edit_meta("K-2").url(),
        "http://j/rest/api/3/issue/K-2/editmeta"
    );
    assert_eq!(
        client.get_issue_transitions("K-2").url(),
        "http://j/rest/api/3/issue/K-2/transitions"
    );
    assert_eq!(
        client.get_project_categories().url(),
        "http://j/rest/api/3/projectCategory"
    );
    assert_eq!(
        client.get_issue_security_schemes().url(),
        "http://j/rest/api/3/issuesecurityschemes"
    );
    let delete = client.delete_issue("K-2");
    assert_eq!(delete.method(), Method::Delete);
    assert_eq!(delete.url(), "http://j/rest/api/3/issue/K-2");
    let delete = client.delete_project("K");
    assert_eq!(delete.method(), Method::Delete);
    assert_eq!(delete.url(), "http://j/rest/api/3/project/K");
}

#[test]
fn client_pages_field_configuration_schemes() {
    let mut client = Jirascope::new(Config::new("http://j"), Auth::new("u", "t"));
    assert_eq!(
        client.get_field_configuration_schemes().url(),
        "http://j/rest/api/3/fieldconfigurationscheme?startAt=0&maxResults=50"
    );
    assert_eq!(
        client.api_get_depaginated("fieldconfigurationscheme", 150).url(),
        "http://j/rest/api/3/fieldconfigurationscheme?startAt=150&maxResults=50"
    );
}

#[test]
fn next_page_steps_by_page_size() {
    assert_eq!(jirascope::client::next_page(0, false), Some(50));
    assert_eq!(jirascope::client::next_page(50, false), Some(100));
    assert_eq!(jirascope::client::next_page(50, true), None);
    assert_eq!(jirascope::client::next_page(usize::MAX - 49, false), None);
    assert_eq!(
        jirascope::client::next_page(usize::MAX - 50, false),
        Some(usize::MAX)
    );
}
