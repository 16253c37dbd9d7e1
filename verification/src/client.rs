//! The requests of the REST interface, one function for each operation.

use crate::auth::{authorization, Auth};
use crate::config::Config;
use crate::error::Error;
use crate::jira::issue::{IssueCreation, IssueEdit, IssueTransition, IssueTransitionDescriptor};
use crate::jira::project::{ProjectCreate, ProjectEdit};
use crate::request::{ApiRequest, Method};
use crate::text::{decimal, push_decimal};
use vstd::prelude::*;
use vstd::string::*;

verus! {

/// The number of items asked for in one page of a paged list.
pub const PAGE_SIZE: usize = 50;

/// The address of a resource of the REST interface, version 3.
pub open spec fn endpoint(api_url: Seq<char>, path: Seq<char>) -> Seq<char> {
    api_url + "/rest/api/3/"@ + path
}

/// The path of one page of a paged list: the page that starts at `start_at`
/// and holds at most `PAGE_SIZE` items.
pub open spec fn page_path(path: Seq<char>, start_at: nat) -> Seq<char> {
    path + "?startAt="@ + decimal(start_at) + "&maxResults="@ + decimal(PAGE_SIZE as nat)
}

/// A request for `path` under `api_url` that carries the given credentials and nothing else.
pub open spec fn is_call(
    request: ApiRequest,
    method: Method,
    api_url: Seq<char>,
    path: Seq<char>,
    credentials: Seq<char>,
) -> bool {
    &&& request.spec_method() == method
    &&& request.spec_url() == endpoint(api_url, path)
    &&& request.spec_headers() == Map::<Seq<char>, Seq<char>>::empty().insert(
        "Authorization"@,
        authorization(credentials),
    )
}

/// What a request carries as its JSON body.
#[derive(Debug)]
pub enum Body {
    IssueCreation(IssueCreation),
    IssueEdit(IssueEdit),
    IssueTransition(IssueTransition),
    ProjectCreate(ProjectCreate),
    ProjectEdit(ProjectEdit),
}

/// A request together with the body to send with it.
#[derive(Debug)]
pub struct Call {
    pub request: ApiRequest,
    pub body: Body,
}

/// Where the next page of a paged list starts: `PAGE_SIZE` items further, or
/// nowhere once the server has marked a page as the last.
pub fn next_page(start_at: usize, is_last: bool) -> (next: Option<usize>)
    ensures
        next == (if is_last || start_at + PAGE_SIZE > usize::MAX {
            None
        } else {
            Some((start_at + PAGE_SIZE) as usize)
        }),
{
    if is_last {
        None
    } else {
        start_at.checked_add(PAGE_SIZE)
    }
}

/// A client of one Jira site: it turns each operation into the request to send.
pub struct Jirascope {
    config: Config,
    pub auth: Auth,
}

impl Jirascope {
    /// The address of the site.
    pub closed spec fn api_url(&self) -> Seq<char> {
        self.config.api_url@
    }

    /// The credentials.
    pub closed spec fn spec_auth(&self) -> Auth {
        self.auth
    }

    /// The client did not change but for its credentials being computed.
    pub open spec fn ready_after(&self, before: &Jirascope) -> bool {
        &&& self.api_url() == before.api_url()
        &&& self.spec_auth().username() == before.spec_auth().username()
        &&& self.spec_auth().api_token() == before.spec_auth().api_token()
        &&& self.spec_auth().is_cached()
    }

    /// A request of this client for `path`, with its credentials.
    pub open spec fn calls(&self, request: ApiRequest, method: Method, path: Seq<char>) -> bool {
        is_call(request, method, self.api_url(), path, self.spec_auth().basic_auth())
    }

    /// A client for the site of `config` with the credentials `auth`.
    pub fn new(config: Config, auth: Auth) -> (client: Jirascope)
        ensures
            client.api_url() == config.api_url@,
            client.spec_auth() == auth,
    {
        Jirascope { config, auth }
    }

    /// Logs in; with basic authentication this only prepares the credentials.
    pub fn init(&mut self) -> (res: Result<(), Error>)
        ensures
            res is Ok,
            final(self).ready_after(old(self)),
    {
        self.auth.login(&self.config)
    }

    fn request(&mut self, method: Method, path: &str) -> (request: ApiRequest)
        ensures
            old(self).calls(request, method, path@),
            final(self).ready_after(old(self)),
    {
        let mut url = self.config.api_url.clone();
        url.append("/rest/api/3/");
        url.append(path);
        self.auth.auth(ApiRequest::new(method, url.as_str()))
    }

    /// The `GET` request for `path`.
    pub fn api_get(&mut self, path: &str) -> (request: ApiRequest)
        ensures
            old(self).calls(request, Method::Get, path@),
            final(self).ready_after(old(self)),
    {
        self.request(Method::Get, path)
    }

    /// The `POST` request for `path`.
    pub fn api_post(&mut self, path: &str) -> (request: ApiRequest)
        ensures
            old(self).calls(request, Method::Post, path@),
            final(self).ready_after(old(self)),
    {
        self.request(Method::Post, path)
    }

    /// The `PUT` request for `path`.
    pub fn api_put(&mut self, path: &str) -> (request: ApiRequest)
        ensures
            old(self).calls(request, Method::Put, path@),
            final(self).ready_after(old(self)),
    {
        self.request(Method::Put, path)
    }

    /// The `DELETE` request for `path`.
    pub fn api_delete(&mut self, path: &str) -> (request: ApiRequest)
        ensures
            old(self).calls(request, Method::Delete, path@),
            final(self).ready_after(old(self)),
    {
        self.request(Method::Delete, path)
    }

    /// The `GET` request for the page of the list at `path` that starts at `start_at`.
    pub fn api_get_depaginated(&mut self, path: &str, start_at: usize) -> (request: ApiRequest)
        ensures
            old(self).calls(request, Method::Get, page_path(path@, start_at as nat)),
            final(self).ready_after(old(self)),
    {
        let mut full = path.to_owned();
        full.append("?startAt=");
        push_decimal(&mut full, start_at);
        full.append("&maxResults=");
        push_decimal(&mut full, PAGE_SIZE);
        assert(full@ =~= page_path(path@, start_at as nat));
        self.request(Method::Get, full.as_str())
    }

    /// The request for the users of the site.
    pub fn get_users(&mut self) -> (request: ApiRequest)
        ensures
            old(self).calls(request, Method::Get, "users/search"@),
            final(self).ready_after(old(self)),
    {
        self.api_get("users/search")
    }

    /// The request for the projects, each with its description, lead and address.
    pub fn get_projects(&mut self) -> (request: ApiRequest)
        ensures
            old(self).calls(request, Method::Get, "project?expand=description,lead,url"@),
            final(self).ready_after(old(self)),
    {
        self.api_get("project?expand=description,lead,url")
    }

    /// The request for one issue.
    pub fn get_issue(&mut self, issue_id: &str) -> (request: ApiRequest)
        ensures
            old(self).calls(request, Method::Get, "issue/"@ + issue_id@),
            final(self).ready_after(old(self)),
    {
        let path = issue_path(issue_id, None);
        self.api_get(path.as_str())
    }

    /// The request for all issues.
    pub fn get_all_issues(&mut self) -> (request: ApiRequest)
        ensures
            old(self).calls(request, Method::Get, "search"@),
            final(self).ready_after(old(self)),
    {
        self.api_get("search")
    }

    /// The request for the kinds of issue events.
    pub fn get_issue_events(&mut self) -> (request: ApiRequest)
        ensures
            old(self).calls(request, Method::Get, "events"@),
            final(self).ready_after(old(self)),
    {
        self.api_get("events")
    }

    /// The request for what each project offers for new issues.
    pub fn get_issue_creation_meta(&mut self) -> (request: ApiRequest)
        ensures
            old(self).calls(request, Method::Get, "issue/createmeta"@),
            final(self).ready_after(old(self)),
    {
        self.api_get("issue/createmeta")
    }

    /// The request for the fields of an issue that can be edited.
    pub fn get_issue_edit_meta(&mut self, issue_id: &str) -> (request: ApiRequest)
        ensures
            old(self).calls(request, Method::Get, "issue/"@ + issue_id@ + "/editmeta"@),
            final(self).ready_after(old(self)),
    {
        let path = issue_path(issue_id, Some("/editmeta"));
        self.api_get(path.as_str())
    }

    /// The request that creates `issue`.
    pub fn create_issue(&mut self, issue: IssueCreation) -> (call: Call)
        ensures
            old(self).calls(call.request, Method::Post, "issue"@),
            call.body == Body::IssueCreation(issue),
            final(self).ready_after(old(self)),
    {
        Call { request: self.api_post("issue"), body: Body::IssueCreation(issue) }
    }

    /// The request that changes the issue `issue_id` as `issue` says.
    pub fn edit_issue(&mut self, issue_id: &str, issue: IssueEdit) -> (call: Call)
        ensures
            old(self).calls(call.request, Method::Put, "issue/"@ + issue_id@),
            call.body == Body::IssueEdit(issue),
            final(self).ready_after(old(self)),
    {
        let path = issue_path(issue_id, None);
        Call { request: self.api_put(path.as_str()), body: Body::IssueEdit(issue) }
    }

    /// The request that deletes the issue `issue_id`.
    pub fn delete_issue(&mut self, issue_id: &str) -> (request: ApiRequest)
        ensures
            old(self).calls(request, Method::Delete, "issue/"@ + issue_id@),
            final(self).ready_after(old(self)),
    {
        let path = issue_path(issue_id, None);
        self.api_delete(path.as_str())
    }

    /// The request for the steps that the issue `issue_id` can take.
    pub fn get_issue_transitions(&mut self, issue_id: &str) -> (request: ApiRequest)
        ensures
            old(self).calls(request, Method::Get, "issue/"@ + issue_id@ + "/transitions"@),
            final(self).ready_after(old(self)),
    {
        let path = issue_path(issue_id, Some("/transitions"));
        self.api_get(path.as_str())
    }

    /// The request that makes the issue `issue_id` take the step `transition`.
    pub fn transition_issue(
        &mut self,
        issue_id: &str,
        transition: IssueTransitionDescriptor,
    ) -> (call: Call)
        ensures
            old(self).calls(call.request, Method::Post, "issue/"@ + issue_id@ + "/transitions"@),
            call.body == Body::IssueTransition(IssueTransition { transition }),
            final(self).ready_after(old(self)),
    {
        let path = issue_path(issue_id, Some("/transitions"));
        let transition = IssueTransition { transition };
        Call { request: self.api_post(path.as_str()), body: Body::IssueTransition(transition) }
    }

    /// The request that creates `project`.
    pub fn create_project(&mut self, project: ProjectCreate) -> (call: Call)
        ensures
            old(self).calls(call.request, Method::Post, "project"@),
            call.body == Body::ProjectCreate(project),
            final(self).ready_after(old(self)),
    {
        Call { request: self.api_post("project"), body: Body::ProjectCreate(project) }
    }

    /// The request that changes the project `project_id` as `project` says.
    pub fn edit_project(&mut self, project_id: &str, project: ProjectEdit) -> (call: Call)
        ensures
            old(self).calls(call.request, Method::Put, "project/"@ + project_id@),
            call.body == Body::ProjectEdit(project),
            final(self).ready_after(old(self)),
    {
        let mut path = "project/".to_owned();
        path.append(project_id);
        Call { request: self.api_put(path.as_str()), body: Body::ProjectEdit(project) }
    }

    /// The request that deletes the project `project_id`.
    pub fn delete_project(&mut self, project_id: &str) -> (request: ApiRequest)
        ensures
            old(self).calls(request, Method::Delete, "project/"@ + project_id@),
            final(self).ready_after(old(self)),
    {
        let mut path = "project/".to_owned();
        path.append(project_id);
        self.api_delete(path.as_str())
    }

    /// The request for the project categories.
    pub fn get_project_categories(&mut self) -> (request: ApiRequest)
        ensures
            old(self).calls(request, Method::Get, "projectCategory"@),
            final(self).ready_after(old(self)),
    {
        self.api_get("projectCategory")
    }

    /// The request for the issue security schemes.
    pub fn get_issue_security_schemes(&mut self) -> (request: ApiRequest)
        ensures
            old(self).calls(request, Method::Get, "issuesecurityschemes"@),
            final(self).ready_after(old(self)),
    {
        self.api_get("issuesecurityschemes")
    }

    /// The request for the first page of the field configuration schemes; the
    /// pages after it are asked for with `api_get_depaginated`, from where
    /// `next_page` says.
    pub fn get_field_configuration_schemes(&mut self) -> (request: ApiRequest)
        ensures
            old(self).calls(request, Method::Get, page_path("fieldconfigurationscheme"@, 0)),
            final(self).ready_after(old(self)),
    {
        self.api_get_depaginated("fieldconfigurationscheme", 0)
    }
}

fn issue_path(issue_id: &str, tail: Option<&str>) -> (path: String)
    ensures
        path@ == "issue/"@ + issue_id@ + (match tail {
            Some(t) => t@,
            None => Seq::empty(),
        }),
{
    let mut path = "issue/".to_owned();
    path.append(issue_id);
    match tail {
        Some(t) => {
            path.append(t);
        },
        None => {
            assert(path@ =~= "issue/"@ + issue_id@ + Seq::<char>::empty());
        },
    }
    path
}

/// The key of an issue: the key of its board, a hyphen, its number.
pub fn issue_key(board_id: &str, issue_id: &str) -> (key: String)
    ensures
        key@ == board_id@ + "-"@ + issue_id@,
{
    let mut key = board_id.to_owned();
    key.append("-");
    key.append(issue_id);
    key
}

} // verus!
