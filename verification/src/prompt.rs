//! What the answers to the editor's questions mean.

use crate::editing::users_view;
use crate::error::Error;
use crate::jira::doc::opt_text;
use crate::jira::error::texts_view;
use crate::jira::issue::{Issue, IssueCreationMeta, IssueType, IssueView};
use crate::jira::user::{User, UserView};
use crate::state::issues_view;
use crate::text::str_eq;
use vstd::prelude::*;
use vstd::string::*;

verus! {

/// The index of the first choice that reads `choice`.
pub open spec fn first_position(choices: Seq<Seq<char>>, choice: Seq<char>, from: int) -> Option<
    int,
>
    decreases choices.len() - from,
{
    if from < 0 || from >= choices.len() {
        None
    } else if choices[from] == choice {
        Some(from)
    } else {
        first_position(choices, choice, from + 1)
    }
}

/// Which of the choices offered the user picked: the first that reads as the answer does.
pub fn position_of(choices: &Vec<String>, choice: &str) -> (index: Option<usize>)
    ensures
        match index {
            Some(i) => first_position(texts_view(choices@), choice@, 0) == Some(i as int),
            None => first_position(texts_view(choices@), choice@, 0) is None,
        },
{
    let ghost texts = texts_view(choices@);
    let mut i: usize = 0;
    while i < choices.len()
        invariant
            0 <= i <= choices.len(),
            texts == texts_view(choices@),
            first_position(texts, choice@, 0) == first_position(texts, choice@, i as int),
        decreases choices.len() - i,
    {
        if str_eq(choices[i].as_str(), choice) {
            return Some(i);
        }
        i += 1;
    }
    None
}

/// The answer, unless it is empty.
pub fn non_empty(answer: Option<String>) -> (kept: Option<String>)
    ensures
        opt_text(kept) == (match opt_text(answer) {
            Some(text) => if text.len() == 0 {
                None
            } else {
                Some(text)
            },
            None => None,
        }),
{
    match answer {
        Some(text) => if text.as_str().is_empty() {
            None
        } else {
            Some(text)
        },
        None => None,
    }
}

/// The answer to a question that must be answered.
pub fn force_prompt_string(answer: Option<String>) -> (res: Result<String, Error>)
    ensures
        match res {
            Ok(text) => opt_text(answer) == Some(text@),
            Err(e) => answer is None && (e matches Error::Jirascope { message } && message@
                == "Empty string not allowed."@),
        },
{
    match answer {
        Some(text) => Ok(text),
        None => Err(Error::jirascope("Empty string not allowed.")),
    }
}

/// What to do once a request has ended: whether to fetch the lists anew, and what to tell the user.
#[derive(Debug, PartialEq, Eq)]
pub struct Signal<'a> {
    pub refresh: bool,
    pub message: &'a str,
}

/// After success the lists are fetched anew and the user is told so; after
/// failure the user is told that.
pub fn signal_result<'a>(succeeded: bool, on_success: &'a str, on_failure: &'a str) -> (signal:
    Signal<'a>)
    ensures
        signal.refresh == succeeded,
        signal.message@ == (if succeeded {
            on_success@
        } else {
            on_failure@
        }),
{
    if succeeded {
        Signal { refresh: true, message: on_success }
    } else {
        Signal { refresh: false, message: on_failure }
    }
}

/// Those of the first `n` users who can lead a project, in order.
pub open spec fn leads_among(users: Seq<UserView>, n: nat) -> Seq<UserView>
    decreases n,
{
    if n == 0 || n > users.len() {
        Seq::empty()
    } else {
        let earlier = leads_among(users, (n - 1) as nat);
        if users[n - 1].active && users[n - 1].account_type == "atlassian"@ {
            earlier.push(users[n - 1])
        } else {
            earlier
        }
    }
}

/// The users who can lead a project: the active ones with an account of the kind `atlassian`.
pub fn leads(users: &Vec<User>) -> (able: Vec<User>)
    ensures
        users_view(able@) == leads_among(users_view(users@), users@.len()),
{
    let ghost views = users_view(users@);
    let mut able: Vec<User> = Vec::new();
    let mut i: usize = 0;
    assert(users_view(able@) =~= leads_among(views, 0));
    while i < users.len()
        invariant
            0 <= i <= users.len(),
            views == users_view(users@),
            users_view(able@) == leads_among(views, i as nat),
        decreases users.len() - i,
    {
        let ghost before = users_view(able@);
        if users[i].can_lead() {
            able.push(users[i].clone());
            assert(users_view(able@) =~= before.push(views[i as int]));
        }
        i += 1;
    }
    able
}

/// The identifier and key of each of the first `n` issues that belong to the project.
pub open spec fn parents_among(issues: Seq<IssueView>, project_key: Seq<char>, n: nat) -> Seq<
    (i64, Seq<char>),
>
    decreases n,
{
    if n == 0 || n > issues.len() {
        Seq::empty()
    } else {
        let earlier = parents_among(issues, project_key, (n - 1) as nat);
        if issues[n - 1].fields.project.key == project_key {
            earlier.push((issues[n - 1].id, issues[n - 1].key))
        } else {
            earlier
        }
    }
}

/// The identifiers and keys of a list of candidates.
pub open spec fn candidates_view(candidates: Seq<(i64, String)>) -> Seq<(i64, Seq<char>)> {
    Seq::new(candidates.len(), |i: int| (candidates[i].0, candidates[i].1@))
}

/// The issues that a subtask of the project can have as its parent: all
/// issues of the project, each by identifier and key.
pub fn parent_candidates(issues: &Vec<Issue>, project_key: &str) -> (candidates: Vec<(i64, String)>)
    ensures
        candidates_view(candidates@) == parents_among(
            issues_view(issues@),
            project_key@,
            issues@.len(),
        ),
{
    let ghost views = issues_view(issues@);
    let mut candidates: Vec<(i64, String)> = Vec::new();
    let mut i: usize = 0;
    assert(candidates_view(candidates@) =~= parents_among(views, project_key@, 0));
    while i < issues.len()
        invariant
            0 <= i <= issues.len(),
            views == issues_view(issues@),
            candidates_view(candidates@) == parents_among(views, project_key@, i as nat),
        decreases issues.len() - i,
    {
        let ghost before = candidates_view(candidates@);
        if str_eq(issues[i].fields.project.key.as_str(), project_key) {
            candidates.push((issues[i].id, issues[i].key.clone()));
            assert(candidates_view(candidates@) =~= before.push(
                (views[i as int].id, views[i as int].key),
            ));
        }
        i += 1;
    }
    candidates
}

/// The kinds of issue that the project with the given identifier offers: those
/// of the first entry for it, or `None` where the server listed no such project.
pub fn issue_types_of(meta: IssueCreationMeta, project_id: i64) -> (types: Option<Vec<IssueType>>)
    ensures
        match types {
            Some(found) => exists|i: int|
                0 <= i < meta.projects@.len() && meta.projects@[i].id == project_id
                    && meta.projects@[i].issue_types == found && forall|k: int|
                    0 <= k < i ==> meta.projects@[k].id != project_id,
            None => forall|i: int|
                0 <= i < meta.projects@.len() ==> meta.projects@[i].id != project_id,
        },
{
    let mut projects = meta.projects;
    let ghost all = projects@;
    let mut i: usize = 0;
    while i < projects.len()
        invariant
            0 <= i <= projects.len(),
            projects@ == all,
            all == meta.projects@,
            forall|k: int| 0 <= k < i ==> all[k].id != project_id,
        decreases projects.len() - i,
    {
        if projects[i].id == project_id {
            let entry = projects.swap_remove(i);
            assert(entry == all[i as int]);
            assert(meta.projects@[i as int].id == project_id && meta.projects@[i as int].issue_types
                == entry.issue_types);
            return Some(entry.issue_types);
        }
        i += 1;
    }
    None
}

} // verus!
