//! Users.

use crate::text::str_eq;
use vstd::prelude::*;
use vstd::string::*;

verus! {

/// A user of the Jira site.
#[derive(Debug, PartialEq, Eq)]
pub struct User {
    pub display_name: String,
    pub active: bool,
    pub account_id: String,
    pub account_type: String,
}

/// What a `User` holds.
pub struct UserView {
    pub display_name: Seq<char>,
    pub active: bool,
    pub account_id: Seq<char>,
    pub account_type: Seq<char>,
}

impl View for User {
    type V = UserView;

    open spec fn view(&self) -> UserView {
        UserView {
            display_name: self.display_name@,
            active: self.active,
            account_id: self.account_id@,
            account_type: self.account_type@,
        }
    }
}

impl Clone for User {
    fn clone(&self) -> (res: Self)
        ensures
            res@ == self@,
    {
        User {
            display_name: self.display_name.clone(),
            active: self.active,
            account_id: self.account_id.clone(),
            account_type: self.account_type.clone(),
        }
    }
}

impl User {
    /// Whether two users agree in every field.
    pub fn same_as(&self, other: &User) -> (same: bool)
        ensures
            same == (self@ == other@),
    {
        str_eq(self.display_name.as_str(), other.display_name.as_str()) && self.active
            == other.active && str_eq(self.account_id.as_str(), other.account_id.as_str())
            && str_eq(self.account_type.as_str(), other.account_type.as_str())
    }

    /// Whether the user can lead a project: an active account of the kind `atlassian`.
    pub fn can_lead(&self) -> (res: bool)
        ensures
            res == (self@.active && self@.account_type == "atlassian"@),
    {
        self.active && str_eq(self.account_type.as_str(), "atlassian")
    }
}

} // verus!
