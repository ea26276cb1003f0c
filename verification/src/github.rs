//! The event payload shapes the webhook source delivers: actors,
//! repositories, and the per-kind sub-objects of a hook body.

use vstd::prelude::*;

verus! {

/// The identity of a person, as received from the source platform.
/// Two users are the same person exactly when the logins match.
pub struct User {
    pub login: String,
}

impl Clone for User {
    fn clone(&self) -> (res: Self)
        ensures
            res == *self,
    {
        User { login: self.login.clone() }
    }
}

/// A repository reference: used only for link building and for
/// routing-rule lookup.
pub struct Repo {
    pub html_url: String,
    pub full_name: String,
}

impl Clone for Repo {
    fn clone(&self) -> (res: Self)
        ensures
            res == *self,
    {
        Repo { html_url: self.html_url.clone(), full_name: self.full_name.clone() }
    }
}

/// A pull request as it appears inside a hook body.
pub struct PullRequest {
    pub html_url: String,
    pub title: String,
    pub user: User,
    pub assignees: Vec<User>,
}

/// An issue as it appears inside a hook body.
pub struct Issue {
    pub html_url: String,
    pub title: String,
    pub user: User,
    pub assignees: Vec<User>,
}

/// A comment on a pull request, commit or issue.
pub struct Comment {
    pub commit_id: String,
    pub path: Option<String>,
    pub body: String,
    pub html_url: String,
    pub user: User,
}

/// A review of a pull request; `state` selects the behavior.
pub struct Review {
    pub state: String,
    pub body: String,
    pub html_url: String,
    pub user: User,
}

/// The structured payload of an inbound webhook event. Which
/// sub-objects are present depends on the event kind.
pub struct HookBody {
    pub action: Option<String>,
    pub sender: User,
    pub repository: Repo,
    pub pull_request: Option<PullRequest>,
    pub review: Option<Review>,
    pub comment: Option<Comment>,
    pub issue: Option<Issue>,
}

/// The logins of a sequence of users, in order.
pub open spec fn logins_of(users: Seq<User>) -> Seq<Seq<char>> {
    users.map_values(|u: User| u.login@)
}

} // verus!
