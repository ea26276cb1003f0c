//! The user part of the recipient directory: host-scoped display
//! names, and per-login direct-message targets.
//!
//! Display-name lookups are scoped by the host of the repository's
//! URL, so the same login on two hosts resolves independently. A login
//! with no configured name falls back to the login with every `-`
//! replaced by `.` (the chat convention uses dots where the source
//! platform uses dashes).

use vstd::prelude::*;

use crate::github::Repo;
use crate::util::{dash_to_dot, replace_dashes, str_eq};

verus! {

/// What the directory knows about one user: the chat display name.
pub struct UserInfo {
    pub slack: String,
}

impl Clone for UserInfo {
    fn clone(&self) -> (res: Self)
        ensures
            res == *self,
    {
        UserInfo { slack: self.slack.clone() }
    }
}

/// One host-scoped mapping from a login to its display name.
struct UserEntry {
    host: String,
    login: String,
    info: UserInfo,
}

/// One mapping from a login to its direct-message target.
struct DmEntry {
    login: String,
    target: String,
}

/// The host part of `s`, when `s` parses as an absolute URL that has
/// a host. The result depends on the characters of `s` alone.
pub uninterp spec fn host_of(s: Seq<char>) -> Option<Seq<char>>;

/// Relies on url's `Url::parse` and `Url::host_str`: parsing is a pure
/// function of the input string; `host_str` returns the host portion
/// when the URL has one, and `None` otherwise or when parsing fails.
#[verifier::external_body]
fn url_host(s: &str) -> (r: Option<String>)
    ensures
        r is Some <==> host_of(s@) is Some,
        r is Some ==> r->0@ == host_of(s@)->0,
{
    match url::Url::parse(s) {
        Ok(u) => match u.host_str() {
            Some(h) => Some(h.to_owned()),
            None => None,
        },
        Err(_) => None,
    }
}

/// The first configured name for `login` under `host`, searching the
/// newest entry first.
spec fn name_in(entries: Seq<UserEntry>, host: Seq<char>, login: Seq<char>) -> Option<Seq<char>>
    decreases entries.len(),
{
    if entries.len() == 0 {
        None::<Seq<char>>
    } else if entries[0].host@ == host && entries[0].login@ == login {
        Some(entries[0].info.slack@)
    } else {
        name_in(entries.drop_first(), host, login)
    }
}

/// The first configured direct-message target for `login`, searching
/// the newest entry first.
spec fn dm_in(entries: Seq<DmEntry>, login: Seq<char>) -> Option<Seq<char>>
    decreases entries.len(),
{
    if entries.len() == 0 {
        None::<Seq<char>>
    } else if entries[0].login@ == login {
        Some(entries[0].target@)
    } else {
        dm_in(entries.drop_first(), login)
    }
}

/// The directory of users: display names keyed by host and login,
/// direct-message targets keyed by login. Read-only for the routing
/// code; built once from configuration.
pub struct UserConfig {
    users: Vec<UserEntry>,
    dms: Vec<DmEntry>,
}

impl UserConfig {
    /// The display name configured for `login` under `host`, if any.
    pub closed spec fn spec_name_lookup(self, host: Seq<char>, login: Seq<char>) -> Option<
        Seq<char>,
    > {
        name_in(self.users@, host, login)
    }

    /// The direct-message target configured for `login`, if any.
    /// Absence means: do not message this user directly.
    pub closed spec fn spec_dm_target(self, login: Seq<char>) -> Option<Seq<char>> {
        dm_in(self.dms@, login)
    }

    /// What `slack_user_name` returns: the name configured for the
    /// login under the host of `url`, and otherwise the login with
    /// every `-` replaced by `.`.
    pub open spec fn spec_slack_user_name(self, login: Seq<char>, url: Seq<char>) -> Seq<char> {
        match host_of(url) {
            Some(host) => match self.spec_name_lookup(host, login) {
                Some(name) => name,
                None => dash_to_dot(login),
            },
            None => dash_to_dot(login),
        }
    }

    /// An empty directory: no names, no direct-message targets.
    pub fn new() -> (c: UserConfig)
        ensures
            forall|h: Seq<char>, l: Seq<char>| #[trigger] c.spec_name_lookup(h, l) is None,
            forall|l: Seq<char>| #[trigger] c.spec_dm_target(l) is None,
    {
        UserConfig { users: Vec::new(), dms: Vec::new() }
    }

    /// Registers `info` as the user record for `login` under `host`,
    /// shadowing any earlier record for that pair.
    pub fn insert(&mut self, host: &str, login: &str, info: UserInfo)
        ensures
            forall|h: Seq<char>, l: Seq<char>|
                #[trigger] final(self).spec_name_lookup(h, l) == (if h == host@ && l == login@ {
                    Some(info.slack@)
                } else {
                    old(self).spec_name_lookup(h, l)
                }),
            forall|l: Seq<char>| #[trigger]
                final(self).spec_dm_target(l) == old(self).spec_dm_target(l),
    {
        let entry = UserEntry { host: host.to_owned(), login: login.to_owned(), info };
        self.users.insert(0, entry);
        proof {
            assert(self.users@.drop_first() =~= old(self).users@);
        }
    }

    /// Registers `target` as the direct-message target for `login`,
    /// shadowing any earlier target for that login.
    pub fn insert_dm(&mut self, login: &str, target: &str)
        ensures
            forall|l: Seq<char>|
                #[trigger] final(self).spec_dm_target(l) == (if l == login@ {
                    Some(target@)
                } else {
                    old(self).spec_dm_target(l)
                }),
            forall|h: Seq<char>, l: Seq<char>| #[trigger]
                final(self).spec_name_lookup(h, l) == old(self).spec_name_lookup(h, l),
    {
        let entry = DmEntry { login: login.to_owned(), target: target.to_owned() };
        self.dms.insert(0, entry);
        proof {
            assert(self.dms@.drop_first() =~= old(self).dms@);
        }
    }

    /// The display name configured for `login` under `host`, if any.
    fn find_name(&self, host: &str, login: &str) -> (r: Option<String>)
        ensures
            match r {
                Some(s) => self.spec_name_lookup(host@, login@) == Some(s@),
                None => self.spec_name_lookup(host@, login@) is None,
            },
    {
        let n = self.users.len();
        let mut i: usize = 0;
        proof {
            assert(self.users@.skip(0) =~= self.users@);
        }
        while i < n
            invariant
                0 <= i <= n,
                n == self.users@.len(),
                name_in(self.users@, host@, login@) == name_in(
                    self.users@.skip(i as int),
                    host@,
                    login@,
                ),
            decreases n - i,
        {
            let entry = &self.users[i];
            proof {
                assert(self.users@.skip(i as int)[0] == self.users@[i as int]);
                assert(self.users@.skip(i as int).drop_first() =~= self.users@.skip(i + 1));
            }
            if str_eq(entry.host.as_str(), host) && str_eq(entry.login.as_str(), login) {
                return Some(entry.info.slack.clone());
            }
            i = i + 1;
        }
        None
    }

    /// The direct-message target configured for `login`, if any.
    pub fn slack_direct_message(&self, login: &str) -> (r: Option<String>)
        ensures
            match r {
                Some(s) => self.spec_dm_target(login@) == Some(s@),
                None => self.spec_dm_target(login@) is None,
            },
    {
        let n = self.dms.len();
        let mut i: usize = 0;
        proof {
            assert(self.dms@.skip(0) =~= self.dms@);
        }
        while i < n
            invariant
                0 <= i <= n,
                n == self.dms@.len(),
                dm_in(self.dms@, login@) == dm_in(self.dms@.skip(i as int), login@),
            decreases n - i,
        {
            let entry = &self.dms[i];
            proof {
                assert(self.dms@.skip(i as int)[0] == self.dms@[i as int]);
                assert(self.dms@.skip(i as int).drop_first() =~= self.dms@.skip(i + 1));
            }
            if str_eq(entry.login.as_str(), login) {
                return Some(entry.target.clone());
            }
            i = i + 1;
        }
        None
    }

    /// The name configured for `login` under the host of the repo's
    /// URL, if the URL has a host and a name is configured.
    fn lookup_name(&self, login: &str, repo: &Repo) -> (r: Option<String>)
        ensures
            match r {
                Some(s) => match host_of(repo.html_url@) {
                    Some(h) => self.spec_name_lookup(h, login@) == Some(s@),
                    None => false,
                },
                None => match host_of(repo.html_url@) {
                    Some(h) => self.spec_name_lookup(h, login@) is None,
                    None => true,
                },
            },
    {
        match url_host(repo.html_url.as_str()) {
            Some(h) => self.find_name(h.as_str(), login),
            None => None,
        }
    }

    /// The display name for `login` on the host `repo` lives on: the
    /// configured name when there is one, else the login with every
    /// `-` replaced by `.`.
    pub fn slack_user_name(&self, login: &str, repo: &Repo) -> (r: String)
        ensures
            r@ == self.spec_slack_user_name(login@, repo.html_url@),
    {
        match self.lookup_name(login, repo) {
            Some(name) => name,
            None => replace_dashes(login),
        }
    }

    /// The chat mention of the display name: `@` followed by
    /// `slack_user_name`.
    pub fn slack_user_ref(&self, login: &str, repo: &Repo) -> (r: String)
        ensures
            r@ == "@"@ + self.spec_slack_user_name(login@, repo.html_url@),
    {
        mention(self.slack_user_name(login, repo).as_str())
    }
}

/// A chat mention of a user name: `@` followed by the name.
pub fn mention(username: &str) -> (r: String)
    ensures
        r@ == "@"@ + username@,
{
    let mut s = String::new();
    s.append("@");
    s.append(username);
    proof {
        assert(s@ =~= "@"@ + username@);
    }
    s
}

/// Law: a login with no name configured for the URL's host is
/// displayed as the login with every `-` replaced by `.`, whatever
/// names other hosts configure.
pub proof fn lemma_display_name_fallback(c: UserConfig, login: Seq<char>, url: Seq<char>)
    requires
        host_of(url) is Some ==> c.spec_name_lookup(host_of(url)->0, login) is None,
    ensures
        c.spec_slack_user_name(login, url) == dash_to_dot(login),
{
}

/// Law: a login with a name configured for the URL's host is displayed
/// as that name, whatever the login's own form.
pub proof fn lemma_display_name_mapped(
    c: UserConfig,
    login: Seq<char>,
    url: Seq<char>,
    name: Seq<char>,
)
    requires
        host_of(url) is Some,
        c.spec_name_lookup(host_of(url)->0, login) == Some(name),
    ensures
        c.spec_slack_user_name(login, url) == name,
{
}

/// Law: lookups are host-scoped. A name registered under one host
/// only never answers a lookup whose URL parses to a different host,
/// or to none: the dash-to-dot fallback applies instead.
pub proof fn lemma_lookup_host_scoped(
    c: UserConfig,
    login: Seq<char>,
    url: Seq<char>,
    host: Seq<char>,
)
    requires
        c.spec_name_lookup(host, login) is Some,
        host_of(url) != Some(host),
        forall|h: Seq<char>| h != host ==> #[trigger] c.spec_name_lookup(h, login) is None,
    ensures
        c.spec_slack_user_name(login, url) == dash_to_dot(login),
{
    if host_of(url) is Some {
        let h = host_of(url)->0;
        assert(h != host);
        assert(c.spec_name_lookup(h, login) is None);
    }
}

} // verus!
