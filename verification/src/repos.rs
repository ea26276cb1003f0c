//! The channel part of the recipient directory: routing rules that
//! send a repository's notifications (optionally only for one branch)
//! to named channels. A lookup may match zero, one, or many rules; all
//! matches receive the message, in rule order.

use vstd::prelude::*;

use crate::github::Repo;
use crate::util::str_eq;

verus! {

/// One routing rule: notifications for the repository named
/// `repo_full_name` (and, when `branch` is set, only for that branch)
/// go to `channel`.
pub struct ChannelRule {
    pub repo_full_name: String,
    pub branch: Option<String>,
    pub channel: String,
}

/// Whether `rule` matches a repository named `full_name` on `branch`.
pub open spec fn rule_matches(rule: ChannelRule, full_name: Seq<char>, branch: Seq<char>) -> bool {
    rule.repo_full_name@ == full_name && (match rule.branch {
        Some(b) => b@ == branch,
        None => true,
    })
}

/// The channels of the rules in `rules` matching `full_name` and
/// `branch`, in rule order.
pub open spec fn channels_in(
    rules: Seq<ChannelRule>,
    full_name: Seq<char>,
    branch: Seq<char>,
) -> Seq<Seq<char>>
    decreases rules.len(),
{
    if rules.len() == 0 {
        Seq::<Seq<char>>::empty()
    } else {
        let rest = channels_in(rules.drop_last(), full_name, branch);
        if rule_matches(rules.last(), full_name, branch) {
            rest.push(rules.last().channel@)
        } else {
            rest
        }
    }
}

/// The routing configuration: an ordered list of channel rules.
/// Read-only for the routing code; built once from configuration.
pub struct RepoConfig {
    rules: Vec<ChannelRule>,
}

impl RepoConfig {
    /// The channels a notification for `full_name` on `branch` goes
    /// to, in rule order.
    pub closed spec fn spec_channels(self, full_name: Seq<char>, branch: Seq<char>) -> Seq<
        Seq<char>,
    > {
        channels_in(self.rules@, full_name, branch)
    }

    /// A configuration with no rules: nothing routes anywhere.
    pub fn new() -> (c: RepoConfig)
        ensures
            forall|f: Seq<char>, b: Seq<char>|
                #[trigger] c.spec_channels(f, b) == Seq::<Seq<char>>::empty(),
    {
        RepoConfig { rules: Vec::new() }
    }

    /// Appends a rule routing `repo_full_name` (on every branch, or
    /// only on `branch` when given) to `channel`.
    pub fn add_rule(&mut self, repo_full_name: &str, branch: Option<&str>, channel: &str)
        ensures
            forall|f: Seq<char>, b: Seq<char>|
                #[trigger] final(self).spec_channels(f, b) == (if f == repo_full_name@ && (match
                branch {
                    Some(rb) => rb@ == b,
                    None => true,
                }) {
                    old(self).spec_channels(f, b).push(channel@)
                } else {
                    old(self).spec_channels(f, b)
                }),
    {
        let branch_owned: Option<String> = match branch {
            Some(b) => Some(b.to_owned()),
            None => None,
        };
        let rule = ChannelRule {
            repo_full_name: repo_full_name.to_owned(),
            branch: branch_owned,
            channel: channel.to_owned(),
        };
        self.rules.push(rule);
        proof {
            assert(self.rules@.drop_last() =~= old(self).rules@);
        }
    }

    /// Every channel whose rule matches the repository and branch, in
    /// rule order. The commit references play no part in the rules
    /// configured here and are accepted for the lookup interface only.
    pub fn lookup_channels(&self, repo: &Repo, branch: &str, _commits: &Vec<String>) -> (chans: Vec<
        String,
    >)
        ensures
            crate::util::views_of_strings(chans@) == self.spec_channels(repo.full_name@, branch@),
    {
        let n = self.rules.len();
        let mut chans: Vec<String> = Vec::new();
        let mut i: usize = 0;
        proof {
            assert(crate::util::views_of_strings(chans@) =~= channels_in(
                self.rules@.take(0),
                repo.full_name@,
                branch@,
            ));
        }
        while i < n
            invariant
                0 <= i <= n,
                n == self.rules@.len(),
                crate::util::views_of_strings(chans@) == channels_in(
                    self.rules@.take(i as int),
                    repo.full_name@,
                    branch@,
                ),
            decreases n - i,
        {
            let rule = &self.rules[i];
            proof {
                assert(self.rules@.take(i + 1).drop_last() =~= self.rules@.take(i as int));
                assert(self.rules@.take(i + 1).last() == self.rules@[i as int]);
            }
            let name_match = str_eq(rule.repo_full_name.as_str(), repo.full_name.as_str());
            let branch_match = match &rule.branch {
                Some(b) => str_eq(b.as_str(), branch),
                None => true,
            };
            if name_match && branch_match {
                chans.push(rule.channel.clone());
            }
            proof {
                assert(crate::util::views_of_strings(chans@) =~= channels_in(
                    self.rules@.take(i + 1),
                    repo.full_name@,
                    branch@,
                ));
            }
            i = i + 1;
        }
        proof {
            assert(self.rules@.take(n as int) =~= self.rules@);
        }
        chans
    }
}

} // verus!
