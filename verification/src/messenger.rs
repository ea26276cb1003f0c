//! The recipient resolver: computes, for one notification, the channel
//! recipients and the individual recipients, formats the channel
//! message, and submits delivery requests to the delivery worker.
//!
//! Individual recipients are the item owner followed by the other
//! participants, deduplicated against the owner, minus the sender of
//! the triggering action and the service's own bot identity. A user is
//! messaged directly only when a direct-message target is configured;
//! anyone else is silently skipped.

use vstd::prelude::*;

use crate::github::{logins_of, Repo, User};
use crate::repos::RepoConfig;
use crate::slack::{
    req, views_of_attachments, AttachmentView, RecipientView, RequestView, SlackAttachment,
    SlackRecipient,
};
use crate::users::UserConfig;
use crate::util::{make_link, spec_link, str_eq, views_of_strings};
use crate::worker::DeliveryWorker;

verus! {

/// The login of the service's own bot identity; it never receives
/// notifications.
pub open spec fn bot_login() -> Seq<char> {
    "octobot"@
}

/// The message a channel receives: the text plus an appended link to
/// the repository.
pub open spec fn spec_channel_msg(msg: Seq<char>, url: Seq<char>, full_name: Seq<char>) -> Seq<
    char,
> {
    msg + " ("@ + spec_link(url, full_name) + ")"@
}

/// The request delivered to one channel.
pub open spec fn channel_request(
    chan: Seq<char>,
    msg: Seq<char>,
    url: Seq<char>,
    full_name: Seq<char>,
    atts: Seq<AttachmentView>,
) -> RequestView {
    RequestView {
        recipient: RecipientView::Channel { name: chan },
        msg: spec_channel_msg(msg, url, full_name),
        attachments: atts,
    }
}

/// One request per matching channel, in rule order.
pub open spec fn channel_requests(
    chans: Seq<Seq<char>>,
    msg: Seq<char>,
    url: Seq<char>,
    full_name: Seq<char>,
    atts: Seq<AttachmentView>,
) -> Seq<RequestView> {
    chans.map_values(|c: Seq<char>| channel_request(c, msg, url, full_name, atts))
}

/// The request delivered to one configured direct-message target.
pub open spec fn dm_request(target: Seq<char>, msg: Seq<char>, atts: Seq<AttachmentView>) -> RequestView {
    RequestView { recipient: RecipientView::User { target }, msg, attachments: atts }
}

/// One request per login with a configured direct-message target, in
/// the order given; logins without a target are skipped.
pub open spec fn dm_requests(
    cfg: UserConfig,
    logins: Seq<Seq<char>>,
    msg: Seq<char>,
    atts: Seq<AttachmentView>,
) -> Seq<RequestView>
    decreases logins.len(),
{
    if logins.len() == 0 {
        Seq::<RequestView>::empty()
    } else {
        dm_requests(cfg, logins.drop_last(), msg, atts) + (match cfg.spec_dm_target(
            logins.last(),
        ) {
            Some(t) => seq![dm_request(t, msg, atts)],
            None => Seq::<RequestView>::empty(),
        })
    }
}

/// The logins of `logins` deduplicated: each login's first occurrence
/// is kept, in order, and every later repetition is dropped.
pub open spec fn first_occurrences(logins: Seq<Seq<char>>) -> Seq<Seq<char>>
    decreases logins.len(),
{
    if logins.len() == 0 {
        Seq::<Seq<char>>::empty()
    } else {
        first_occurrences(logins.drop_last()) + (if logins.drop_last().contains(logins.last()) {
            Seq::<Seq<char>>::empty()
        } else {
            seq![logins.last()]
        })
    }
}

/// Deduplication keeps membership: a login is in the deduplicated
/// sequence exactly when it is in the original.
pub proof fn lemma_first_occurrences_contains(logins: Seq<Seq<char>>, x: Seq<char>)
    ensures
        first_occurrences(logins).contains(x) <==> logins.contains(x),
    decreases logins.len(),
{
    if logins.len() > 0 {
        lemma_first_occurrences_contains(logins.drop_last(), x);
        let d = first_occurrences(logins);
        let dp = first_occurrences(logins.drop_last());
        if logins.contains(x) {
            let i = choose|i: int| 0 <= i < logins.len() && logins[i] == x;
            if i < logins.len() - 1 {
                assert(logins.drop_last()[i] == x);
                assert(logins.drop_last().contains(x));
                let j = choose|j: int| 0 <= j < dp.len() && dp[j] == x;
                assert(d[j] == x);
                assert(d.contains(x));
            } else {
                if logins.drop_last().contains(x) {
                    let j = choose|j: int| 0 <= j < dp.len() && dp[j] == x;
                    assert(d[j] == x);
                } else {
                    assert(d[d.len() - 1] == x);
                }
                assert(d.contains(x));
            }
        }
        if d.contains(x) {
            let j = choose|j: int| 0 <= j < d.len() && d[j] == x;
            if j < dp.len() {
                assert(dp[j] == x);
                assert(dp.contains(x));
                let i = choose|i: int| 0 <= i < logins.drop_last().len() && logins.drop_last()[i]
                    == x;
                assert(logins[i] == x);
            } else {
                assert(x == logins.last());
            }
            assert(logins.contains(x));
        }
    }
}

/// The logins that survive the exclusions: neither the sender's login
/// nor the bot's own.
pub open spec fn retained(logins: Seq<Seq<char>>, sender: Seq<char>) -> Seq<Seq<char>>
    decreases logins.len(),
{
    if logins.len() == 0 {
        Seq::<Seq<char>>::empty()
    } else {
        retained(logins.drop_last(), sender) + (if logins.last() != sender && logins.last()
            != bot_login() {
            seq![logins.last()]
        } else {
            Seq::<Seq<char>>::empty()
        })
    }
}

/// The individual recipients of a notification: the item owner first,
/// then the participants in their original order, deduplicated by
/// login, minus the sender of the triggering action and the bot's own
/// identity.
pub open spec fn spec_recipients(
    owner: Seq<char>,
    participants: Seq<Seq<char>>,
    sender: Seq<char>,
) -> Seq<Seq<char>> {
    retained(first_occurrences(seq![owner] + participants), sender)
}

/// Everything the general fan-out delivers: the channel requests, then
/// one direct message per recipient with a configured target.
pub open spec fn spec_send_to_all(
    m: Messenger,
    msg: Seq<char>,
    atts: Seq<AttachmentView>,
    owner: Seq<char>,
    sender: Seq<char>,
    url: Seq<char>,
    full_name: Seq<char>,
    participants: Seq<Seq<char>>,
    branch: Seq<char>,
) -> Seq<RequestView> {
    channel_requests(m.repos.spec_channels(full_name, branch), msg, url, full_name, atts)
        + dm_requests(m.users, spec_recipients(owner, participants, sender), msg, atts)
}

/// Everything the owner-only fan-out delivers: the channel requests,
/// then a direct message to the owner alone, if a target is configured
/// and the owner is not the bot's own identity, which never receives
/// notifications.
pub open spec fn spec_send_to_owner(
    m: Messenger,
    msg: Seq<char>,
    atts: Seq<AttachmentView>,
    owner: Seq<char>,
    url: Seq<char>,
    full_name: Seq<char>,
    branch: Seq<char>,
) -> Seq<RequestView> {
    channel_requests(m.repos.spec_channels(full_name, branch), msg, url, full_name, atts)
        + dm_requests(
        m.users,
        if owner == bot_login() {
            Seq::<Seq<char>>::empty()
        } else {
            seq![owner]
        },
        msg,
        atts,
    )
}

/// Resolves recipients against the directory and submits delivery
/// requests; stateless apart from its configuration.
pub struct Messenger {
    pub users: UserConfig,
    pub repos: RepoConfig,
}

/// A messenger over the given directory configuration.
pub fn new(users: UserConfig, repos: RepoConfig) -> (m: Messenger)
    ensures
        m.users == users,
        m.repos == repos,
{
    Messenger { users, repos }
}

impl Messenger {
    /// Sends `msg` to every channel whose routing rule matches the
    /// repository and branch, appending a link to the repository.
    pub fn send_to_channel(
        &self,
        worker: &mut DeliveryWorker,
        msg: &str,
        attachments: &Vec<SlackAttachment>,
        repo: &Repo,
        branch: &str,
        commits: &Vec<String>,
    )
        ensures
            final(worker).pending_views() == old(worker).pending_views() + channel_requests(
                self.repos.spec_channels(repo.full_name@, branch@),
                msg@,
                repo.html_url@,
                repo.full_name@,
                views_of_attachments(attachments@),
            ),
    {
        let channels = self.repos.lookup_channels(repo, branch, commits);
        let link = make_link(repo.html_url.as_str(), repo.full_name.as_str());
        let mut channel_msg = msg.to_owned();
        channel_msg.append(" (");
        channel_msg.append(link.as_str());
        channel_msg.append(")");
        proof {
            assert(channel_msg@ =~= spec_channel_msg(msg@, repo.html_url@, repo.full_name@));
        }
        let ghost chans = self.repos.spec_channels(repo.full_name@, branch@);
        let ghost atts = views_of_attachments(attachments@);
        let n = channels.len();
        let mut i: usize = 0;
        proof {
            assert(old(worker).pending_views() + channel_requests(
                chans.take(0),
                msg@,
                repo.html_url@,
                repo.full_name@,
                atts,
            ) =~= old(worker).pending_views());
        }
        while i < n
            invariant
                0 <= i <= n,
                n == channels@.len(),
                views_of_strings(channels@) == chans,
                channel_msg@ == spec_channel_msg(msg@, repo.html_url@, repo.full_name@),
                atts == views_of_attachments(attachments@),
                worker.pending_views() == old(worker).pending_views() + channel_requests(
                    chans.take(i as int),
                    msg@,
                    repo.html_url@,
                    repo.full_name@,
                    atts,
                ),
            decreases n - i,
        {
            let recipient = SlackRecipient::Channel(channels[i].clone());
            let request = req(recipient, channel_msg.as_str(), attachments);
            proof {
                assert(chans[i as int] == channels@[i as int]@);
                assert(request@ == channel_request(
                    chans[i as int],
                    msg@,
                    repo.html_url@,
                    repo.full_name@,
                    atts,
                ));
            }
            worker.accept(request);
            proof {
                assert(worker.pending_views() =~= (old(worker).pending_views() + channel_requests(
                    chans.take(i as int),
                    msg@,
                    repo.html_url@,
                    repo.full_name@,
                    atts,
                )).push(request@));
                assert(channel_requests(chans.take(i + 1), msg@, repo.html_url@, repo.full_name@, atts)
                    =~= channel_requests(
                    chans.take(i as int),
                    msg@,
                    repo.html_url@,
                    repo.full_name@,
                    atts,
                ).push(request@));
                assert(worker.pending_views() =~= old(worker).pending_views() + channel_requests(
                    chans.take(i + 1),
                    msg@,
                    repo.html_url@,
                    repo.full_name@,
                    atts,
                ));
            }
            i = i + 1;
        }
        proof {
            assert(chans.take(n as int) =~= chans);
        }
    }

    /// Whether some user in `users` has exactly this login.
    fn contains_login(&self, users: &Vec<User>, login: &str) -> (r: bool)
        ensures
            r == logins_of(users@).contains(login@),
    {
        let n = users.len();
        let mut i: usize = 0;
        while i < n
            invariant
                0 <= i <= n,
                n == users@.len(),
                forall|j: int| 0 <= j < i ==> logins_of(users@)[j] != login@,
            decreases n - i,
        {
            if str_eq(users[i].login.as_str(), login) {
                proof {
                    assert(logins_of(users@)[i as int] == login@);
                }
                return true;
            }
            i = i + 1;
        }
        proof {
            assert(forall|j: int|
                0 <= j < logins_of(users@).len() ==> logins_of(users@)[j] != login@);
        }
        false
    }

    /// Messages each given user directly, in order, skipping users
    /// with no configured direct-message target.
    fn send_to_slackbots(
        &self,
        worker: &mut DeliveryWorker,
        users: &Vec<User>,
        msg: &str,
        attachments: &Vec<SlackAttachment>,
    )
        ensures
            final(worker).pending_views() == old(worker).pending_views() + dm_requests(
                self.users,
                logins_of(users@),
                msg@,
                views_of_attachments(attachments@),
            ),
    {
        let ghost atts = views_of_attachments(attachments@);
        let n = users.len();
        let mut i: usize = 0;
        proof {
            assert(logins_of(users@.take(0)) =~= Seq::<Seq<char>>::empty());
            assert(worker.pending_views() =~= old(worker).pending_views() + dm_requests(
                self.users,
                logins_of(users@.take(0)),
                msg@,
                atts,
            ));
        }
        while i < n
            invariant
                0 <= i <= n,
                n == users@.len(),
                atts == views_of_attachments(attachments@),
                worker.pending_views() == old(worker).pending_views() + dm_requests(
                    self.users,
                    logins_of(users@.take(i as int)),
                    msg@,
                    atts,
                ),
            decreases n - i,
        {
            proof {
                assert(logins_of(users@.take(i + 1)).drop_last() =~= logins_of(
                    users@.take(i as int),
                ));
                assert(logins_of(users@.take(i + 1)).last() == users@[i as int].login@);
            }
            match self.users.slack_direct_message(users[i].login.as_str()) {
                Some(target) => {
                    let ghost t = target@;
                    let request = req(SlackRecipient::User(target), msg, attachments);
                    proof {
                        assert(request@ == dm_request(t, msg@, atts));
                    }
                    worker.accept(request);
                    proof {
                        assert(worker.pending_views() =~= (old(worker).pending_views()
                            + dm_requests(self.users, logins_of(users@.take(i as int)), msg@, atts)).push(
                            request@,
                        ));
                        assert(dm_requests(self.users, logins_of(users@.take(i + 1)), msg@, atts)
                            =~= dm_requests(
                            self.users,
                            logins_of(users@.take(i as int)),
                            msg@,
                            atts,
                        ).push(request@));
                    }
                },
                None => {
                    proof {
                        assert(dm_requests(self.users, logins_of(users@.take(i + 1)), msg@, atts)
                            =~= dm_requests(self.users, logins_of(users@.take(i as int)), msg@, atts));
                    }
                },
            }
            proof {
                assert(worker.pending_views() =~= old(worker).pending_views() + dm_requests(
                    self.users,
                    logins_of(users@.take(i + 1)),
                    msg@,
                    atts,
                ));
            }
            i = i + 1;
        }
        proof {
            assert(users@.take(n as int) =~= users@);
        }
    }

    /// The general fan-out: notifies matching channels, then messages
    /// the item owner and the other participants directly, excluding
    /// the sender of the triggering action and the bot itself.
    pub fn send_to_all(
        &self,
        worker: &mut DeliveryWorker,
        msg: &str,
        attachments: &Vec<SlackAttachment>,
        item_owner: &User,
        sender: &User,
        repo: &Repo,
        participants: &Vec<User>,
        branch: &str,
        commits: &Vec<String>,
    )
        ensures
            final(worker).pending_views() == old(worker).pending_views() + spec_send_to_all(
                *self,
                msg@,
                views_of_attachments(attachments@),
                item_owner.login@,
                sender.login@,
                repo.html_url@,
                repo.full_name@,
                logins_of(participants@),
                branch@,
            ),
    {
        self.send_to_channel(worker, msg, attachments, repo, branch, commits);

        let ghost owner = item_owner.login@;
        let mut slackbots: Vec<User> = Vec::new();
        slackbots.push(item_owner.clone());

        let n = participants.len();
        let mut i: usize = 0;
        proof {
            assert(seq![owner] + logins_of(participants@.take(0)) =~= seq![owner]);
            assert((seq![owner]).drop_last() =~= Seq::<Seq<char>>::empty());
            assert(first_occurrences(Seq::<Seq<char>>::empty()) =~= Seq::<Seq<char>>::empty());
            assert(first_occurrences(seq![owner]) =~= seq![owner]);
            assert(logins_of(slackbots@) =~= first_occurrences(
                seq![owner] + logins_of(participants@.take(0)),
            ));
        }
        while i < n
            invariant
                0 <= i <= n,
                n == participants@.len(),
                owner == item_owner.login@,
                logins_of(slackbots@) == first_occurrences(
                    seq![owner] + logins_of(participants@.take(i as int)),
                ),
            decreases n - i,
        {
            let ghost xprev = seq![owner] + logins_of(participants@.take(i as int));
            let ghost xcur = seq![owner] + logins_of(participants@.take(i + 1));
            proof {
                assert(xcur.drop_last() =~= xprev);
                assert(xcur.last() == participants@[i as int].login@);
            }
            let p = &participants[i];
            if !self.contains_login(&slackbots, p.login.as_str()) {
                proof {
                    lemma_first_occurrences_contains(xprev, p.login@);
                    assert(!xprev.contains(p.login@));
                    assert(first_occurrences(xcur) =~= first_occurrences(xprev) + seq![p.login@]);
                }
                slackbots.push(p.clone());
                proof {
                    assert(logins_of(slackbots@) =~= first_occurrences(xprev).push(p.login@));
                    assert(first_occurrences(xprev) + seq![p.login@] =~= first_occurrences(
                        xprev,
                    ).push(p.login@));
                }
            } else {
                proof {
                    lemma_first_occurrences_contains(xprev, p.login@);
                    assert(xprev.contains(p.login@));
                    assert(first_occurrences(xcur) =~= first_occurrences(xprev));
                }
            }
            proof {
                assert(logins_of(slackbots@) =~= first_occurrences(xcur));
            }
            i = i + 1;
        }
        proof {
            assert(participants@.take(n as int) =~= participants@);
            assert(seq![owner] + logins_of(participants@.take(n as int)) =~= seq![owner]
                + logins_of(participants@));
        }

        // make sure we do not message the sender of this event, nor the
        // bot's own identity
        let mut targets: Vec<User> = Vec::new();
        let m = slackbots.len();
        let mut j: usize = 0;
        proof {
            assert(logins_of(targets@) =~= retained(
                logins_of(slackbots@.take(0)),
                sender.login@,
            ));
        }
        while j < m
            invariant
                0 <= j <= m,
                m == slackbots@.len(),
                owner == item_owner.login@,
                logins_of(slackbots@) == first_occurrences(seq![owner] + logins_of(participants@)),
                logins_of(targets@) == retained(logins_of(slackbots@.take(j as int)), sender.login@),
            decreases m - j,
        {
            proof {
                assert(slackbots@.take(j + 1).len() == j + 1);
                assert(logins_of(slackbots@.take(j + 1)).len() == j + 1);
                assert(logins_of(slackbots@.take(j + 1)).drop_last() =~= logins_of(
                    slackbots@.take(j as int),
                ));
                assert(logins_of(slackbots@.take(j + 1)).last() == slackbots@[j as int].login@);
            }
            let u = &slackbots[j];
            if !str_eq(u.login.as_str(), sender.login.as_str()) && !str_eq(
                u.login.as_str(),
                "octobot",
            ) {
                proof {
                    assert(retained(logins_of(slackbots@.take(j + 1)), sender.login@) =~= retained(
                        logins_of(slackbots@.take(j as int)),
                        sender.login@,
                    ) + seq![u.login@]);
                }
                targets.push(u.clone());
                proof {
                    assert(logins_of(targets@) =~= retained(
                        logins_of(slackbots@.take(j as int)),
                        sender.login@,
                    ).push(u.login@));
                }
            } else {
                proof {
                    assert(retained(logins_of(slackbots@.take(j + 1)), sender.login@) =~= retained(
                        logins_of(slackbots@.take(j as int)),
                        sender.login@,
                    ));
                }
            }
            proof {
                assert(logins_of(targets@) =~= retained(
                    logins_of(slackbots@.take(j + 1)),
                    sender.login@,
                ));
            }
            j = j + 1;
        }
        proof {
            assert(slackbots@.take(m as int) =~= slackbots@);
            assert(logins_of(targets@) == spec_recipients(
                owner,
                logins_of(participants@),
                sender.login@,
            ));
        }

        self.send_to_slackbots(worker, &targets, msg, attachments);
        proof {
            assert(final(worker).pending_views() =~= old(worker).pending_views()
                + spec_send_to_all(
                *self,
                msg@,
                views_of_attachments(attachments@),
                item_owner.login@,
                sender.login@,
                repo.html_url@,
                repo.full_name@,
                logins_of(participants@),
                branch@,
            ));
        }
    }

    /// The narrower fan-out: notifies matching channels, then messages
    /// the item owner alone, if a target is configured; the bot's own
    /// identity is never messaged.
    pub fn send_to_owner(
        &self,
        worker: &mut DeliveryWorker,
        msg: &str,
        attachments: &Vec<SlackAttachment>,
        item_owner: &User,
        repo: &Repo,
        branch: &str,
        commits: &Vec<String>,
    )
        ensures
            final(worker).pending_views() == old(worker).pending_views() + spec_send_to_owner(
                *self,
                msg@,
                views_of_attachments(attachments@),
                item_owner.login@,
                repo.html_url@,
                repo.full_name@,
                branch@,
            ),
    {
        self.send_to_channel(worker, msg, attachments, repo, branch, commits);
        let mut targets: Vec<User> = Vec::new();
        if !str_eq(item_owner.login.as_str(), "octobot") {
            targets.push(item_owner.clone());
            proof {
                assert(logins_of(targets@) =~= seq![item_owner.login@]);
            }
        } else {
            proof {
                assert(logins_of(targets@) =~= Seq::<Seq<char>>::empty());
            }
        }
        self.send_to_slackbots(worker, &targets, msg, attachments);
        proof {
            assert(final(worker).pending_views() =~= old(worker).pending_views()
                + spec_send_to_owner(
                *self,
                msg@,
                views_of_attachments(attachments@),
                item_owner.login@,
                repo.html_url@,
                repo.full_name@,
                branch@,
            ));
        }
    }
}

/// Helper law: every login the exclusions retain differs from the
/// sender's login and from the bot's.
proof fn lemma_retained_excludes(logins: Seq<Seq<char>>, sender: Seq<char>)
    ensures
        forall|i: int|
            0 <= i < retained(logins, sender).len() ==> #[trigger] retained(logins, sender)[i]
                != sender && retained(logins, sender)[i] != bot_login(),
    decreases logins.len(),
{
    if logins.len() > 0 {
        lemma_retained_excludes(logins.drop_last(), sender);
        let r = retained(logins, sender);
        let rp = retained(logins.drop_last(), sender);
        assert forall|i: int| 0 <= i < r.len() implies r[i] != sender && r[i] != bot_login() by {
            if i < rp.len() {
                assert(r[i] == rp[i]);
                assert(rp[i] != sender && rp[i] != bot_login());
            } else {
                assert(r[i] == logins.last());
            }
        }
    }
}

/// Law: the computed recipient set never contains the sender's login
/// and never the bot's own, however either appears among the owner and
/// the participants.
pub proof fn lemma_recipients_exclude_sender_and_bot(
    owner: Seq<char>,
    participants: Seq<Seq<char>>,
    sender: Seq<char>,
)
    ensures
        forall|i: int|
            0 <= i < spec_recipients(owner, participants, sender).len() ==> #[trigger]
                spec_recipients(owner, participants, sender)[i] != sender && spec_recipients(
                owner,
                participants,
                sender,
            )[i] != bot_login(),
{
    lemma_retained_excludes(first_occurrences(seq![owner] + participants), sender);
}

/// Law: when the item owner is the sender and there are no other
/// participants, the general fan-out makes no individual deliveries;
/// matching channels are still notified.
pub proof fn lemma_owner_is_sender_only_channels(
    m: Messenger,
    msg: Seq<char>,
    atts: Seq<AttachmentView>,
    owner: Seq<char>,
    url: Seq<char>,
    full_name: Seq<char>,
    branch: Seq<char>,
)
    ensures
        spec_send_to_all(m, msg, atts, owner, owner, url, full_name, Seq::<Seq<char>>::empty(), branch)
            == channel_requests(m.repos.spec_channels(full_name, branch), msg, url, full_name, atts),
{
    let base = seq![owner] + Seq::<Seq<char>>::empty();
    assert(base =~= seq![owner]);
    assert((seq![owner]).drop_last() =~= Seq::<Seq<char>>::empty());
    assert((seq![owner]).last() == owner);
    assert(first_occurrences(Seq::<Seq<char>>::empty()) =~= Seq::<Seq<char>>::empty());
    assert(first_occurrences(seq![owner]) =~= seq![owner]);
    assert(retained(Seq::<Seq<char>>::empty(), owner) =~= Seq::<Seq<char>>::empty());
    assert(retained(seq![owner], owner) =~= Seq::<Seq<char>>::empty());
    assert(spec_recipients(owner, Seq::<Seq<char>>::empty(), owner) =~= Seq::<Seq<char>>::empty());
    assert(dm_requests(m.users, spec_recipients(owner, Seq::<Seq<char>>::empty(), owner), msg, atts)
        =~= Seq::<RequestView>::empty());
    assert(channel_requests(m.repos.spec_channels(full_name, branch), msg, url, full_name, atts)
        + Seq::<RequestView>::empty() =~= channel_requests(
        m.repos.spec_channels(full_name, branch),
        msg,
        url,
        full_name,
        atts,
    ));
}

} // verus!
