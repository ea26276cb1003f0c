//! The event dispatcher: classifies an inbound event by its declared
//! kind, applies the kind's filtering rules, builds the notification
//! text and attachment, and hands delivery to the messenger.
//!
//! Unknown event kinds are not an error: the dispatcher acknowledges
//! them as unhandled, since the platform may introduce new kinds at
//! any time. Within a recognized kind, missing sub-fields, foreign
//! actions and unrecognized review states all degrade to "nothing to
//! notify", never to a failure.

use vstd::prelude::*;

use crate::github::{logins_of, HookBody, PullRequest, Review, User};
use crate::messenger::{spec_send_to_all, Messenger};
use crate::slack::{
    views_of_attachments, AttachmentColor, AttachmentView, RequestView, SlackAttachment,
    SlackAttachmentBuilder,
};
use crate::users::UserConfig;
use crate::util::{is_blank, make_link, spec_blank, spec_link, str_eq};
use crate::worker::DeliveryWorker;

verus! {

/// The acknowledgment returned for one recognized inbound event.
pub struct Response {
    pub body: String,
}

/// Whether the payload's action field equals `a`.
pub open spec fn action_is(data: HookBody, a: Seq<char>) -> bool {
    match data.action {
        Some(s) => s@ == a,
        None => false,
    }
}

/// The message announcing a comment on an item: the quoted link to it.
pub open spec fn comment_msg(url: Seq<char>, title: Seq<char>) -> Seq<char> {
    "Comment on \""@ + spec_link(url, title) + "\""@
}

/// The attachment built for a comment: the body, titled with the
/// commenter's display name.
pub open spec fn comment_attachment(
    cfg: UserConfig,
    commenter: Seq<char>,
    repo_url: Seq<char>,
    body: Seq<char>,
    comment_url: Seq<char>,
) -> AttachmentView {
    AttachmentView {
        body: body,
        title: cfg.spec_slack_user_name(commenter, repo_url) + " said:"@,
        title_link: comment_url,
        color: AttachmentColor::Plain,
    }
}

/// What the comment path submits: nothing when the body is blank, else
/// the general fan-out of the comment message and attachment, with the
/// item's owner and assignees as participants.
pub open spec fn spec_pr_comment_requests(
    h: GithubHandler,
    pr: PullRequest,
    commenter: User,
    body: Seq<char>,
    comment_url: Seq<char>,
    data: HookBody,
) -> Seq<RequestView> {
    if spec_blank(body) {
        Seq::<RequestView>::empty()
    } else {
        spec_send_to_all(
            h.messenger,
            comment_msg(pr.html_url@, pr.title@),
            seq![
                comment_attachment(
                    h.users,
                    commenter.login@,
                    data.repository.html_url@,
                    body,
                    comment_url,
                ),
            ],
            pr.user.login@,
            data.sender.login@,
            data.repository.html_url@,
            data.repository.full_name@,
            logins_of(pr.assignees@),
            ""@,
        )
    }
}

/// What the review-comment event submits: the comment path, but only
/// for the `"created"` action on a payload carrying both the pull
/// request and the comment.
pub open spec fn spec_pr_review_comment_requests(h: GithubHandler, data: HookBody) -> Seq<
    RequestView,
> {
    match data.pull_request {
        Some(pr) => match data.comment {
            Some(comment) => {
                if action_is(data, "created"@) {
                    spec_pr_comment_requests(
                        h,
                        pr,
                        comment.user,
                        comment.body@,
                        comment.html_url@,
                        data,
                    )
                } else {
                    Seq::<RequestView>::empty()
                }
            },
            None => Seq::<RequestView>::empty(),
        },
        None => Seq::<RequestView>::empty(),
    }
}

/// The message announcing a submitted review: display name, verb, and
/// the quoted link to the pull request.
pub open spec fn review_msg(
    name: Seq<char>,
    verb: Seq<char>,
    pr_url: Seq<char>,
    pr_title: Seq<char>,
) -> Seq<char> {
    name + " "@ + verb + " PR \""@ + spec_link(pr_url, pr_title) + "\""@
}

/// What a recognized non-comment review submits: the general fan-out
/// of the review message and one attachment titled with the state.
pub open spec fn spec_review_fanout(
    h: GithubHandler,
    pr: PullRequest,
    review: Review,
    data: HookBody,
    verb: Seq<char>,
    state_title: Seq<char>,
    color: AttachmentColor,
) -> Seq<RequestView> {
    spec_send_to_all(
        h.messenger,
        review_msg(
            h.users.spec_slack_user_name(review.user.login@, data.repository.html_url@),
            verb,
            pr.html_url@,
            pr.title@,
        ),
        seq![
            AttachmentView {
                body: review.body@,
                title: "Review: "@ + state_title,
                title_link: review.html_url@,
                color: color,
            },
        ],
        pr.user.login@,
        data.sender.login@,
        data.repository.html_url@,
        data.repository.full_name@,
        logins_of(pr.assignees@),
        ""@,
    )
}

/// What the review event submits. Only `action == "submitted"` is
/// considered; a `"commented"` review takes the plain comment path;
/// `"changes_requested"` and `"approved"` fan out with their own verb,
/// title and color; every other state submits nothing.
pub open spec fn spec_pr_review_requests(h: GithubHandler, data: HookBody) -> Seq<RequestView> {
    match data.pull_request {
        Some(pr) => match data.review {
            Some(review) => {
                if action_is(data, "submitted"@) {
                    if review.state@ == "commented"@ {
                        spec_pr_comment_requests(
                            h,
                            pr,
                            review.user,
                            review.body@,
                            review.html_url@,
                            data,
                        )
                    } else if review.state@ == "changes_requested"@ {
                        spec_review_fanout(
                            h,
                            pr,
                            review,
                            data,
                            "requested changes to"@,
                            "Changes Requested"@,
                            AttachmentColor::Danger,
                        )
                    } else if review.state@ == "approved"@ {
                        spec_review_fanout(
                            h,
                            pr,
                            review,
                            data,
                            "approved"@,
                            "Approved"@,
                            AttachmentColor::Good,
                        )
                    } else {
                        Seq::<RequestView>::empty()
                    }
                } else {
                    Seq::<RequestView>::empty()
                }
            },
            None => Seq::<RequestView>::empty(),
        },
        None => Seq::<RequestView>::empty(),
    }
}

/// The acknowledgment body of the review event: it names the comment
/// path and the ignored states.
pub open spec fn spec_pr_review_ack(data: HookBody) -> Seq<char> {
    match data.pull_request {
        Some(pr) => match data.review {
            Some(review) => {
                if action_is(data, "submitted"@) {
                    if review.state@ == "commented"@ {
                        "pr_review [comment]"@
                    } else if review.state@ == "changes_requested"@ {
                        "pr_review"@
                    } else if review.state@ == "approved"@ {
                        "pr_review"@
                    } else {
                        "pr_review [ignored]"@
                    }
                } else {
                    "pr_review"@
                }
            },
            None => "pr_review"@,
        },
        None => "pr_review"@,
    }
}

/// The abbreviated commit id: the first seven characters when the id
/// is that long, else the whole id.
pub open spec fn abbrev_commit(id: Seq<char>) -> Seq<char> {
    if id.len() >= 7 {
        id.take(7)
    } else {
        id
    }
}

/// The URL of one commit under the repository.
pub open spec fn commit_url_of(repo_url: Seq<char>, id: Seq<char>) -> Seq<char> {
    repo_url + "/commit/"@ + id
}

/// The message announcing a commit comment: the commented path (or the
/// abbreviated commit when no path is given) and a link to the commit.
pub open spec fn commit_comment_msg(repo_url: Seq<char>, id: Seq<char>, path: Option<String>) -> Seq<
    char,
> {
    "Comment on \""@ + (match path {
        Some(p) => p@,
        None => abbrev_commit(id),
    }) + "\" ("@ + spec_link(commit_url_of(repo_url, id), abbrev_commit(id)) + ")"@
}

/// What the commit-comment event submits: nothing unless the action is
/// `"created"` and the body is not blank; else the general fan-out with
/// the commenter as item owner and no further participants.
pub open spec fn spec_commit_comment_requests(h: GithubHandler, data: HookBody) -> Seq<
    RequestView,
> {
    match data.comment {
        Some(comment) => {
            if action_is(data, "created"@) && !spec_blank(comment.body@) {
                spec_send_to_all(
                    h.messenger,
                    commit_comment_msg(
                        data.repository.html_url@,
                        comment.commit_id@,
                        comment.path,
                    ),
                    seq![
                        comment_attachment(
                            h.users,
                            comment.user.login@,
                            data.repository.html_url@,
                            comment.body@,
                            comment.html_url@,
                        ),
                    ],
                    comment.user.login@,
                    data.sender.login@,
                    data.repository.html_url@,
                    data.repository.full_name@,
                    Seq::<Seq<char>>::empty(),
                    ""@,
                )
            } else {
                Seq::<RequestView>::empty()
            }
        },
        None => Seq::<RequestView>::empty(),
    }
}

/// What the issue-comment event submits: nothing unless the action is
/// `"created"` and the body is not blank; else the general fan-out with
/// the issue's owner and assignees as participants.
pub open spec fn spec_issue_comment_requests(h: GithubHandler, data: HookBody) -> Seq<RequestView> {
    match data.issue {
        Some(issue) => match data.comment {
            Some(comment) => {
                if action_is(data, "created"@) && !spec_blank(comment.body@) {
                    spec_send_to_all(
                        h.messenger,
                        comment_msg(issue.html_url@, issue.title@),
                        seq![
                            comment_attachment(
                                h.users,
                                comment.user.login@,
                                data.repository.html_url@,
                                comment.body@,
                                comment.html_url@,
                            ),
                        ],
                        issue.user.login@,
                        data.sender.login@,
                        data.repository.html_url@,
                        data.repository.full_name@,
                        logins_of(issue.assignees@),
                        ""@,
                    )
                } else {
                    Seq::<RequestView>::empty()
                }
            },
            None => Seq::<RequestView>::empty(),
        },
        None => Seq::<RequestView>::empty(),
    }
}

/// Whether the dispatcher recognizes the event kind.
pub open spec fn spec_known_event(kind: Seq<char>) -> bool {
    ||| kind == "ping"@
    ||| kind == "pull_request"@
    ||| kind == "pull_request_review_comment"@
    ||| kind == "pull_request_review"@
    ||| kind == "commit_comment"@
    ||| kind == "issue_comment"@
    ||| kind == "push"@
}

/// Everything one inbound event submits to the delivery worker. The
/// ping, pull-request and push kinds, and unknown kinds, submit
/// nothing; the branches mirror the dispatch order.
pub open spec fn spec_event_requests(h: GithubHandler, kind: Seq<char>, data: HookBody) -> Seq<
    RequestView,
> {
    if kind == "ping"@ {
        Seq::<RequestView>::empty()
    } else if kind == "pull_request"@ {
        Seq::<RequestView>::empty()
    } else if kind == "pull_request_review_comment"@ {
        spec_pr_review_comment_requests(h, data)
    } else if kind == "pull_request_review"@ {
        spec_pr_review_requests(h, data)
    } else if kind == "commit_comment"@ {
        spec_commit_comment_requests(h, data)
    } else if kind == "issue_comment"@ {
        spec_issue_comment_requests(h, data)
    } else {
        Seq::<RequestView>::empty()
    }
}

/// The acknowledgment body for each recognized kind, mirroring the
/// dispatch order.
pub open spec fn spec_event_ack(kind: Seq<char>, data: HookBody) -> Seq<char> {
    if kind == "ping"@ {
        "ping"@
    } else if kind == "pull_request"@ {
        "pr"@
    } else if kind == "pull_request_review_comment"@ {
        "pr_review_comment"@
    } else if kind == "pull_request_review"@ {
        spec_pr_review_ack(data)
    } else if kind == "commit_comment"@ {
        "commit_comment"@
    } else if kind == "issue_comment"@ {
        "issue_comment"@
    } else {
        "push"@
    }
}

/// Law: a blank or whitespace-only comment body yields nothing on the
/// shared comment path, whatever the other inputs: no request is
/// submitted, and this is not an error.
pub proof fn lemma_blank_comment_path_empty(
    h: GithubHandler,
    pr: PullRequest,
    commenter: User,
    body: Seq<char>,
    comment_url: Seq<char>,
    data: HookBody,
)
    requires
        spec_blank(body),
    ensures
        spec_pr_comment_requests(h, pr, commenter, body, comment_url, data) == Seq::<
            RequestView,
        >::empty(),
{
}

/// Law: a blank or whitespace-only comment body submits nothing, on
/// every comment-bearing path: review comments, commit comments, issue
/// comments, and a review whose state is `"commented"`.
pub proof fn lemma_blank_comment_no_requests(h: GithubHandler, data: HookBody)
    requires
        data.comment is Some ==> spec_blank(data.comment->0.body@),
        data.review is Some ==> spec_blank(data.review->0.body@),
    ensures
        spec_pr_review_comment_requests(h, data) == Seq::<RequestView>::empty(),
        spec_commit_comment_requests(h, data) == Seq::<RequestView>::empty(),
        spec_issue_comment_requests(h, data) == Seq::<RequestView>::empty(),
        data.review is Some && data.review->0.state@ == "commented"@
            ==> spec_pr_review_requests(h, data) == Seq::<RequestView>::empty(),
{
}

/// Dispatches inbound webhook events; stateless between invocations.
/// `users` resolves the display names the message texts carry; the
/// messenger's own directory resolves direct-message targets. One
/// configuration snapshot typically backs both.
pub struct GithubHandler {
    pub users: UserConfig,
    pub messenger: Messenger,
}

impl GithubHandler {
    /// Whether the payload's action equals `a`.
    fn action_matches(&self, data: &HookBody, a: &str) -> (r: bool)
        ensures
            r == action_is(*data, a@),
    {
        match &data.action {
            Some(s) => str_eq(s.as_str(), a),
            None => false,
        }
    }

    /// An acknowledgment with the given body.
    fn ack(&self, body: &str) -> (r: Response)
        ensures
            r.body@ == body@,
    {
        Response { body: body.to_owned() }
    }

    /// Acknowledges a ping; never builds a notification.
    pub fn handle_ping(&self, _data: &HookBody) -> (r: Response)
        ensures
            r.body@ == "ping"@,
    {
        self.ack("ping")
    }

    /// Acknowledges a pull-request event; a placeholder path that
    /// computes no notification.
    pub fn handle_pr(&self, _data: &HookBody) -> (r: Response)
        ensures
            r.body@ == "pr"@,
    {
        self.ack("pr")
    }

    /// Acknowledges a push; a placeholder path that computes no
    /// notification.
    pub fn handle_push(&self, _data: &HookBody) -> (r: Response)
        ensures
            r.body@ == "push"@,
    {
        self.ack("push")
    }

    /// The comment path shared by the comment-bearing events: drops a
    /// blank body, else fans the comment out to channels, the item
    /// owner and the assignees.
    fn do_pull_request_comment(
        &self,
        worker: &mut DeliveryWorker,
        pull_request: &PullRequest,
        commenter: &User,
        comment_body: &str,
        comment_url: &str,
        data: &HookBody,
    )
        ensures
            final(worker).pending_views() == old(worker).pending_views()
                + spec_pr_comment_requests(
                *self,
                *pull_request,
                *commenter,
                comment_body@,
                comment_url@,
                *data,
            ),
    {
        let ghost expected = spec_pr_comment_requests(
            *self,
            *pull_request,
            *commenter,
            comment_body@,
            comment_url@,
            *data,
        );
        if is_blank(comment_body) {
            proof {
                assert(worker.pending_views() =~= old(worker).pending_views() + expected);
            }
            return ;
        }
        let link = make_link(pull_request.html_url.as_str(), pull_request.title.as_str());
        let mut msg = String::new();
        msg.append("Comment on \"");
        msg.append(link.as_str());
        msg.append("\"");
        proof {
            assert(msg@ =~= comment_msg(pull_request.html_url@, pull_request.title@));
        }

        let mut title = self.users.slack_user_name(commenter.login.as_str(), &data.repository);
        title.append(" said:");
        let ghost title_v = title@;

        let attachment = SlackAttachmentBuilder::new(comment_body).title(title).title_link(
            comment_url,
        ).build();
        proof {
            assert(title_v =~= self.users.spec_slack_user_name(
                commenter.login@,
                data.repository.html_url@,
            ) + " said:"@);
            assert(attachment@ == comment_attachment(
                self.users,
                commenter.login@,
                data.repository.html_url@,
                comment_body@,
                comment_url@,
            ));
        }
        let ghost att_v = attachment@;
        let mut attachments: Vec<SlackAttachment> = Vec::new();
        attachments.push(attachment);
        proof {
            assert(views_of_attachments(attachments@) =~= seq![att_v]);
        }
        let commits: Vec<String> = Vec::new();
        self.messenger.send_to_all(
            worker,
            msg.as_str(),
            &attachments,
            &pull_request.user,
            &data.sender,
            &data.repository,
            &pull_request.assignees,
            "",
            &commits,
        );
        proof {
            assert(final(worker).pending_views() =~= old(worker).pending_views() + expected);
        }
    }

    /// A comment-bearing event on a pull request: only the `"created"`
    /// action notifies.
    pub fn handle_pr_review_comment(&self, worker: &mut DeliveryWorker, data: &HookBody) -> (r:
        Response)
        ensures
            final(worker).pending_views() == old(worker).pending_views()
                + spec_pr_review_comment_requests(*self, *data),
            r.body@ == "pr_review_comment"@,
    {
        if let Some(pull_request) = &data.pull_request {
            if let Some(comment) = &data.comment {
                if self.action_matches(data, "created") {
                    self.do_pull_request_comment(
                        worker,
                        pull_request,
                        &comment.user,
                        comment.body.as_str(),
                        comment.html_url.as_str(),
                        data,
                    );
                }
            }
        }
        proof {
            assert(worker.pending_views() =~= old(worker).pending_views()
                + spec_pr_review_comment_requests(*self, *data));
        }
        self.ack("pr_review_comment")
    }

    /// The fan-out for a recognized non-comment review state.
    fn review_fanout(
        &self,
        worker: &mut DeliveryWorker,
        pull_request: &PullRequest,
        review: &Review,
        data: &HookBody,
        verb: &str,
        state_title: &str,
        color: AttachmentColor,
    )
        ensures
            final(worker).pending_views() == old(worker).pending_views() + spec_review_fanout(
                *self,
                *pull_request,
                *review,
                *data,
                verb@,
                state_title@,
                color,
            ),
    {
        let slack_user = self.users.slack_user_name(review.user.login.as_str(), &data.repository);
        let link = make_link(pull_request.html_url.as_str(), pull_request.title.as_str());
        let mut msg = slack_user;
        msg.append(" ");
        msg.append(verb);
        msg.append(" PR \"");
        msg.append(link.as_str());
        msg.append("\"");
        proof {
            assert(msg@ =~= review_msg(
                self.users.spec_slack_user_name(review.user.login@, data.repository.html_url@),
                verb@,
                pull_request.html_url@,
                pull_request.title@,
            ));
        }

        let mut title = String::new();
        title.append("Review: ");
        title.append(state_title);
        let ghost title_v = title@;

        let attachment = SlackAttachmentBuilder::new(review.body.as_str()).title(title).title_link(
            review.html_url.as_str(),
        ).color(color).build();
        proof {
            assert(title_v =~= "Review: "@ + state_title@);
            assert(attachment@ == (AttachmentView {
                body: review.body@,
                title: "Review: "@ + state_title@,
                title_link: review.html_url@,
                color: color,
            }));
        }
        let ghost att_v = attachment@;
        let mut attachments: Vec<SlackAttachment> = Vec::new();
        attachments.push(attachment);
        proof {
            assert(views_of_attachments(attachments@) =~= seq![att_v]);
        }
        let commits: Vec<String> = Vec::new();
        self.messenger.send_to_all(
            worker,
            msg.as_str(),
            &attachments,
            &pull_request.user,
            &data.sender,
            &data.repository,
            &pull_request.assignees,
            "",
            &commits,
        );
        proof {
            assert(final(worker).pending_views() =~= old(worker).pending_views()
                + spec_review_fanout(
                *self,
                *pull_request,
                *review,
                *data,
                verb@,
                state_title@,
                color,
            ));
        }
    }

    /// A review event: only `action == "submitted"` is considered; the
    /// state selects the comment path, a distinct fan-out, or a no-op.
    pub fn handle_pr_review(&self, worker: &mut DeliveryWorker, data: &HookBody) -> (r: Response)
        ensures
            final(worker).pending_views() == old(worker).pending_views()
                + spec_pr_review_requests(*self, *data),
            r.body@ == spec_pr_review_ack(*data),
    {
        if let Some(pull_request) = &data.pull_request {
            if let Some(review) = &data.review {
                if self.action_matches(data, "submitted") {
                    // just a comment: handled by the regular comment path
                    if str_eq(review.state.as_str(), "commented") {
                        self.do_pull_request_comment(
                            worker,
                            pull_request,
                            &review.user,
                            review.body.as_str(),
                            review.html_url.as_str(),
                            data,
                        );
                        return self.ack("pr_review [comment]");
                    }
                    if str_eq(review.state.as_str(), "changes_requested") {
                        self.review_fanout(
                            worker,
                            pull_request,
                            review,
                            data,
                            "requested changes to",
                            "Changes Requested",
                            AttachmentColor::Danger,
                        );
                        return self.ack("pr_review");
                    }
                    if str_eq(review.state.as_str(), "approved") {
                        self.review_fanout(
                            worker,
                            pull_request,
                            review,
                            data,
                            "approved",
                            "Approved",
                            AttachmentColor::Good,
                        );
                        return self.ack("pr_review");
                    }
                    proof {
                        assert(worker.pending_views() =~= old(worker).pending_views()
                            + spec_pr_review_requests(*self, *data));
                    }
                    return self.ack("pr_review [ignored]");
                }
            }
        }
        proof {
            assert(worker.pending_views() =~= old(worker).pending_views()
                + spec_pr_review_requests(*self, *data));
        }
        self.ack("pr_review")
    }

    /// A comment on a commit: only the `"created"` action with a
    /// non-blank body notifies; the message names the commented path,
    /// or the abbreviated commit when no path is given.
    pub fn handle_commit_comment(&self, worker: &mut DeliveryWorker, data: &HookBody) -> (r:
        Response)
        ensures
            final(worker).pending_views() == old(worker).pending_views()
                + spec_commit_comment_requests(*self, *data),
            r.body@ == "commit_comment"@,
    {
        if let Some(comment) = &data.comment {
            if self.action_matches(data, "created") && !is_blank(comment.body.as_str()) {
                let id_len = comment.commit_id.as_str().unicode_len();
                let commit: String = if id_len >= 7 {
                    comment.commit_id.as_str().substring_char(0, 7).to_owned()
                } else {
                    comment.commit_id.clone()
                };
                proof {
                    assert(commit@ =~= abbrev_commit(comment.commit_id@));
                }

                let mut commit_url = data.repository.html_url.clone();
                commit_url.append("/commit/");
                commit_url.append(comment.commit_id.as_str());
                proof {
                    assert(commit_url@ =~= commit_url_of(
                        data.repository.html_url@,
                        comment.commit_id@,
                    ));
                }

                let commit_path: String = match &comment.path {
                    Some(path) => path.clone(),
                    None => commit.clone(),
                };

                let link = make_link(commit_url.as_str(), commit.as_str());
                let mut msg = String::new();
                msg.append("Comment on \"");
                msg.append(commit_path.as_str());
                msg.append("\" (");
                msg.append(link.as_str());
                msg.append(")");
                proof {
                    assert(msg@ =~= commit_comment_msg(
                        data.repository.html_url@,
                        comment.commit_id@,
                        comment.path,
                    ));
                }

                let mut title = self.users.slack_user_name(
                    comment.user.login.as_str(),
                    &data.repository,
                );
                title.append(" said:");
                let ghost title_v = title@;

                let attachment = SlackAttachmentBuilder::new(comment.body.as_str()).title(
                    title,
                ).title_link(comment.html_url.as_str()).build();
                proof {
                    assert(title_v =~= self.users.spec_slack_user_name(
                        comment.user.login@,
                        data.repository.html_url@,
                    ) + " said:"@);
                    assert(attachment@ == comment_attachment(
                        self.users,
                        comment.user.login@,
                        data.repository.html_url@,
                        comment.body@,
                        comment.html_url@,
                    ));
                }
                let ghost att_v = attachment@;
                let mut attachments: Vec<SlackAttachment> = Vec::new();
                attachments.push(attachment);
                proof {
                    assert(views_of_attachments(attachments@) =~= seq![att_v]);
                }
                let no_participants: Vec<User> = Vec::new();
                let commits: Vec<String> = Vec::new();
                proof {
                    assert(logins_of(no_participants@) =~= Seq::<Seq<char>>::empty());
                }
                self.messenger.send_to_all(
                    worker,
                    msg.as_str(),
                    &attachments,
                    &comment.user,
                    &data.sender,
                    &data.repository,
                    &no_participants,
                    "",
                    &commits,
                );
            }
        }
        proof {
            assert(final(worker).pending_views() =~= old(worker).pending_views()
                + spec_commit_comment_requests(*self, *data));
        }
        self.ack("commit_comment")
    }

    /// A comment on an issue: only the `"created"` action with a
    /// non-blank body notifies the issue's owner and assignees.
    pub fn handle_issue_comment(&self, worker: &mut DeliveryWorker, data: &HookBody) -> (r:
        Response)
        ensures
            final(worker).pending_views() == old(worker).pending_views()
                + spec_issue_comment_requests(*self, *data),
            r.body@ == "issue_comment"@,
    {
        if let Some(issue) = &data.issue {
            if let Some(comment) = &data.comment {
                if self.action_matches(data, "created") && !is_blank(comment.body.as_str()) {
                    let link = make_link(issue.html_url.as_str(), issue.title.as_str());
                    let mut msg = String::new();
                    msg.append("Comment on \"");
                    msg.append(link.as_str());
                    msg.append("\"");
                    proof {
                        assert(msg@ =~= comment_msg(issue.html_url@, issue.title@));
                    }

                    let mut title = self.users.slack_user_name(
                        comment.user.login.as_str(),
                        &data.repository,
                    );
                    title.append(" said:");
                    let ghost title_v = title@;

                    let attachment = SlackAttachmentBuilder::new(comment.body.as_str()).title(
                        title,
                    ).title_link(comment.html_url.as_str()).build();
                    proof {
                        assert(title_v =~= self.users.spec_slack_user_name(
                            comment.user.login@,
                            data.repository.html_url@,
                        ) + " said:"@);
                        assert(attachment@ == comment_attachment(
                            self.users,
                            comment.user.login@,
                            data.repository.html_url@,
                            comment.body@,
                            comment.html_url@,
                        ));
                    }
                    let ghost att_v = attachment@;
                    let mut attachments: Vec<SlackAttachment> = Vec::new();
                    attachments.push(attachment);
                    proof {
                        assert(views_of_attachments(attachments@) =~= seq![att_v]);
                    }
                    let commits: Vec<String> = Vec::new();
                    self.messenger.send_to_all(
                        worker,
                        msg.as_str(),
                        &attachments,
                        &issue.user,
                        &data.sender,
                        &data.repository,
                        &issue.assignees,
                        "",
                        &commits,
                    );
                }
            }
        }
        proof {
            assert(final(worker).pending_views() =~= old(worker).pending_views()
                + spec_issue_comment_requests(*self, *data));
        }
        self.ack("issue_comment")
    }

    /// Classifies the event by kind and hands it to the kind's handler.
    /// A recognized kind is acknowledged; an unknown kind is not an
    /// error, only unhandled. Exactly the requests of the kind's rules
    /// are submitted to the worker.
    pub fn handle_event(&self, worker: &mut DeliveryWorker, event: &String, data: &HookBody) -> (r:
        Option<Response>)
        ensures
            r is Some <==> spec_known_event(event@),
            final(worker).pending_views() == old(worker).pending_views() + spec_event_requests(
                *self,
                event@,
                *data,
            ),
            r is Some ==> r->0.body@ == spec_event_ack(event@, *data),
    {
        let e = event.as_str();
        if str_eq(e, "ping") {
            let r = Some(self.handle_ping(data));
            proof {
                assert(worker.pending_views() =~= old(worker).pending_views()
                    + spec_event_requests(*self, event@, *data));
            }
            r
        } else if str_eq(e, "pull_request") {
            let r = Some(self.handle_pr(data));
            proof {
                assert(worker.pending_views() =~= old(worker).pending_views()
                    + spec_event_requests(*self, event@, *data));
            }
            r
        } else if str_eq(e, "pull_request_review_comment") {
            Some(self.handle_pr_review_comment(worker, data))
        } else if str_eq(e, "pull_request_review") {
            Some(self.handle_pr_review(worker, data))
        } else if str_eq(e, "commit_comment") {
            Some(self.handle_commit_comment(worker, data))
        } else if str_eq(e, "issue_comment") {
            Some(self.handle_issue_comment(worker, data))
        } else if str_eq(e, "push") {
            let r = Some(self.handle_push(data));
            proof {
                assert(worker.pending_views() =~= old(worker).pending_views()
                    + spec_event_requests(*self, event@, *data));
            }
            r
        } else {
            proof {
                assert(worker.pending_views() =~= old(worker).pending_views()
                    + spec_event_requests(*self, event@, *data));
            }
            None
        }
    }
}

} // verus!
