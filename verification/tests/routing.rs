use octobot::github::{Comment, HookBody, Issue, PullRequest, Repo, Review, User};
use octobot::github_handler::GithubHandler;
use octobot::messenger;
use octobot::repos::RepoConfig;
use octobot::slack::{AttachmentColor, SlackRecipient};
use octobot::users::UserConfig;
use octobot::worker::DeliveryWorker;

fn user(login: &str) -> User {
    User {
        login: login.to_string(),
    }
}

fn repo_at(url: &str, full_name: &str) -> Repo {
    Repo {
        html_url: url.to_string(),
        full_name: full_name.to_string(),
    }
}

fn empty_body(sender: &str, repository: Repo) -> HookBody {
    HookBody {
        action: None,
        sender: user(sender),
        repository,
        pull_request: None,
        review: None,
        comment: None,
        issue: None,
    }
}

fn comment_by(login: &str, body: &str, url: &str) -> Comment {
    Comment {
        commit_id: "".to_string(),
        path: None,
        body: body.to_string(),
        html_url: url.to_string(),
        user: user(login),
    }
}

#[test]
fn issue_comment_notifies_channel_and_owner() {
    let mut users = UserConfig::new();
    users.insert_dm("alice", "D1");
    let mut repos = RepoConfig::new();
    repos.add_rule("the-org/the-repo", None, "#dev");
    let handler = GithubHandler {
        users: UserConfig::new(),
        messenger: messenger::new(users, repos),
    };
    let mut worker = DeliveryWorker::new();

    let mut data = empty_body(
        "bob",
        repo_at("http://git.company.com/the-org/the-repo", "the-org/the-repo"),
    );
    data.action = Some("created".to_string());
    data.comment = Some(comment_by("bob", "looks good", "http://c"));
    data.issue = Some(Issue {
        html_url: "http://git.company.com/the-org/the-repo/issues/1".to_string(),
        title: "the issue".to_string(),
        user: user("alice"),
        assignees: vec![],
    });

    let r = handler.handle_event(&mut worker, &"issue_comment".to_string(), &data);
    assert_eq!("issue_comment", r.unwrap().body);
    assert_eq!(2, worker.pending_len());

    let first = worker.take_next().unwrap();
    match &first.recipient {
        SlackRecipient::Channel(name) => assert_eq!("#dev", name),
        _ => panic!("expected a channel delivery first"),
    }
    assert_eq!(
        "Comment on \"<http://git.company.com/the-org/the-repo/issues/1|the issue>\" \
         (<http://git.company.com/the-org/the-repo|the-org/the-repo>)",
        first.msg
    );
    assert_eq!(1, first.attachments.len());
    assert_eq!("looks good", first.attachments[0].body);
    assert_eq!("bob said:", first.attachments[0].title);

    let second = worker.take_next().unwrap();
    match &second.recipient {
        SlackRecipient::User(target) => assert_eq!("D1", target),
        _ => panic!("expected a direct message second"),
    }
    assert!(worker.take_next().is_none());
}

#[test]
fn review_approved_produces_good_attachment() {
    let mut users = UserConfig::new();
    users.insert_dm("carol", "DC");
    let handler = GithubHandler {
        users: UserConfig::new(),
        messenger: messenger::new(users, RepoConfig::new()),
    };
    let mut worker = DeliveryWorker::new();

    let mut data = empty_body("dave", repo_at("http://git.company.com/o/r", "o/r"));
    data.action = Some("submitted".to_string());
    data.pull_request = Some(PullRequest {
        html_url: "http://git.company.com/o/r/pull/5".to_string(),
        title: "a change".to_string(),
        user: user("carol"),
        assignees: vec![],
    });
    data.review = Some(Review {
        state: "approved".to_string(),
        body: "looks right".to_string(),
        html_url: "http://git.company.com/o/r/pull/5#review".to_string(),
        user: user("dave"),
    });

    let r = handler.handle_event(&mut worker, &"pull_request_review".to_string(), &data);
    assert_eq!("pr_review", r.unwrap().body);

    let dm = worker.take_next().unwrap();
    match &dm.recipient {
        SlackRecipient::User(target) => assert_eq!("DC", target),
        _ => panic!("expected a direct message"),
    }
    assert_eq!(
        "dave approved PR \"<http://git.company.com/o/r/pull/5|a change>\"",
        dm.msg
    );
    assert_eq!(1, dm.attachments.len());
    assert_eq!("Review: Approved", dm.attachments[0].title);
    assert!(dm.attachments[0].color == AttachmentColor::Good);
    assert_eq!("looks right", dm.attachments[0].body);
    assert!(worker.take_next().is_none());
}

#[test]
fn review_changes_requested_produces_danger_attachment() {
    let mut users = UserConfig::new();
    users.insert_dm("carol", "DC");
    let handler = GithubHandler {
        users: UserConfig::new(),
        messenger: messenger::new(users, RepoConfig::new()),
    };
    let mut worker = DeliveryWorker::new();

    let mut data = empty_body("dave", repo_at("http://git.company.com/o/r", "o/r"));
    data.action = Some("submitted".to_string());
    data.pull_request = Some(PullRequest {
        html_url: "http://git.company.com/o/r/pull/5".to_string(),
        title: "a change".to_string(),
        user: user("carol"),
        assignees: vec![],
    });
    data.review = Some(Review {
        state: "changes_requested".to_string(),
        body: "please fix".to_string(),
        html_url: "http://rv".to_string(),
        user: user("dave"),
    });

    let r = handler.handle_event(&mut worker, &"pull_request_review".to_string(), &data);
    assert_eq!("pr_review", r.unwrap().body);
    let dm = worker.take_next().unwrap();
    assert_eq!(
        "dave requested changes to PR \"<http://git.company.com/o/r/pull/5|a change>\"",
        dm.msg
    );
    assert_eq!("Review: Changes Requested", dm.attachments[0].title);
    assert!(dm.attachments[0].color == AttachmentColor::Danger);
}

#[test]
fn review_dismissed_is_acknowledged_without_deliveries() {
    let mut users = UserConfig::new();
    users.insert_dm("carol", "DC");
    let handler = GithubHandler {
        users: UserConfig::new(),
        messenger: messenger::new(users, RepoConfig::new()),
    };
    let mut worker = DeliveryWorker::new();

    let mut data = empty_body("dave", repo_at("http://git.company.com/o/r", "o/r"));
    data.action = Some("submitted".to_string());
    data.pull_request = Some(PullRequest {
        html_url: "http://pr".to_string(),
        title: "a change".to_string(),
        user: user("carol"),
        assignees: vec![],
    });
    data.review = Some(Review {
        state: "dismissed".to_string(),
        body: "gone".to_string(),
        html_url: "http://rv".to_string(),
        user: user("dave"),
    });

    let r = handler.handle_event(&mut worker, &"pull_request_review".to_string(), &data);
    assert_eq!("pr_review [ignored]", r.unwrap().body);
    assert_eq!(0, worker.pending_len());
}

#[test]
fn blank_comment_body_submits_nothing() {
    let mut users = UserConfig::new();
    users.insert_dm("alice", "D1");
    let mut repos = RepoConfig::new();
    repos.add_rule("o/r", None, "#dev");
    let handler = GithubHandler {
        users: UserConfig::new(),
        messenger: messenger::new(users, repos),
    };
    let mut worker = DeliveryWorker::new();

    let mut data = empty_body("bob", repo_at("http://git.company.com/o/r", "o/r"));
    data.action = Some("created".to_string());
    data.comment = Some(comment_by("bob", " \t \n ", "http://c"));
    data.issue = Some(Issue {
        html_url: "http://i".to_string(),
        title: "t".to_string(),
        user: user("alice"),
        assignees: vec![],
    });
    data.pull_request = Some(PullRequest {
        html_url: "http://pr".to_string(),
        title: "t".to_string(),
        user: user("alice"),
        assignees: vec![],
    });

    let r = handler.handle_event(&mut worker, &"issue_comment".to_string(), &data);
    assert!(r.is_some());
    assert_eq!(0, worker.pending_len());

    let r = handler.handle_event(&mut worker, &"pull_request_review_comment".to_string(), &data);
    assert!(r.is_some());
    assert_eq!(0, worker.pending_len());

    let r = handler.handle_event(&mut worker, &"commit_comment".to_string(), &data);
    assert!(r.is_some());
    assert_eq!(0, worker.pending_len());
}

#[test]
fn owner_as_sender_gets_channel_delivery_only() {
    let mut users = UserConfig::new();
    users.insert_dm("alice", "D1");
    let mut repos = RepoConfig::new();
    repos.add_rule("o/r", None, "#dev");
    let handler = GithubHandler {
        users: UserConfig::new(),
        messenger: messenger::new(users, repos),
    };
    let mut worker = DeliveryWorker::new();

    let mut data = empty_body("alice", repo_at("http://git.company.com/o/r", "o/r"));
    data.action = Some("created".to_string());
    data.comment = Some(comment_by("alice", "note to self", "http://c"));
    data.issue = Some(Issue {
        html_url: "http://i".to_string(),
        title: "t".to_string(),
        user: user("alice"),
        assignees: vec![],
    });

    handler.handle_event(&mut worker, &"issue_comment".to_string(), &data);
    assert_eq!(1, worker.pending_len());
    let only = worker.take_next().unwrap();
    assert!(matches!(only.recipient, SlackRecipient::Channel(_)));
}

#[test]
fn bot_login_is_never_messaged() {
    let mut users = UserConfig::new();
    users.insert_dm("octobot", "DBOT");
    users.insert_dm("eve", "DE");
    let handler = GithubHandler {
        users: UserConfig::new(),
        messenger: messenger::new(users, RepoConfig::new()),
    };
    let mut worker = DeliveryWorker::new();

    let mut data = empty_body("bob", repo_at("http://git.company.com/o/r", "o/r"));
    data.action = Some("created".to_string());
    data.comment = Some(comment_by("bob", "hello", "http://c"));
    data.issue = Some(Issue {
        html_url: "http://i".to_string(),
        title: "t".to_string(),
        user: user("octobot"),
        assignees: vec![user("eve"), user("octobot")],
    });

    handler.handle_event(&mut worker, &"issue_comment".to_string(), &data);
    assert_eq!(1, worker.pending_len());
    let only = worker.take_next().unwrap();
    match &only.recipient {
        SlackRecipient::User(target) => assert_eq!("DE", target),
        _ => panic!("expected the one remaining direct message"),
    }
}

#[test]
fn unknown_event_kind_is_unhandled() {
    let handler = GithubHandler {
        users: UserConfig::new(),
        messenger: messenger::new(UserConfig::new(), RepoConfig::new()),
    };
    let mut worker = DeliveryWorker::new();
    let data = empty_body("bob", repo_at("http://u", "o/r"));
    let r = handler.handle_event(&mut worker, &"deployment_status".to_string(), &data);
    assert!(r.is_none());
    assert_eq!(0, worker.pending_len());
}

#[test]
fn ping_is_acknowledged_without_deliveries() {
    let handler = GithubHandler {
        users: UserConfig::new(),
        messenger: messenger::new(UserConfig::new(), RepoConfig::new()),
    };
    let mut worker = DeliveryWorker::new();
    let data = empty_body("bob", repo_at("http://u", "o/r"));
    let r = handler.handle_event(&mut worker, &"ping".to_string(), &data);
    assert_eq!("ping", r.unwrap().body);
    assert_eq!(0, worker.pending_len());
}

#[test]
fn commit_comment_links_abbreviated_commit() {
    let mut users = UserConfig::new();
    users.insert_dm("frank", "DF");
    let handler = GithubHandler {
        users: UserConfig::new(),
        messenger: messenger::new(users, RepoConfig::new()),
    };
    let mut worker = DeliveryWorker::new();

    let mut data = empty_body("grace", repo_at("http://git.company.com/o/r", "o/r"));
    data.action = Some("created".to_string());
    data.comment = Some(Comment {
        commit_id: "abcdef0123456789".to_string(),
        path: None,
        body: "nice commit".to_string(),
        html_url: "http://c".to_string(),
        user: user("frank"),
    });

    handler.handle_event(&mut worker, &"commit_comment".to_string(), &data);
    let dm = worker.take_next().unwrap();
    assert_eq!(
        "Comment on \"abcdef0\" (<http://git.company.com/o/r/commit/abcdef0123456789|abcdef0>)",
        dm.msg
    );
}

#[test]
fn commit_comment_short_id_and_path() {
    let mut users = UserConfig::new();
    users.insert_dm("frank", "DF");
    let handler = GithubHandler {
        users: UserConfig::new(),
        messenger: messenger::new(users, RepoConfig::new()),
    };
    let mut worker = DeliveryWorker::new();

    let mut data = empty_body("grace", repo_at("http://git.company.com/o/r", "o/r"));
    data.action = Some("created".to_string());
    data.comment = Some(Comment {
        commit_id: "abc".to_string(),
        path: Some("src/thing.rs".to_string()),
        body: "hm".to_string(),
        html_url: "http://c".to_string(),
        user: user("frank"),
    });

    handler.handle_event(&mut worker, &"commit_comment".to_string(), &data);
    let dm = worker.take_next().unwrap();
    assert_eq!(
        "Comment on \"src/thing.rs\" (<http://git.company.com/o/r/commit/abc|abc>)",
        dm.msg
    );
}

#[test]
fn review_commented_takes_comment_path() {
    let mut users = UserConfig::new();
    users.insert_dm("carol", "DC");
    let handler = GithubHandler {
        users: UserConfig::new(),
        messenger: messenger::new(users, RepoConfig::new()),
    };
    let mut worker = DeliveryWorker::new();

    let mut data = empty_body("dave", repo_at("http://git.company.com/o/r", "o/r"));
    data.action = Some("submitted".to_string());
    data.pull_request = Some(PullRequest {
        html_url: "http://git.company.com/o/r/pull/7".to_string(),
        title: "seven".to_string(),
        user: user("carol"),
        assignees: vec![],
    });
    data.review = Some(Review {
        state: "commented".to_string(),
        body: "just saying".to_string(),
        html_url: "http://rv".to_string(),
        user: user("dave"),
    });

    let r = handler.handle_event(&mut worker, &"pull_request_review".to_string(), &data);
    assert_eq!("pr_review [comment]", r.unwrap().body);
    let dm = worker.take_next().unwrap();
    assert_eq!(
        "Comment on \"<http://git.company.com/o/r/pull/7|seven>\"",
        dm.msg
    );
    assert_eq!("dave said:", dm.attachments[0].title);
}

#[test]
fn branch_scoped_rule_matches_only_its_branch() {
    let mut repos = RepoConfig::new();
    repos.add_rule("o/r", Some("main"), "#main-only");
    repos.add_rule("o/r", None, "#all");
    let messenger_cfg = messenger::new(UserConfig::new(), repos);
    let mut worker = DeliveryWorker::new();
    let repo = repo_at("http://git.company.com/o/r", "o/r");
    let atts = vec![];
    let commits: Vec<String> = vec![];

    messenger_cfg.send_to_channel(&mut worker, "hello", &atts, &repo, "main", &commits);
    assert_eq!(2, worker.pending_len());
    worker.take_next();
    worker.take_next();

    messenger_cfg.send_to_channel(&mut worker, "hello", &atts, &repo, "dev", &commits);
    assert_eq!(1, worker.pending_len());
    let only = worker.take_next().unwrap();
    match &only.recipient {
        SlackRecipient::Channel(name) => assert_eq!("#all", name),
        _ => panic!("expected a channel delivery"),
    }
}

#[test]
fn participants_are_messaged_owner_first() {
    let mut users = UserConfig::new();
    users.insert_dm("owner1", "DO");
    users.insert_dm("part1", "DP");
    let handler = GithubHandler {
        users: UserConfig::new(),
        messenger: messenger::new(users, RepoConfig::new()),
    };
    let mut worker = DeliveryWorker::new();

    let mut data = empty_body("sender1", repo_at("http://git.company.com/o/r", "o/r"));
    data.action = Some("created".to_string());
    data.comment = Some(comment_by("sender1", "hi all", "http://c"));
    data.issue = Some(Issue {
        html_url: "http://i".to_string(),
        title: "t".to_string(),
        user: user("owner1"),
        assignees: vec![user("unlisted"), user("part1"), user("owner1")],
    });

    handler.handle_event(&mut worker, &"issue_comment".to_string(), &data);
    assert_eq!(2, worker.pending_len());
    let first = worker.take_next().unwrap();
    match &first.recipient {
        SlackRecipient::User(target) => assert_eq!("DO", target),
        _ => panic!("expected the owner's direct message first"),
    }
    let second = worker.take_next().unwrap();
    match &second.recipient {
        SlackRecipient::User(target) => assert_eq!("DP", target),
        _ => panic!("expected the participant's direct message second"),
    }
}

#[test]
fn duplicate_participants_are_messaged_once() {
    let mut users = UserConfig::new();
    users.insert_dm("part1", "DP");
    let handler = GithubHandler {
        users: UserConfig::new(),
        messenger: messenger::new(users, RepoConfig::new()),
    };
    let mut worker = DeliveryWorker::new();

    let mut data = empty_body("sender1", repo_at("http://git.company.com/o/r", "o/r"));
    data.action = Some("created".to_string());
    data.comment = Some(comment_by("sender1", "hi", "http://c"));
    data.issue = Some(Issue {
        html_url: "http://i".to_string(),
        title: "t".to_string(),
        user: user("owner1"),
        assignees: vec![user("part1"), user("part1")],
    });

    handler.handle_event(&mut worker, &"issue_comment".to_string(), &data);
    assert_eq!(1, worker.pending_len());
    let only = worker.take_next().unwrap();
    match &only.recipient {
        SlackRecipient::User(target) => assert_eq!("DP", target),
        _ => panic!("expected a single direct message"),
    }
}

#[test]
fn owner_only_fanout_messages_owner() {
    let mut users = UserConfig::new();
    users.insert_dm("carol", "DC");
    let mut repos = RepoConfig::new();
    repos.add_rule("o/r", None, "#dev");
    let m = messenger::new(users, repos);
    let mut worker = DeliveryWorker::new();
    let repo = repo_at("http://git.company.com/o/r", "o/r");
    let atts = vec![];
    let commits: Vec<String> = vec![];

    m.send_to_owner(&mut worker, "note", &atts, &user("carol"), &repo, "", &commits);
    assert_eq!(2, worker.pending_len());
    let first = worker.take_next().unwrap();
    assert!(matches!(first.recipient, SlackRecipient::Channel(_)));
    let second = worker.take_next().unwrap();
    match &second.recipient {
        SlackRecipient::User(target) => assert_eq!("DC", target),
        _ => panic!("expected the owner's direct message"),
    }
}

#[test]
fn owner_only_fanout_never_messages_the_bot() {
    let mut users = UserConfig::new();
    users.insert_dm("octobot", "DBOT");
    let mut repos = RepoConfig::new();
    repos.add_rule("o/r", None, "#dev");
    let m = messenger::new(users, repos);
    let mut worker = DeliveryWorker::new();
    let repo = repo_at("http://git.company.com/o/r", "o/r");
    let atts = vec![];
    let commits: Vec<String> = vec![];

    m.send_to_owner(&mut worker, "note", &atts, &user("octobot"), &repo, "", &commits);
    assert_eq!(1, worker.pending_len());
    let only = worker.take_next().unwrap();
    assert!(matches!(only.recipient, SlackRecipient::Channel(_)));
}
