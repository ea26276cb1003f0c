use octobot::slack::{
    req, AttachmentColor, SlackAttachmentBuilder, SlackRecipient, SlackRequest,
};
use octobot::util::make_link;
use octobot::worker::DeliveryWorker;

fn channel_req(name: &str, msg: &str) -> SlackRequest {
    let atts = vec![];
    req(SlackRecipient::Channel(name.to_string()), msg, &atts)
}

#[test]
fn worker_hands_out_in_acceptance_order() {
    let mut worker = DeliveryWorker::new();
    worker.accept(channel_req("#a", "m1"));
    worker.accept(channel_req("#b", "x"));
    worker.accept(channel_req("#a", "m2"));
    worker.accept(channel_req("#a", "m3"));
    assert_eq!(4, worker.pending_len());

    let mut seen: Vec<String> = vec![];
    loop {
        match worker.take_next() {
            Some(r) => {
                if let SlackRecipient::Channel(name) = &r.recipient {
                    if name == "#a" {
                        seen.push(r.msg.clone());
                    }
                }
            }
            None => break,
        }
    }
    assert_eq!(vec!["m1", "m2", "m3"], seen);
    assert_eq!(0, worker.pending_len());
}

#[test]
fn take_next_on_empty_is_none() {
    let mut worker = DeliveryWorker::new();
    assert!(worker.take_next().is_none());
}

#[test]
fn request_preserves_attachment_order() {
    let a1 = SlackAttachmentBuilder::new("first").title("t1".to_string()).build();
    let a2 = SlackAttachmentBuilder::new("second")
        .title("t2".to_string())
        .title_link("http://l")
        .color(AttachmentColor::Danger)
        .build();
    let atts = vec![a1, a2];
    let r = req(SlackRecipient::User("D1".to_string()), "msg", &atts);
    assert_eq!(2, r.attachments.len());
    assert_eq!("first", r.attachments[0].body);
    assert_eq!("t1", r.attachments[0].title);
    assert!(r.attachments[0].color == AttachmentColor::Plain);
    assert_eq!("second", r.attachments[1].body);
    assert_eq!("http://l", r.attachments[1].title_link);
    assert!(r.attachments[1].color == AttachmentColor::Danger);
}

#[test]
fn test_make_link() {
    assert_eq!("<http://u|the text>", make_link("http://u", "the text"));
}
