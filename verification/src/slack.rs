//! Delivery requests for the chat platform: recipients, attachments,
//! and their spec-level views.

use vstd::prelude::*;

verus! {

/// The color an attachment is rendered with.
#[derive(Clone, Copy, PartialEq, Eq, Structural)]
pub enum AttachmentColor {
    Plain,
    Good,
    Danger,
}

/// A block of formatted content delivered alongside a message.
pub struct SlackAttachment {
    pub body: String,
    pub title: String,
    pub title_link: String,
    pub color: AttachmentColor,
}

/// The spec-level value of an attachment.
#[verifier::ext_equal]
pub ghost struct AttachmentView {
    pub body: Seq<char>,
    pub title: Seq<char>,
    pub title_link: Seq<char>,
    pub color: AttachmentColor,
}

impl View for SlackAttachment {
    type V = AttachmentView;

    open spec fn view(&self) -> AttachmentView {
        AttachmentView {
            body: self.body@,
            title: self.title@,
            title_link: self.title_link@,
            color: self.color,
        }
    }
}

impl Clone for SlackAttachment {
    fn clone(&self) -> (res: Self)
        ensures
            res == *self,
    {
        SlackAttachment {
            body: self.body.clone(),
            title: self.title.clone(),
            title_link: self.title_link.clone(),
            color: self.color,
        }
    }
}

/// Builds an attachment step by step; unset parts stay empty and the
/// color stays plain.
pub struct SlackAttachmentBuilder {
    pub att: SlackAttachment,
}

impl SlackAttachmentBuilder {
    /// Starts an attachment carrying `body`, with empty title and link.
    pub fn new(body: &str) -> (b: SlackAttachmentBuilder)
        ensures
            b.att@ == (AttachmentView {
                body: body@,
                title: Seq::<char>::empty(),
                title_link: Seq::<char>::empty(),
                color: AttachmentColor::Plain,
            }),
    {
        let att = SlackAttachment {
            body: body.to_owned(),
            title: String::new(),
            title_link: String::new(),
            color: AttachmentColor::Plain,
        };
        SlackAttachmentBuilder { att }
    }

    /// Sets the title.
    pub fn title(self, title: String) -> (b: SlackAttachmentBuilder)
        ensures
            b.att@ == (AttachmentView { title: title@, ..self.att@ }),
    {
        SlackAttachmentBuilder { att: SlackAttachment { title, ..self.att } }
    }

    /// Sets the link the title points at.
    pub fn title_link(self, link: &str) -> (b: SlackAttachmentBuilder)
        ensures
            b.att@ == (AttachmentView { title_link: link@, ..self.att@ }),
    {
        SlackAttachmentBuilder { att: SlackAttachment { title_link: link.to_owned(), ..self.att } }
    }

    /// Sets the color.
    pub fn color(self, color: AttachmentColor) -> (b: SlackAttachmentBuilder)
        ensures
            b.att@ == (AttachmentView { color: color, ..self.att@ }),
    {
        SlackAttachmentBuilder { att: SlackAttachment { color, ..self.att } }
    }

    /// Finishes the attachment.
    pub fn build(self) -> (a: SlackAttachment)
        ensures
            a@ == self.att@,
    {
        self.att
    }
}

/// Where a delivery goes: a named channel, or a user's configured
/// direct-message target. A closed variant, so that no malformed
/// target can reach the outbound client.
pub enum SlackRecipient {
    Channel(String),
    User(String),
}

/// The spec-level value of a recipient.
pub ghost enum RecipientView {
    Channel { name: Seq<char> },
    User { target: Seq<char> },
}

impl View for SlackRecipient {
    type V = RecipientView;

    open spec fn view(&self) -> RecipientView {
        match self {
            SlackRecipient::Channel(name) => RecipientView::Channel { name: name@ },
            SlackRecipient::User(target) => RecipientView::User { target: target@ },
        }
    }
}

/// The unit handed to the delivery worker: one recipient, the message
/// text, and the ordered attachments.
pub struct SlackRequest {
    pub recipient: SlackRecipient,
    pub msg: String,
    pub attachments: Vec<SlackAttachment>,
}

/// The views of a sequence of attachments, in order.
pub open spec fn views_of_attachments(s: Seq<SlackAttachment>) -> Seq<AttachmentView> {
    s.map_values(|a: SlackAttachment| a@)
}

/// The spec-level value of a delivery request.
#[verifier::ext_equal]
pub ghost struct RequestView {
    pub recipient: RecipientView,
    pub msg: Seq<char>,
    pub attachments: Seq<AttachmentView>,
}

impl View for SlackRequest {
    type V = RequestView;

    open spec fn view(&self) -> RequestView {
        RequestView {
            recipient: self.recipient@,
            msg: self.msg@,
            attachments: views_of_attachments(self.attachments@),
        }
    }
}

/// A copy of `v` whose elements equal the originals.
pub fn clone_attachments(v: &Vec<SlackAttachment>) -> (r: Vec<SlackAttachment>)
    ensures
        r@ == v@,
{
    let mut r: Vec<SlackAttachment> = Vec::new();
    let mut i: usize = 0;
    while i < v.len()
        invariant
            0 <= i <= v@.len(),
            r@ =~= v@.take(i as int),
        decreases v@.len() - i,
    {
        r.push(v[i].clone());
        proof {
            assert(r@ =~= v@.take(i + 1));
        }
        i = i + 1;
    }
    proof {
        assert(v@.take(v@.len() as int) =~= v@);
    }
    r
}

/// Packs a recipient, message and attachments into one delivery request.
pub fn req(recipient: SlackRecipient, msg: &str, attachments: &Vec<SlackAttachment>) -> (r:
    SlackRequest)
    ensures
        r@ == (RequestView {
            recipient: recipient@,
            msg: msg@,
            attachments: views_of_attachments(attachments@),
        }),
{
    SlackRequest { recipient, msg: msg.to_owned(), attachments: clone_attachments(attachments) }
}

} // verus!
