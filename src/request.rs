use vstd::prelude::*;

verus! {

/// The backend a pipeline posts to.
#[derive(Clone, Copy, Debug, PartialEq, Eq, Structural)]
pub enum Platform {
    /// Media are uploaded from a staged local file, with the description in
    /// the same call.
    Mastodon,
    /// Media are uploaded from bytes in memory, with the description set by a
    /// second call.
    Twitter,
}

/// One attachment of a status: a remote resource and its optional alt text.
#[derive(Clone, Debug)]
pub struct AttachmentRequest {
    pub attachment_url: String,
    pub alt_text: Option<String>,
}

/// What an attachment request holds.
pub ghost struct AttachmentView {
    pub url: Seq<char>,
    pub alt_text: Option<Seq<char>>,
}

pub open spec fn opt_text(s: Option<String>) -> Option<Seq<char>> {
    match s {
        Some(t) => Some(t@),
        None => None,
    }
}

impl View for AttachmentRequest {
    type V = AttachmentView;

    open spec fn view(&self) -> AttachmentView {
        AttachmentView { url: self.attachment_url@, alt_text: opt_text(self.alt_text) }
    }
}

/// A platform-agnostic status update: its text and its attachments, in order.
#[derive(Clone, Debug)]
pub struct NewStatus {
    pub text: String,
    pub attachments: Vec<AttachmentRequest>,
}

/// What a status request holds.
pub ghost struct NewStatusView {
    pub text: Seq<char>,
    pub attachments: Seq<AttachmentView>,
}

impl View for NewStatus {
    type V = NewStatusView;

    open spec fn view(&self) -> NewStatusView {
        NewStatusView {
            text: self.text@,
            attachments: self.attachments@.map_values(|a: AttachmentRequest| a@),
        }
    }
}

/// The description that an upload carries: either none at all, or a text.
#[derive(Clone, Debug, PartialEq, Eq)]
pub enum Description {
    NoDescription,
    WithDescription(String),
}

impl View for Description {
    type V = Option<Seq<char>>;

    open spec fn view(&self) -> Option<Seq<char>> {
        match self {
            Description::NoDescription => None,
            Description::WithDescription(t) => Some(t@),
        }
    }
}

impl Description {
    /// The description of an upload for the given alt text: none where there
    /// is no alt text, never an empty one in its place.
    pub fn from_alt_text(alt_text: &Option<String>) -> (r: Description)
        ensures
            r@ == opt_text(*alt_text),
    {
        match alt_text {
            Some(t) => Description::WithDescription(t.clone()),
            None => Description::NoDescription,
        }
    }
}

} // verus!
