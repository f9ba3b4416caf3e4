//! Cross-posting of one status update, with media attachments, to a
//! Mastodon-style and a Twitter-style backend.
//!
//! The library holds the decisions of each platform's pipeline as a verified
//! state machine: the caller performs each requested action (a download, an
//! upload, a deletion of a staged file, the final submission) and reports what
//! happened as an event.
pub mod request;
pub mod media_type;
pub mod pipeline;
pub mod laws;

pub use request::{AttachmentRequest, AttachmentView, Description, NewStatus, NewStatusView, Platform};
pub use media_type::{header_text, is_visible_ascii, media_type_of};
pub use pipeline::{Action, ActionView, ErrorView, Event, Phase, Pipeline, PipelineView, PostError, Stage};


