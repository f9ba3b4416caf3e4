use vstd::prelude::*;

use crate::laws::lemma_next_keeps_wf;
use crate::media_type::{header_is_media_type, media_type_of};
use crate::request::{AttachmentRequest, AttachmentView, Description, NewStatus, NewStatusView, Platform};

verus! {

/// Where a pipeline stands: which outside step it waits on, or how it ended.
#[derive(Clone, Copy, Debug, PartialEq, Eq, Structural)]
pub enum Phase {
    /// Created, nothing requested yet.
    Ready,
    /// Waiting on the download of the current attachment.
    Downloading,
    /// Waiting on the downloaded bytes being written to a staged file.
    Staging,
    /// Waiting on the upload of the current attachment.
    Uploading,
    /// Waiting on the call that sets the current attachment's description.
    SettingMetadata,
    /// Waiting on the deletion of the staged file.
    Releasing,
    /// Waiting on the creation of the status.
    Submitting,
    /// The status was created.
    Done,
    /// A step failed; nothing more is requested.
    Failed,
}

/// The step of a pipeline at which an error came.
#[derive(Clone, Copy, Debug, PartialEq, Eq, Structural)]
pub enum Stage {
    Fetch,
    ContentType,
    Staging,
    Upload,
    Metadata,
    Release,
    Submission,
}

/// Why a pipeline failed: the step, the attachment's URL where an attachment
/// was being processed, and what the failing call reported.
#[derive(Clone, Debug)]
pub struct PostError {
    pub stage: Stage,
    pub url: Option<String>,
    pub reason: String,
}

pub ghost struct ErrorView {
    pub stage: Stage,
    pub url: Option<Seq<char>>,
    pub reason: Seq<char>,
}

impl View for PostError {
    type V = ErrorView;

    open spec fn view(&self) -> ErrorView {
        ErrorView { stage: self.stage, url: crate::request::opt_text(self.url), reason: self.reason@ }
    }
}

pub open spec fn error_view(e: Option<PostError>) -> Option<ErrorView> {
    match e {
        Some(x) => Some(x@),
        None => None,
    }
}

/// What the caller reports after performing the requested action.
#[derive(Clone, Debug)]
pub enum Event {
    /// The attachment was fetched; this is its content-type header, if any.
    Downloaded { content_type: Option<Vec<u8>> },
    DownloadFailed { reason: String },
    /// The fetched bytes were written to a freshly created staged file.
    Staged,
    StagingFailed { reason: String },
    /// The platform accepted the upload and returned this media id.
    Uploaded { media_id: String },
    UploadFailed { reason: String },
    MetadataSet,
    MetadataFailed { reason: String },
    /// The staged file was deleted.
    Released,
    ReleaseFailed { reason: String },
    Submitted,
    SubmitFailed { reason: String },
}

/// The phase in which a pipeline waits on an event.
pub open spec fn phase_for(e: Event) -> Phase {
    match e {
        Event::Downloaded { .. } => Phase::Downloading,
        Event::DownloadFailed { .. } => Phase::Downloading,
        Event::Staged => Phase::Staging,
        Event::StagingFailed { .. } => Phase::Staging,
        Event::Uploaded { .. } => Phase::Uploading,
        Event::UploadFailed { .. } => Phase::Uploading,
        Event::MetadataSet => Phase::SettingMetadata,
        Event::MetadataFailed { .. } => Phase::SettingMetadata,
        Event::Released => Phase::Releasing,
        Event::ReleaseFailed { .. } => Phase::Releasing,
        Event::Submitted => Phase::Submitting,
        Event::SubmitFailed { .. } => Phase::Submitting,
    }
}

/// What the pipeline asks the caller to do next.
#[derive(Debug)]
pub enum Action {
    /// Fetch the attachment at this URL.
    Download { url: String },
    /// Write the fetched bytes to a freshly created, uniquely named file.
    Stage,
    /// Upload the staged file, in one call that carries the description or
    /// has no description field at all.
    UploadStaged { description: Description },
    /// Upload the fetched bytes as this media type.
    UploadBytes { media_type: mime::Mime },
    /// Set the description of an uploaded media object.
    SetMetadata { media_id: String, alt_text: String },
    /// Delete the staged file.
    Release,
    /// Create the status with this text and these media ids, in this order.
    Submit { text: String, media_ids: Vec<String> },
    /// Nothing more: the pipeline is done or failed.
    Stop,
}

pub ghost enum ActionView {
    Download { url: Seq<char> },
    Stage,
    UploadStaged { description: Option<Seq<char>> },
    UploadBytes,
    SetMetadata { media_id: Seq<char>, alt_text: Seq<char> },
    Release,
    Submit { text: Seq<char>, media_ids: Seq<Seq<char>> },
    Stop,
}

pub open spec fn texts(v: Seq<String>) -> Seq<Seq<char>> {
    v.map_values(|s: String| s@)
}

impl View for Action {
    type V = ActionView;

    open spec fn view(&self) -> ActionView {
        match self {
            Action::Download { url } => ActionView::Download { url: url@ },
            Action::Stage => ActionView::Stage,
            Action::UploadStaged { description } => ActionView::UploadStaged { description: description@ },
            Action::UploadBytes { .. } => ActionView::UploadBytes,
            Action::SetMetadata { media_id, alt_text } => ActionView::SetMetadata {
                media_id: media_id@,
                alt_text: alt_text@,
            },
            Action::Release => ActionView::Release,
            Action::Submit { text, media_ids } => ActionView::Submit { text: text@, media_ids: texts(media_ids@) },
            Action::Stop => ActionView::Stop,
        }
    }
}

/// The pipeline of one platform for one status request.
pub struct Pipeline {
    platform: Platform,
    text: String,
    attachments: Vec<AttachmentRequest>,
    current: usize,
    media_ids: Vec<String>,
    phase: Phase,
    staged: bool,
    error: Option<PostError>,
}

/// A pipeline's state: the request, the index of the attachment in work, the
/// media ids gathered so far, whether a staged file exists, and the error.
pub ghost struct PipelineView {
    pub platform: Platform,
    pub text: Seq<char>,
    pub attachments: Seq<AttachmentView>,
    pub current: nat,
    pub media_ids: Seq<Seq<char>>,
    pub phase: Phase,
    pub staged: bool,
    pub error: Option<ErrorView>,
}

impl View for Pipeline {
    type V = PipelineView;

    closed spec fn view(&self) -> PipelineView {
        PipelineView {
            platform: self.platform,
            text: self.text@,
            attachments: self.attachments@.map_values(|a: AttachmentRequest| a@),
            current: self.current as nat,
            media_ids: texts(self.media_ids@),
            phase: self.phase,
            staged: self.staged,
            error: error_view(self.error),
        }
    }
}

pub open spec fn initial(platform: Platform, request: NewStatusView) -> PipelineView {
    PipelineView {
        platform,
        text: request.text,
        attachments: request.attachments,
        current: 0,
        media_ids: Seq::empty(),
        phase: Phase::Ready,
        staged: false,
        error: None,
    }
}

pub open spec fn url_at(m: PipelineView) -> Seq<char> {
    m.attachments[m.current as int].url
}

pub open spec fn alt_at(m: PipelineView) -> Option<Seq<char>> {
    m.attachments[m.current as int].alt_text
}

/// Go on with the attachment at index `next`, or submit when none is left.
pub open spec fn advance(m: PipelineView, next: nat) -> (PipelineView, ActionView) {
    if next < m.attachments.len() {
        (
            PipelineView { current: next, phase: Phase::Downloading, ..m },
            ActionView::Download { url: m.attachments[next as int].url },
        )
    } else {
        (
            PipelineView { current: next, phase: Phase::Submitting, ..m },
            ActionView::Submit { text: m.text, media_ids: m.media_ids },
        )
    }
}

/// Record the failure of a step on the current attachment; delete the staged
/// file first where one exists.
pub open spec fn fail(m: PipelineView, stage: Stage, reason: Seq<char>) -> (PipelineView, ActionView) {
    let err = ErrorView { stage, url: Some(url_at(m)), reason };
    if m.staged {
        (PipelineView { phase: Phase::Releasing, error: Some(err), ..m }, ActionView::Release)
    } else {
        (PipelineView { phase: Phase::Failed, error: Some(err), ..m }, ActionView::Stop)
    }
}

/// The decision after a download: the staged path needs no media type; the
/// in-memory path uploads only when the response declared one that parses.
pub open spec fn after_download(m: PipelineView, has_media_type: bool) -> (PipelineView, ActionView) {
    match m.platform {
        Platform::Mastodon => (PipelineView { phase: Phase::Staging, ..m }, ActionView::Stage),
        Platform::Twitter => if has_media_type {
            (PipelineView { phase: Phase::Uploading, ..m }, ActionView::UploadBytes)
        } else {
            fail(m, Stage::ContentType, Seq::empty())
        },
    }
}

/// The decision after a successful upload.
pub open spec fn after_upload(m: PipelineView, media_id: Seq<char>) -> (PipelineView, ActionView) {
    let m2 = PipelineView { media_ids: m.media_ids.push(media_id), ..m };
    match m.platform {
        Platform::Mastodon => (PipelineView { phase: Phase::Releasing, ..m2 }, ActionView::Release),
        Platform::Twitter => match alt_at(m) {
            Some(a) => (
                PipelineView { phase: Phase::SettingMetadata, ..m2 },
                ActionView::SetMetadata { media_id, alt_text: a },
            ),
            None => advance(m2, m.current + 1),
        },
    }
}

/// The next state of a pipeline and the action it requests, given an event.
pub open spec fn next(m: PipelineView, e: Event) -> (PipelineView, ActionView) {
    match e {
        Event::Downloaded { content_type } => after_download(m, header_is_media_type(content_type)),
        Event::DownloadFailed { reason } => fail(m, Stage::Fetch, reason@),
        Event::Staged => (
            PipelineView { phase: Phase::Uploading, staged: true, ..m },
            ActionView::UploadStaged { description: alt_at(m) },
        ),
        Event::StagingFailed { reason } => fail(m, Stage::Staging, reason@),
        Event::Uploaded { media_id } => after_upload(m, media_id@),
        Event::UploadFailed { reason } => fail(m, Stage::Upload, reason@),
        Event::MetadataSet => advance(m, m.current + 1),
        Event::MetadataFailed { reason } => fail(m, Stage::Metadata, reason@),
        Event::Released => if m.error is Some {
            (PipelineView { phase: Phase::Failed, staged: false, ..m }, ActionView::Stop)
        } else {
            advance(PipelineView { staged: false, ..m }, m.current + 1)
        },
        Event::ReleaseFailed { reason } => {
            let err = if m.error is Some {
                m.error
            } else {
                Some(ErrorView { stage: Stage::Release, url: Some(url_at(m)), reason: reason@ })
            };
            (PipelineView { phase: Phase::Failed, staged: false, error: err, ..m }, ActionView::Stop)
        },
        Event::Submitted => (PipelineView { phase: Phase::Done, ..m }, ActionView::Stop),
        Event::SubmitFailed { reason } => (
            PipelineView {
                phase: Phase::Failed,
                error: Some(ErrorView { stage: Stage::Submission, url: None, reason: reason@ }),
                ..m
            },
            ActionView::Stop,
        ),
    }
}

/// The states that a pipeline can be in.
pub open spec fn wf(m: PipelineView) -> bool {
    let n = m.attachments.len();
    &&& m.current <= n
    &&& m.staged ==> m.platform == Platform::Mastodon
    &&& m.staged ==> (m.phase == Phase::Uploading || m.phase == Phase::Releasing)
    &&& (m.phase == Phase::Staging || m.phase == Phase::Releasing) ==> m.platform == Platform::Mastodon
    &&& m.phase == Phase::SettingMetadata ==> m.platform == Platform::Twitter
    &&& m.phase == Phase::Ready ==> m.current == 0 && m.media_ids.len() == 0 && m.error is None
    &&& (m.phase == Phase::Downloading || m.phase == Phase::Staging || m.phase == Phase::Uploading)
        ==> m.current < n && m.media_ids.len() == m.current && m.error is None
    &&& m.phase == Phase::Uploading ==> (m.staged <==> m.platform == Platform::Mastodon)
    &&& m.phase == Phase::SettingMetadata ==> m.current < n && m.media_ids.len() == m.current + 1
        && alt_at(m) is Some && m.error is None
    &&& m.phase == Phase::Releasing ==> m.staged && m.current < n
        && (m.error is None ==> m.media_ids.len() == m.current + 1)
        && (m.error is Some ==> m.media_ids.len() == m.current)
    &&& (m.phase == Phase::Submitting || m.phase == Phase::Done) ==> m.current == n
        && m.media_ids.len() == n && m.error is None
    &&& m.phase == Phase::Failed ==> m.error is Some && !m.staged
}

fn clone_ids(v: &Vec<String>) -> (r: Vec<String>)
    ensures
        r@ == v@,
{
    let mut r: Vec<String> = Vec::new();
    let mut i: usize = 0;
    while i < v.len()
        invariant
            i <= v@.len(),
            r@ == v@.subrange(0, i as int),
        decreases v@.len() - i,
    {
        r.push(v[i].clone());
        assert(v@.subrange(0, i as int + 1) =~= v@.subrange(0, i as int).push(v@[i as int]));
        i = i + 1;
    }
    assert(v@.subrange(0, i as int) =~= v@);
    r
}

impl Pipeline {
    /// A pipeline for a request, before anything is requested.
    pub fn new(platform: Platform, request: NewStatus) -> (r: Pipeline)
        ensures
            r@ == initial(platform, request@),
            wf(r@),
    {
        let r = Pipeline {
            platform,
            text: request.text,
            attachments: request.attachments,
            current: 0,
            media_ids: Vec::new(),
            phase: Phase::Ready,
            staged: false,
            error: None,
        };
        assert(texts(r.media_ids@) =~= Seq::empty());
        r
    }

    pub fn platform(&self) -> (r: Platform)
        ensures
            r == self@.platform,
    {
        self.platform
    }

    pub fn phase(&self) -> (r: Phase)
        ensures
            r == self@.phase,
    {
        self.phase
    }

    /// The media ids gathered so far, in the order of the attachments.
    pub fn media_ids(&self) -> (r: &Vec<String>)
        ensures
            texts(r@) == self@.media_ids,
    {
        &self.media_ids
    }

    pub fn error(&self) -> (r: &Option<PostError>)
        ensures
            error_view(*r) == self@.error,
    {
        &self.error
    }

    /// Whether the pipeline waits on this event.
    pub fn awaits(&self, e: &Event) -> (r: bool)
        ensures
            r == (self@.phase == phase_for(*e)),
    {
        let p = match e {
            Event::Downloaded { .. } => Phase::Downloading,
            Event::DownloadFailed { .. } => Phase::Downloading,
            Event::Staged => Phase::Staging,
            Event::StagingFailed { .. } => Phase::Staging,
            Event::Uploaded { .. } => Phase::Uploading,
            Event::UploadFailed { .. } => Phase::Uploading,
            Event::MetadataSet => Phase::SettingMetadata,
            Event::MetadataFailed { .. } => Phase::SettingMetadata,
            Event::Released => Phase::Releasing,
            Event::ReleaseFailed { .. } => Phase::Releasing,
            Event::Submitted => Phase::Submitting,
            Event::SubmitFailed { .. } => Phase::Submitting,
        };
        self.phase == p
    }

    fn advance(&mut self, next: usize) -> (r: Action)
        requires
            next <= old(self)@.attachments.len(),
        ensures
            (final(self)@, r@) == advance(old(self)@, next as nat),
    {
        self.current = next;
        if next < self.attachments.len() {
            self.phase = Phase::Downloading;
            Action::Download { url: self.attachments[next].attachment_url.clone() }
        } else {
            self.phase = Phase::Submitting;
            Action::Submit { text: self.text.clone(), media_ids: clone_ids(&self.media_ids) }
        }
    }

    fn fail(&mut self, stage: Stage, reason: String) -> (r: Action)
        requires
            old(self)@.current < old(self)@.attachments.len(),
        ensures
            (final(self)@, r@) == fail(old(self)@, stage, reason@),
    {
        let url = self.attachments[self.current].attachment_url.clone();
        self.error = Some(PostError { stage, url: Some(url), reason });
        if self.staged {
            self.phase = Phase::Releasing;
            Action::Release
        } else {
            self.phase = Phase::Failed;
            Action::Stop
        }
    }

    /// Start the pipeline: request the first download, or the submission
    /// where there is no attachment.
    pub fn begin(&mut self) -> (r: Action)
        requires
            old(self)@.phase == Phase::Ready,
            wf(old(self)@),
        ensures
            (final(self)@, r@) == advance(old(self)@, 0),
            wf(final(self)@),
    {
        self.advance(0)
    }

    /// The decision after a download, given the media type that the response
    /// declared, if it declared one that parses.
    pub fn accept_download(&mut self, media_type: Option<mime::Mime>) -> (r: Action)
        requires
            old(self)@.phase == Phase::Downloading,
            wf(old(self)@),
        ensures
            (final(self)@, r@) == after_download(old(self)@, media_type is Some),
    {
        match self.platform {
            Platform::Mastodon => {
                self.phase = Phase::Staging;
                Action::Stage
            },
            Platform::Twitter => match media_type {
                Some(t) => {
                    self.phase = Phase::Uploading;
                    Action::UploadBytes { media_type: t }
                },
                None => self.fail(Stage::ContentType, String::new()),
            },
        }
    }

    fn accept_upload(&mut self, media_id: String) -> (r: Action)
        requires
            old(self)@.phase == Phase::Uploading,
            wf(old(self)@),
        ensures
            (final(self)@, r@) == after_upload(old(self)@, media_id@),
    {
        let ghost m = self@;
        let n = self.attachments.len();
        assert(m.attachments.len() == n);
        let cur = self.current;
        let id = media_id.clone();
        self.media_ids.push(media_id);
        assert(texts(self.media_ids@) =~= m.media_ids.push(id@));
        match self.platform {
            Platform::Mastodon => {
                self.phase = Phase::Releasing;
                Action::Release
            },
            Platform::Twitter => match &self.attachments[cur].alt_text {
                Some(a) => {
                    let alt_text = a.clone();
                    self.phase = Phase::SettingMetadata;
                    Action::SetMetadata { media_id: id, alt_text }
                },
                None => self.advance(cur + 1),
            },
        }
    }

    /// Take in what came of the requested action and decide the next one.
    pub fn step(&mut self, e: Event) -> (r: Action)
        requires
            wf(old(self)@),
            old(self)@.phase == phase_for(e),
        ensures
            (final(self)@, r@) == next(old(self)@, e),
            wf(final(self)@),
    {
        proof {
            lemma_next_keeps_wf(self@, e);
        }
        let n = self.attachments.len();
        assert(self@.attachments.len() == n);
        match e {
            Event::Downloaded { content_type } => {
                let t = media_type_of(&content_type);
                self.accept_download(t)
            },
            Event::DownloadFailed { reason } => self.fail(Stage::Fetch, reason),
            Event::Staged => {
                self.staged = true;
                self.phase = Phase::Uploading;
                Action::UploadStaged { description: Description::from_alt_text(&self.attachments[self.current].alt_text) }
            },
            Event::StagingFailed { reason } => self.fail(Stage::Staging, reason),
            Event::Uploaded { media_id } => self.accept_upload(media_id),
            Event::UploadFailed { reason } => self.fail(Stage::Upload, reason),
            Event::MetadataSet => self.advance(self.current + 1),
            Event::MetadataFailed { reason } => self.fail(Stage::Metadata, reason),
            Event::Released => {
                self.staged = false;
                if self.error.is_some() {
                    self.phase = Phase::Failed;
                    Action::Stop
                } else {
                    self.advance(self.current + 1)
                }
            },
            Event::ReleaseFailed { reason } => {
                self.staged = false;
                if self.error.is_none() {
                    let url = self.attachments[self.current].attachment_url.clone();
                    self.error = Some(PostError { stage: Stage::Release, url: Some(url), reason });
                }
                self.phase = Phase::Failed;
                Action::Stop
            },
            Event::Submitted => {
                self.phase = Phase::Done;
                Action::Stop
            },
            Event::SubmitFailed { reason } => {
                self.error = Some(PostError { stage: Stage::Submission, url: None, reason });
                self.phase = Phase::Failed;
                Action::Stop
            },
        }
    }
}

} // verus!
