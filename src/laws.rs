use vstd::prelude::*;

use crate::media_type::header_is_media_type;
use crate::pipeline::{
    advance, alt_at, initial, next, phase_for, url_at, wf, ActionView, Event, Phase, PipelineView,
};
use crate::request::{NewStatusView, Platform};

verus! {

/// Every step from a valid state, on an event that the state waits on, leads
/// to a valid state.
pub proof fn lemma_next_keeps_wf(m: PipelineView, e: Event)
    requires
        wf(m),
        m.phase == phase_for(e),
    ensures
        wf(next(m, e).0),
{
}

/// A request without attachments goes straight to the submission of exactly
/// its text, with no media ids.
pub proof fn lemma_text_only_status(platform: Platform, request: NewStatusView)
    requires
        request.attachments.len() == 0,
    ensures
        advance(initial(platform, request), 0).1 == (ActionView::Submit {
            text: request.text,
            media_ids: Seq::empty(),
        }),
        wf(initial(platform, request)),
{
}

/// Media ids are only ever appended: the id that an upload returns is placed
/// at the index of the attachment it was uploaded for; downloads are requested
/// for the attachments one after another, in order; and the submission
/// carries the text and one media id per attachment.
pub proof fn lemma_media_ids_follow_attachments(m: PipelineView, e: Event)
    requires
        wf(m),
        m.phase == phase_for(e),
    ensures
        m.media_ids.is_prefix_of(next(m, e).0.media_ids),
        e matches Event::Uploaded { media_id } ==> next(m, e).0.media_ids == m.media_ids.push(media_id@)
            && m.media_ids.len() == m.current,
        !(e is Uploaded) ==> next(m, e).0.media_ids == m.media_ids,
        next(m, e).1 matches ActionView::Download { url } ==> next(m, e).0.current == m.current + 1
            && url == url_at(next(m, e).0),
        next(m, e).1 matches ActionView::Submit { text, media_ids } ==> text == m.text
            && media_ids == next(m, e).0.media_ids && media_ids.len() == m.attachments.len(),
{
}

/// Whether a pipeline in state `m` waits on each of the events `es` in turn.
pub open spec fn accepts_all(m: PipelineView, es: Seq<Event>) -> bool
    decreases es.len(),
{
    es.len() == 0 || (m.phase == phase_for(es[0]) && accepts_all(next(m, es[0]).0, es.drop_first()))
}

/// The state of a pipeline in state `m` after the events `es`.
pub open spec fn run(m: PipelineView, es: Seq<Event>) -> PipelineView
    decreases es.len(),
{
    if es.len() == 0 {
        m
    } else {
        run(next(m, es[0]).0, es.drop_first())
    }
}

/// The media ids that the upload events among `es` report, in order.
pub open spec fn uploaded_ids(es: Seq<Event>) -> Seq<Seq<char>>
    decreases es.len(),
{
    if es.len() == 0 {
        Seq::empty()
    } else {
        let rest = uploaded_ids(es.drop_first());
        match es[0] {
            Event::Uploaded { media_id } => seq![media_id@] + rest,
            _ => rest,
        }
    }
}

/// Over any run, the media ids gathered are those that the uploads reported,
/// in the order of the uploads, and the request itself is kept.
pub proof fn lemma_run_gathers_uploaded_ids(m: PipelineView, es: Seq<Event>)
    requires
        wf(m),
        accepts_all(m, es),
    ensures
        wf(run(m, es)),
        run(m, es).media_ids == m.media_ids + uploaded_ids(es),
        run(m, es).attachments == m.attachments,
        run(m, es).text == m.text,
        run(m, es).platform == m.platform,
    decreases es.len(),
{
    if es.len() > 0 {
        let m1 = next(m, es[0]).0;
        lemma_next_keeps_wf(m, es[0]);
        lemma_run_gathers_uploaded_ids(m1, es.drop_first());
        assert(m.media_ids + uploaded_ids(es) =~= m1.media_ids + uploaded_ids(es.drop_first()));
    } else {
        assert(m.media_ids + uploaded_ids(es) =~= m.media_ids);
    }
}

/// A pipeline that ran to the creation of its status gathered one media id
/// per attachment: exactly those that its uploads reported, in order.
pub proof fn lemma_completed_run_has_every_media_id(platform: Platform, request: NewStatusView, es: Seq<Event>)
    requires
        accepts_all(advance(initial(platform, request), 0).0, es),
        run(advance(initial(platform, request), 0).0, es).phase == Phase::Done,
    ensures
        run(advance(initial(platform, request), 0).0, es).media_ids == uploaded_ids(es),
        uploaded_ids(es).len() == request.attachments.len(),
{
    let m0 = advance(initial(platform, request), 0).0;
    lemma_run_gathers_uploaded_ids(m0, es);
    assert(m0.media_ids + uploaded_ids(es) =~= uploaded_ids(es));
}

/// Once an error is recorded, a pipeline takes in at most one more event (the
/// report on the deletion of its staged file) and the error stays: no later
/// attachment is processed and no status is submitted.
pub proof fn lemma_failed_run_goes_no_further(m: PipelineView, es: Seq<Event>)
    requires
        wf(m),
        m.error is Some,
        accepts_all(m, es),
    ensures
        es.len() <= 1,
        run(m, es).error == m.error,
        run(m, es).current == m.current,
        es.len() == 1 ==> m.phase == Phase::Releasing && next(m, es[0]).1 == ActionView::Stop,
{
    if es.len() > 0 {
        let m1 = next(m, es[0]).0;
        assert(m1.phase == Phase::Failed);
        if es.len() > 1 {
            assert(accepts_all(m1, es.drop_first()));
            assert(m1.phase == phase_for(es.drop_first()[0]));
        }
        assert(es.drop_first().len() == 0 ==> run(m1, es.drop_first()) == m1);
    }
}

/// A pipeline that ran to its end, done or failed, holds no staged file.
pub proof fn lemma_finished_run_holds_no_staged_file(platform: Platform, request: NewStatusView, es: Seq<Event>)
    requires
        accepts_all(advance(initial(platform, request), 0).0, es),
        run(advance(initial(platform, request), 0).0, es).phase == Phase::Done
            || run(advance(initial(platform, request), 0).0, es).phase == Phase::Failed,
    ensures
        !run(advance(initial(platform, request), 0).0, es).staged,
{
    lemma_run_gathers_uploaded_ids(advance(initial(platform, request), 0).0, es);
}

/// The first download requested is that of the first attachment.
pub proof fn lemma_first_download(platform: Platform, request: NewStatusView)
    requires
        request.attachments.len() > 0,
    ensures
        advance(initial(platform, request), 0).1 == (ActionView::Download {
            url: request.attachments[0].url,
        }),
{
}

/// The events that report a failed step.
pub open spec fn reports_failure(m: PipelineView, e: Event) -> bool {
    match e {
        Event::Downloaded { content_type } => m.platform == Platform::Twitter && !header_is_media_type(
            content_type,
        ),
        Event::DownloadFailed { .. } => true,
        Event::StagingFailed { .. } => true,
        Event::UploadFailed { .. } => true,
        Event::MetadataFailed { .. } => true,
        Event::ReleaseFailed { .. } => true,
        Event::SubmitFailed { .. } => true,
        _ => false,
    }
}

/// A failed step records an error, which stays; from then on no download,
/// upload or submission is requested: at most the deletion of the staged
/// file, then nothing. A finished or failed pipeline waits on no event.
pub proof fn lemma_failure_stops_pipeline(m: PipelineView, e: Event)
    requires
        wf(m),
        m.phase == phase_for(e),
    ensures
        reports_failure(m, e) ==> next(m, e).0.error is Some && next(m, e).0.current == m.current,
        m.error is Some ==> next(m, e).0.error == m.error && next(m, e).0.phase == Phase::Failed
            && next(m, e).1 == ActionView::Stop,
        next(m, e).0.error is Some ==> (next(m, e).1 == ActionView::Release || next(m, e).1
            == ActionView::Stop),
        next(m, e).1 == ActionView::Stop <==> (next(m, e).0.phase == Phase::Done || next(m, e).0.phase
            == Phase::Failed),
        phase_for(e) != Phase::Done && phase_for(e) != Phase::Failed,
{
}

/// The upload of an attachment with alt text carries it as its description
/// (in the upload call itself, or in a metadata call right after it); one
/// without alt text has no description at all.
pub proof fn lemma_description_follows_alt_text(m: PipelineView, e: Event)
    requires
        wf(m),
        m.phase == phase_for(e),
    ensures
        (m.platform == Platform::Mastodon && e is Staged) ==> next(m, e).1 == (ActionView::UploadStaged {
            description: alt_at(m),
        }),
        m.platform == Platform::Twitter ==> (e matches Event::Uploaded { media_id } ==> (match alt_at(m) {
            Some(a) => next(m, e).1 == (ActionView::SetMetadata { media_id: media_id@, alt_text: a }),
            None => !(next(m, e).1 is SetMetadata),
        })),
{
}

/// A staged file is deleted on every path: while one exists the pipeline
/// requests its upload or its deletion, it is forgotten only once its deletion
/// was requested, and no finished or failed pipeline holds one.
pub proof fn lemma_staged_file_released(m: PipelineView, e: Event)
    requires
        wf(m),
        m.phase == phase_for(e),
    ensures
        next(m, e).0.staged ==> (next(m, e).1 is UploadStaged || next(m, e).1 == ActionView::Release),
        m.staged && next(m, e).0.staged ==> next(m, e).1 == ActionView::Release,
        m.staged && !next(m, e).0.staged ==> m.phase == Phase::Releasing,
        (next(m, e).0.phase == Phase::Done || next(m, e).0.phase == Phase::Failed) ==> !next(m, e).0.staged,
{
}

} // verus!
