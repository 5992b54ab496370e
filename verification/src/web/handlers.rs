//! The request pipeline for one image: the decisions between the steps that
//! read the filesystem, wait for admission and run the transform.
//!
//! The pipeline neither reads, waits nor computes pixels. It is handed the
//! outcome of each such step as an event and answers with the next action.
//! Its caller performs the action and comes back with the next event.

use crate::config::{text_of, Config, ConfigView};
use crate::domain::image_processing::{ProcessOptions, ProcessOptionsView};
use crate::error::{AppError, AppErrorView};
use crate::web::etag::{
    compute_etag, fresh, is_fresh, quoted, validator_digest, validator_of, SourceMetadata,
    ValidatorInput,
};
use crate::web::negotiation::{negotiate_format, negotiated, OutputFormat};
use crate::web::response::{
    cache_directive, converted, image_response, lemma_validator_makes_a_header, not_modified,
    not_modified_response, ImageResponse, ImageResponseView,
};
use vstd::prelude::*;

verus! {

/// The sizing that a request asks for, from its query.
#[derive(Clone, Copy, Debug, PartialEq, Eq, Structural)]
pub struct ResizeParams {
    /// The target width, if any.
    pub width: Option<u32>,
    /// The target height, if any. It is ignored where a width is given.
    pub height: Option<u32>,
}

/// One request for an image.
#[derive(Debug, Clone, PartialEq, Eq)]
pub struct ImageRequest {
    /// The identifier of the image, from the path.
    pub image_id: String,
    /// The sizing asked for, from the query.
    pub params: ResizeParams,
    /// The value of the `Accept` header, where there is one that is text.
    pub accept: Option<String>,
    /// The value of the `If-None-Match` header, where there is one that is
    /// text.
    pub if_none_match: Option<String>,
}

/// The mathematical value of an [`ImageRequest`].
pub struct ImageRequestView {
    pub image_id: Seq<char>,
    pub params: ResizeParams,
    pub accept: Option<Seq<char>>,
    pub if_none_match: Option<Seq<char>>,
}

impl View for ImageRequest {
    type V = ImageRequestView;

    open spec fn view(&self) -> ImageRequestView {
        ImageRequestView {
            image_id: self.image_id@,
            params: self.params,
            accept: text_of(self.accept),
            if_none_match: text_of(self.if_none_match),
        }
    }
}

/// A transform that waits for admission.
#[derive(Debug, Clone, PartialEq, Eq)]
pub struct TransformJob {
    /// The path of the source file.
    pub source_path: String,
    /// The options of the transform.
    pub options: ProcessOptions,
    /// The negotiated output format.
    pub format: OutputFormat,
    /// The validator of the converted image.
    pub validator: String,
}

/// The mathematical value of a [`TransformJob`].
pub struct TransformJobView {
    pub source_path: Seq<char>,
    pub options: ProcessOptionsView,
    pub format: OutputFormat,
    pub validator: Seq<char>,
}

impl View for TransformJob {
    type V = TransformJobView;

    open spec fn view(&self) -> TransformJobView {
        TransformJobView {
            source_path: self.source_path@,
            options: self.options@,
            format: self.format,
            validator: self.validator@,
        }
    }
}

/// Where a request stands in the pipeline.
#[derive(Debug, PartialEq, Eq)]
pub enum PipelineState {
    /// The metadata of the source file is being read.
    AwaitingMetadata { request: ImageRequest, source_path: String },
    /// The request waits for a permit of the admission pool.
    AwaitingPermit { job: TransformJob },
    /// The transform runs, under a permit.
    Transforming { format: OutputFormat, validator: String },
    /// The request is answered.
    Done,
}

/// The mathematical value of a [`PipelineState`].
pub enum PipelineStateView {
    AwaitingMetadata { request: ImageRequestView, source_path: Seq<char> },
    AwaitingPermit { job: TransformJobView },
    Transforming { format: OutputFormat, validator: Seq<char> },
    Done,
}

impl View for PipelineState {
    type V = PipelineStateView;

    open spec fn view(&self) -> PipelineStateView {
        match *self {
            PipelineState::AwaitingMetadata { request, source_path } => {
                PipelineStateView::AwaitingMetadata { request: request@, source_path: source_path@ }
            },
            PipelineState::AwaitingPermit { job } => PipelineStateView::AwaitingPermit { job: job@ },
            PipelineState::Transforming { format, validator } => PipelineStateView::Transforming {
                format,
                validator: validator@,
            },
            PipelineState::Done => PipelineStateView::Done,
        }
    }
}

/// The outcome of a step that the pipeline asked for.
#[derive(Debug, PartialEq, Eq)]
pub enum PipelineEvent {
    /// The source file exists, with this metadata.
    MetadataFound(SourceMetadata),
    /// The source file is absent.
    MetadataMissing,
    /// The filesystem failed otherwise than by absence: on the metadata of
    /// the source file, or on its modification time.
    MetadataFailed(String),
    /// The admission pool granted a permit.
    PermitGranted,
    /// The admission pool is closed for good.
    PoolClosed,
    /// The transform gave the encoded image.
    TransformDone(Vec<u8>),
    /// The transform failed.
    TransformFailed(AppError),
    /// The task that ran the transform failed before it gave a result.
    TransformAborted(String),
}

/// The mathematical value of a [`PipelineEvent`].
pub enum PipelineEventView {
    MetadataFound(SourceMetadata),
    MetadataMissing,
    MetadataFailed(Seq<char>),
    PermitGranted,
    PoolClosed,
    TransformDone(Seq<u8>),
    TransformFailed(AppErrorView),
    TransformAborted(Seq<char>),
}

impl View for PipelineEvent {
    type V = PipelineEventView;

    open spec fn view(&self) -> PipelineEventView {
        match *self {
            PipelineEvent::MetadataFound(metadata) => PipelineEventView::MetadataFound(metadata),
            PipelineEvent::MetadataMissing => PipelineEventView::MetadataMissing,
            PipelineEvent::MetadataFailed(cause) => {
                PipelineEventView::MetadataFailed(cause@)
            },
            PipelineEvent::PermitGranted => PipelineEventView::PermitGranted,
            PipelineEvent::PoolClosed => PipelineEventView::PoolClosed,
            PipelineEvent::TransformDone(body) => PipelineEventView::TransformDone(body@),
            PipelineEvent::TransformFailed(e) => PipelineEventView::TransformFailed(e@),
            PipelineEvent::TransformAborted(cause) => PipelineEventView::TransformAborted(cause@),
        }
    }
}

/// What the pipeline asks its caller to do next.
#[derive(Debug, PartialEq, Eq)]
pub enum PipelineAction {
    /// Read the metadata of the source file.
    ReadMetadata { source_path: String },
    /// Wait for a permit of the admission pool.
    AcquirePermit,
    /// Run the transform, under the permit, away from the scheduler.
    Transform { source_path: String, options: ProcessOptions },
    /// Answer the client.
    Respond(ImageResponse),
    /// Answer the client with a failure.
    Fail(AppError),
}

/// The mathematical value of a [`PipelineAction`].
pub enum PipelineActionView {
    ReadMetadata { source_path: Seq<char> },
    AcquirePermit,
    Transform { source_path: Seq<char>, options: ProcessOptionsView },
    Respond(ImageResponseView),
    Fail(AppErrorView),
}

impl View for PipelineAction {
    type V = PipelineActionView;

    open spec fn view(&self) -> PipelineActionView {
        match *self {
            PipelineAction::ReadMetadata { source_path } => PipelineActionView::ReadMetadata {
                source_path: source_path@,
            },
            PipelineAction::AcquirePermit => PipelineActionView::AcquirePermit,
            PipelineAction::Transform { source_path, options } => PipelineActionView::Transform {
                source_path: source_path@,
                options: options@,
            },
            PipelineAction::Respond(response) => PipelineActionView::Respond(response@),
            PipelineAction::Fail(e) => PipelineActionView::Fail(e@),
        }
    }
}

/// The path of the file behind an image: the image's identifier with the
/// suffix `.png`, in the directory of the source images.
pub open spec fn source_path_of(images_directory: Seq<char>, image_id: Seq<char>) -> Seq<char> {
    images_directory + "/"@ + image_id + ".png"@
}

/// The cause given for an event that does not answer the action asked for.
pub open spec fn out_of_order() -> Seq<char> {
    "Event out of order"@
}

/// Where a request starts, and the first action.
pub open spec fn started(config: ConfigView, request: ImageRequestView) -> (
    PipelineStateView,
    PipelineActionView,
) {
    let source_path = source_path_of(config.images_directory, request.image_id);
    (
        PipelineStateView::AwaitingMetadata { request, source_path },
        PipelineActionView::ReadMetadata { source_path },
    )
}

/// The format negotiated for a request.
pub open spec fn format_of(request: ImageRequestView) -> OutputFormat {
    negotiated(request.accept)
}

/// The current validator of what a request asks for.
pub open spec fn current_validator(request: ImageRequestView, metadata: SourceMetadata) -> Seq<
    char,
> {
    validator_of(
        ValidatorInput {
            source: metadata,
            format_suffix: format_of(request).suffix_text(),
            width: request.params.width,
            height: request.params.height,
        },
    )
}

/// Whether the client's cache holds what a request asks for.
pub open spec fn is_cache_hit(request: ImageRequestView, metadata: SourceMetadata) -> bool {
    fresh(request.if_none_match, current_validator(request, metadata))
}

/// The transform that a request leads to.
pub open spec fn job_of(
    request: ImageRequestView,
    source_path: Seq<char>,
    metadata: SourceMetadata,
) -> TransformJobView {
    TransformJobView {
        source_path,
        options: ProcessOptionsView {
            width: request.params.width,
            height: request.params.height,
            format_suffix: format_of(request).suffix_text(),
        },
        format: format_of(request),
        validator: current_validator(request, metadata),
    }
}

/// The step taken once the metadata of the source file is known: a request
/// that is fresh is answered at once, from the client's cache; any other
/// goes on to wait for admission.
pub open spec fn after_metadata(
    request: ImageRequestView,
    source_path: Seq<char>,
    metadata: SourceMetadata,
) -> (PipelineStateView, PipelineActionView) {
    if is_cache_hit(request, metadata) {
        (
            PipelineStateView::Done,
            PipelineActionView::Respond(not_modified(current_validator(request, metadata))),
        )
    } else {
        (
            PipelineStateView::AwaitingPermit { job: job_of(request, source_path, metadata) },
            PipelineActionView::AcquirePermit,
        )
    }
}

/// The end of a request in failure.
pub open spec fn failed(e: AppErrorView) -> (PipelineStateView, PipelineActionView) {
    (PipelineStateView::Done, PipelineActionView::Fail(e))
}

/// The next state and action of the pipeline, from its state and the event
/// that came in.
pub open spec fn next(state: PipelineStateView, event: PipelineEventView) -> (
    PipelineStateView,
    PipelineActionView,
) {
    match state {
        PipelineStateView::AwaitingMetadata { request, source_path } => match event {
            PipelineEventView::MetadataFound(metadata) => after_metadata(
                request,
                source_path,
                metadata,
            ),
            PipelineEventView::MetadataMissing => failed(AppErrorView::NotFound),
            PipelineEventView::MetadataFailed(cause) => failed(
                AppErrorView::IoError(cause),
            ),
            _ => failed(AppErrorView::UnexpectedError(out_of_order())),
        },
        PipelineStateView::AwaitingPermit { job } => match event {
            PipelineEventView::PermitGranted => (
                PipelineStateView::Transforming { format: job.format, validator: job.validator },
                PipelineActionView::Transform {
                    source_path: job.source_path,
                    options: job.options,
                },
            ),
            PipelineEventView::PoolClosed => failed(AppErrorView::ServerBusy),
            _ => failed(AppErrorView::UnexpectedError(out_of_order())),
        },
        PipelineStateView::Transforming { format, validator } => match event {
            PipelineEventView::TransformDone(body) => (
                PipelineStateView::Done,
                PipelineActionView::Respond(converted(format, validator, body)),
            ),
            PipelineEventView::TransformFailed(e) => failed(e),
            PipelineEventView::TransformAborted(cause) => failed(
                AppErrorView::UnexpectedError(cause),
            ),
            _ => failed(AppErrorView::UnexpectedError(out_of_order())),
        },
        PipelineStateView::Done => failed(AppErrorView::UnexpectedError(out_of_order())),
    }
}

/// The path of the file behind an image.
pub fn source_path(images_directory: &str, image_id: &str) -> (path: String)
    ensures
        path@ == source_path_of(images_directory@, image_id@),
{
    String::from_str(images_directory).concat("/").concat(image_id).concat(".png")
}

/// Starts the pipeline for a request: the first action is to read the
/// metadata of the source file.
pub fn begin(config: &Config, request: ImageRequest) -> (start: (PipelineState, PipelineAction))
    ensures
        (start.0@, start.1@) == started(config@, request@),
{
    let path = source_path(config.images_directory.as_str(), request.image_id.as_str());
    let again = path.clone();
    (
        PipelineState::AwaitingMetadata { request, source_path: path },
        PipelineAction::ReadMetadata { source_path: again },
    )
}

/// The end of a request in failure.
fn fail(e: AppError) -> (end: (PipelineState, PipelineAction))
    ensures
        (end.0@, end.1@) == failed(e@),
{
    (PipelineState::Done, PipelineAction::Fail(e))
}

/// The end of a request on an event that does not answer the action asked
/// for.
fn fail_out_of_order() -> (end: (PipelineState, PipelineAction))
    ensures
        (end.0@, end.1@) == failed(AppErrorView::UnexpectedError(out_of_order())),
{
    fail(AppError::UnexpectedError(String::from_str("Event out of order")))
}

/// The step taken once the metadata of the source file is known.
fn decide_on_metadata(request: ImageRequest, source_path: String, metadata: SourceMetadata) -> (step:
    (PipelineState, PipelineAction))
    ensures
        (step.0@, step.1@) == after_metadata(request@, source_path@, metadata),
{
    let accept = match &request.accept {
        Some(value) => Some(value.as_str()),
        None => None,
    };
    let format = negotiate_format(accept);
    let validator = compute_etag(
        metadata,
        format.suffix(),
        request.params.width,
        request.params.height,
    );
    let if_none_match = match &request.if_none_match {
        Some(value) => Some(value.as_str()),
        None => None,
    };
    if is_fresh(if_none_match, validator.as_str()) {
        (
            PipelineState::Done,
            PipelineAction::Respond(not_modified_response(validator.as_str())),
        )
    } else {
        let options = ProcessOptions {
            width: request.params.width,
            height: request.params.height,
            format_suffix: String::from_str(format.suffix()),
        };
        let job = TransformJob { source_path, options, format, validator };
        (PipelineState::AwaitingPermit { job }, PipelineAction::AcquirePermit)
    }
}

/// Takes the pipeline of one image request a step further: from the state
/// it is in and the event that came in, to the next state and the action to
/// perform.
///
/// The pipeline starts with [`begin`] and is over when it answers with
/// `Respond` or `Fail`. An event that does not answer the action asked for
/// ends it with an unexpected error.
pub fn handle_image(state: PipelineState, event: PipelineEvent) -> (step: (
    PipelineState,
    PipelineAction,
))
    ensures
        (step.0@, step.1@) == next(state@, event@),
{
    match state {
        PipelineState::AwaitingMetadata { request, source_path } => match event {
            PipelineEvent::MetadataFound(metadata) => decide_on_metadata(
                request,
                source_path,
                metadata,
            ),
            PipelineEvent::MetadataMissing => fail(AppError::NotFound),
            PipelineEvent::MetadataFailed(cause) => fail(AppError::IoError(cause)),
            _ => fail_out_of_order(),
        },
        PipelineState::AwaitingPermit { job } => match event {
            PipelineEvent::PermitGranted => {
                let TransformJob { source_path, options, format, validator } = job;
                (
                    PipelineState::Transforming { format, validator },
                    PipelineAction::Transform { source_path, options },
                )
            },
            PipelineEvent::PoolClosed => fail(AppError::ServerBusy),
            _ => fail_out_of_order(),
        },
        PipelineState::Transforming { format, validator } => match event {
            PipelineEvent::TransformDone(body) => (
                PipelineState::Done,
                PipelineAction::Respond(image_response(format, validator.as_str(), body)),
            ),
            PipelineEvent::TransformFailed(e) => fail(e),
            PipelineEvent::TransformAborted(cause) => fail(AppError::UnexpectedError(cause)),
            _ => fail_out_of_order(),
        },
        PipelineState::Done => fail_out_of_order(),
    }
}

impl PipelineState {
    /// Whether the request holds a permit of the admission pool: it does
    /// exactly while its transform runs.
    pub fn holds_permit(&self) -> (held: bool)
        ensures
            held == (self@ is Transforming),
    {
        match self {
            PipelineState::Transforming { .. } => true,
            _ => false,
        }
    }

    /// Whether the request is answered.
    pub fn is_done(&self) -> (done: bool)
        ensures
            done == (self@ is Done),
    {
        match self {
            PipelineState::Done => true,
            _ => false,
        }
    }
}

/// The number of steps a request is away from its answer, at most.
pub open spec fn steps_left(state: PipelineStateView) -> nat {
    match state {
        PipelineStateView::AwaitingMetadata { .. } => 3,
        PipelineStateView::AwaitingPermit { .. } => 2,
        PipelineStateView::Transforming { .. } => 1,
        PipelineStateView::Done => 0,
    }
}

/// The actions that the pipeline answers with when the given events come
/// in, one after the other, from the given state on.
pub open spec fn actions_of(state: PipelineStateView, events: Seq<PipelineEventView>) -> Seq<
    PipelineActionView,
>
    decreases events.len(),
{
    if events.len() == 0 {
        Seq::empty()
    } else {
        seq![next(state, events.first()).1] + actions_of(
            next(state, events.first()).0,
            events.drop_first(),
        )
    }
}

/// Every step takes a request closer to its answer, and the pipeline is
/// over exactly when it answers: with a response or with a failure.
pub proof fn lemma_step_makes_progress(state: PipelineStateView, event: PipelineEventView)
    ensures
        steps_left(next(state, event).0) < steps_left(state) || state is Done,
        next(state, event).0 is Done <==> (next(state, event).1 is Respond || next(
            state,
            event,
        ).1 is Fail),
{
}

/// A transform is asked for only in answer to a granted permit, and the
/// request then holds that permit.
pub proof fn lemma_transform_runs_under_permit(state: PipelineStateView, event: PipelineEventView)
    requires
        next(state, event).1 is Transform,
    ensures
        state is AwaitingPermit,
        event is PermitGranted,
        next(state, event).0 is Transforming,
{
}

/// A permit is held from the step that a grant leads to until the very next
/// event: whatever the transform comes to, the request is over and the
/// permit is free.
pub proof fn lemma_permit_is_scoped_to_the_transform(
    state: PipelineStateView,
    event: PipelineEventView,
)
    ensures
        next(state, event).0 is Transforming <==> (state is AwaitingPermit
            && event is PermitGranted),
        state is Transforming ==> next(state, event).0 is Done,
{
}

/// Waiting for admission never fails a request by itself: the pipeline
/// answers that the server is busy only when the pool is closed for good,
/// or when the transform itself failed so.
pub proof fn lemma_busy_only_when_closed(state: PipelineStateView, event: PipelineEventView)
    requires
        next(state, event).1 == PipelineActionView::Fail(AppErrorView::ServerBusy),
    ensures
        (state is AwaitingPermit && event is PoolClosed) || (state is Transforming && event
            == PipelineEventView::TransformFailed(AppErrorView::ServerBusy)),
{
}

/// Once a request is answered, nothing more is asked for: every further
/// event is answered with a failure.
pub proof fn lemma_done_asks_for_nothing(events: Seq<PipelineEventView>)
    ensures
        actions_of(PipelineStateView::Done, events).len() == events.len(),
        forall|i: int|
            0 <= i < events.len() ==> #[trigger] actions_of(
                PipelineStateView::Done,
                events,
            )[i] is Fail,
    decreases events.len(),
{
    if events.len() > 0 {
        lemma_done_asks_for_nothing(events.drop_first());
    }
}

/// A request whose conditional header matches the current validator is
/// answered with 304, the validator and an empty body, and the pipeline
/// never asks for admission nor for a transform, whatever comes in later.
pub proof fn lemma_cache_hit_skips_transform(
    request: ImageRequestView,
    source_path: Seq<char>,
    metadata: SourceMetadata,
    later: Seq<PipelineEventView>,
)
    requires
        is_cache_hit(request, metadata),
    ensures
        ({
            let state = PipelineStateView::AwaitingMetadata { request, source_path };
            let found = PipelineEventView::MetadataFound(metadata);
            let actions = actions_of(state, seq![found] + later);
            &&& next(state, found) == (
                PipelineStateView::Done,
                PipelineActionView::Respond(not_modified(current_validator(request, metadata))),
            )
            &&& not_modified(current_validator(request, metadata)).status == 304
            &&& not_modified(current_validator(request, metadata)).body.len() == 0
            &&& actions.len() == later.len() + 1
            &&& forall|i: int|
                0 <= i < actions.len() ==> !(#[trigger] actions[i] is Transform) && !(actions[i] is AcquirePermit)
        }),
{
    let state = PipelineStateView::AwaitingMetadata { request, source_path };
    let found = PipelineEventView::MetadataFound(metadata);
    let events = seq![found] + later;
    let actions = actions_of(state, events);
    assert(events.first() == found);
    assert(events.drop_first() =~= later);
    lemma_done_asks_for_nothing(later);
    let rest = actions_of(PipelineStateView::Done, later);
    assert(actions =~= seq![next(state, found).1] + rest);
    assert forall|i: int| 0 <= i < actions.len() implies !(#[trigger] actions[i] is Transform) && !(actions[i] is AcquirePermit) by {
        if i > 0 {
            assert(actions[i] == rest[i - 1]);
        }
    }
}

/// A request that is not answered from the client's cache, and whose source
/// exists, waits for admission with the transform that the request asks
/// for: the negotiated format, the requested dimensions, the current
/// validator.
pub proof fn lemma_cache_miss_waits_for_admission(
    request: ImageRequestView,
    source_path: Seq<char>,
    metadata: SourceMetadata,
)
    requires
        !is_cache_hit(request, metadata),
    ensures
        next(
            PipelineStateView::AwaitingMetadata { request, source_path },
            PipelineEventView::MetadataFound(metadata),
        ) == (
            PipelineStateView::AwaitingPermit { job: job_of(request, source_path, metadata) },
            PipelineActionView::AcquirePermit,
        ),
{
}

/// Every answer to a request carries the current validator in its `ETag`
/// header: alone where the client's cache is fresh, after the content type,
/// the cache directive and the `Vary` header where the image is sent.
pub proof fn lemma_answers_carry_the_validator(
    request: ImageRequestView,
    metadata: SourceMetadata,
    body: Seq<u8>,
)
    ensures
        not_modified(current_validator(request, metadata)).headers == seq![
            ("etag"@, quoted(current_validator(request, metadata))),
        ],
        converted(format_of(request), current_validator(request, metadata), body).headers == seq![
            ("content-type"@, format_of(request).mime_text()),
            ("cache-control"@, cache_directive()),
            ("vary"@, "Accept"@),
            ("etag"@, quoted(current_validator(request, metadata))),
        ],
{
    let input = ValidatorInput {
        source: metadata,
        format_suffix: format_of(request).suffix_text(),
        width: request.params.width,
        height: request.params.height,
    };
    lemma_validator_makes_a_header(validator_digest(input));
    let validator = current_validator(request, metadata);
    assert(converted(format_of(request), validator, body).headers =~= seq![
        ("content-type"@, format_of(request).mime_text()),
        ("cache-control"@, cache_directive()),
        ("vary"@, "Accept"@),
        ("etag"@, quoted(validator)),
    ]);
}

} // verus!
