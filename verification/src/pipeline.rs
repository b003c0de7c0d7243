//! The per-request state machine: from the stage a request is in and the
//! outcome of the work last asked for, it decides the next stage and the next
//! piece of work. The caller performs the work (cache access, loading,
//! measuring, drawing, encoding) and reports back.

use vstd::prelude::*;
use crate::cache::TitleCache;
use crate::layout::{
    centered_x, spec_centered_x, spec_title_y, title_y, TITLE_SCALE, WATERMARK_SCALE, WATERMARK_X,
    WATERMARK_Y,
};

verus! {

/// Why a request could not be served as planned.
#[derive(Clone, Copy, Debug, PartialEq, Eq, Structural)]
pub enum RenderError {
    /// The background is missing or malformed.
    Load,
    /// The encoder failed.
    Encode,
    /// The rendered bytes could not be written to the cache.
    CacheWrite,
}

/// Outcome class of a response.
#[derive(Clone, Copy, Debug, PartialEq, Eq, Structural)]
pub enum Status {
    /// The body is the image.
    Success,
    /// A step of the pipeline failed.
    InternalError,
}

/// An RGBA colour.
#[derive(Clone, Copy, Debug, PartialEq, Eq, Structural)]
pub struct Color {
    pub r: u8,
    pub g: u8,
    pub b: u8,
    pub a: u8,
}

/// Where a request stands.
#[derive(Clone, Copy, Debug, PartialEq, Eq, Structural)]
pub enum Stage {
    CheckCache,
    LoadBackground,
    DrawWatermark,
    MeasureTitle,
    DrawTitle,
    Encode,
    Store,
    Done,
}

/// What is sent back to the requester.
#[derive(Debug, PartialEq, Eq)]
pub struct Response {
    pub status: Status,
    pub body: Vec<u8>,
    pub error: Option<RenderError>,
}

/// One line of text to paint.
#[derive(Debug, PartialEq, Eq)]
pub struct DrawCommand {
    pub text: String,
    pub x: i32,
    pub y: i32,
    pub scale: u32,
    pub color: Color,
}

/// The outcome of the work that the last action asked for.
#[derive(Debug, PartialEq, Eq)]
pub enum Event {
    CacheHit(Vec<u8>),
    CacheMiss,
    BackgroundLoaded { width: u32, height: u32 },
    LoadFailed,
    Drawn,
    Measured(i32),
    Encoded(Vec<u8>),
    EncodeFailed,
    Stored,
    StoreFailed,
}

/// The work to do next.
#[derive(Debug, PartialEq, Eq)]
pub enum Action {
    LookUp { title: String },
    LoadBackground,
    Draw(DrawCommand),
    Measure { text: String, scale: u32 },
    Encode,
    Store { title: String, bytes: Vec<u8> },
    Respond(Response),
}

/// A request in flight.
#[derive(Debug)]
pub struct Pipeline {
    stage: Stage,
    title: String,
    width: u32,
    height: u32,
    artifact: Vec<u8>,
}

/// Model of a [`Response`].
pub struct ResponseView {
    pub status: Status,
    pub body: Seq<u8>,
    pub error: Option<RenderError>,
}

/// Model of a [`DrawCommand`].
pub struct DrawView {
    pub text: Seq<char>,
    pub x: int,
    pub y: int,
    pub scale: int,
    pub color: Color,
}

/// Model of an [`Event`].
pub enum EventView {
    CacheHit(Seq<u8>),
    CacheMiss,
    BackgroundLoaded { width: int, height: int },
    LoadFailed,
    Drawn,
    Measured(int),
    Encoded(Seq<u8>),
    EncodeFailed,
    Stored,
    StoreFailed,
}

/// Model of an [`Action`].
pub enum ActionView {
    LookUp { title: Seq<char> },
    LoadBackground,
    Draw(DrawView),
    Measure { text: Seq<char>, scale: int },
    Encode,
    Store { title: Seq<char>, bytes: Seq<u8> },
    Respond(ResponseView),
}

/// Model of a [`Pipeline`].
pub struct PipelineView {
    pub stage: Stage,
    pub title: Seq<char>,
    pub width: int,
    pub height: int,
    pub artifact: Seq<u8>,
}

impl View for Response {
    type V = ResponseView;

    open spec fn view(&self) -> ResponseView {
        ResponseView { status: self.status, body: self.body@, error: self.error }
    }
}

impl View for DrawCommand {
    type V = DrawView;

    open spec fn view(&self) -> DrawView {
        DrawView {
            text: self.text@,
            x: self.x as int,
            y: self.y as int,
            scale: self.scale as int,
            color: self.color,
        }
    }
}

impl View for Event {
    type V = EventView;

    open spec fn view(&self) -> EventView {
        match *self {
            Event::CacheHit(bytes) => EventView::CacheHit(bytes@),
            Event::CacheMiss => EventView::CacheMiss,
            Event::BackgroundLoaded { width, height } => EventView::BackgroundLoaded {
                width: width as int,
                height: height as int,
            },
            Event::LoadFailed => EventView::LoadFailed,
            Event::Drawn => EventView::Drawn,
            Event::Measured(width) => EventView::Measured(width as int),
            Event::Encoded(bytes) => EventView::Encoded(bytes@),
            Event::EncodeFailed => EventView::EncodeFailed,
            Event::Stored => EventView::Stored,
            Event::StoreFailed => EventView::StoreFailed,
        }
    }
}

impl View for Action {
    type V = ActionView;

    open spec fn view(&self) -> ActionView {
        match *self {
            Action::LookUp { title } => ActionView::LookUp { title: title@ },
            Action::LoadBackground => ActionView::LoadBackground,
            Action::Draw(command) => ActionView::Draw(command@),
            Action::Measure { text, scale } => ActionView::Measure {
                text: text@,
                scale: scale as int,
            },
            Action::Encode => ActionView::Encode,
            Action::Store { title, bytes } => ActionView::Store { title: title@, bytes: bytes@ },
            Action::Respond(response) => ActionView::Respond(response@),
        }
    }
}

impl View for Pipeline {
    type V = PipelineView;

    closed spec fn view(&self) -> PipelineView {
        PipelineView {
            stage: self.stage,
            title: self.title@,
            width: self.width as int,
            height: self.height as int,
            artifact: self.artifact@,
        }
    }
}

/// Solid opaque white.
pub open spec fn spec_white() -> Color {
    Color { r: 255, g: 255, b: 255, a: 255 }
}

/// The text of the watermark.
pub open spec fn watermark_text() -> Seq<char> {
    "uneu.net"@
}

/// The watermark: a fixed text in white, at a fixed small scale and a fixed
/// offset from the top-left corner.
pub open spec fn watermark_command() -> DrawView {
    DrawView {
        text: watermark_text(),
        x: WATERMARK_X as int,
        y: WATERMARK_Y as int,
        scale: WATERMARK_SCALE as int,
        color: spec_white(),
    }
}

/// The title in white, centred horizontally for its measured width, at the
/// vertical origin that the image height gives.
pub open spec fn title_command(
    title: Seq<char>,
    image_width: int,
    image_height: int,
    text_width: int,
) -> DrawView {
    DrawView {
        text: title,
        x: spec_centered_x(image_width, text_width),
        y: spec_title_y(image_height),
        scale: TITLE_SCALE as int,
        color: spec_white(),
    }
}

/// A successful answer carrying `body`.
pub open spec fn ok_response(body: Seq<u8>) -> ResponseView {
    ResponseView { status: Status::Success, body, error: None }
}

/// A failed answer: `error` says which step failed, `body` is empty unless
/// bytes had been rendered before the failure.
pub open spec fn failure_response(error: RenderError, body: Seq<u8>) -> ResponseView {
    ResponseView { status: Status::InternalError, body, error: Some(error) }
}

/// The state of a request for `title` before anything was done.
pub open spec fn spec_start(title: Seq<char>) -> PipelineView {
    PipelineView {
        stage: Stage::CheckCache,
        title,
        width: 0,
        height: 0,
        artifact: Seq::<u8>::empty(),
    }
}

/// Whether `event` answers the work that a request in state `state` waits
/// for. A loaded background must be high enough for the title scale and its
/// width must fit a signed pixel coordinate.
pub open spec fn spec_expects(state: PipelineView, event: EventView) -> bool {
    match event {
        EventView::CacheHit(_) | EventView::CacheMiss => state.stage == Stage::CheckCache,
        EventView::BackgroundLoaded { width, height } => state.stage == Stage::LoadBackground
            && 0 <= width <= i32::MAX && TITLE_SCALE <= height <= u32::MAX,
        EventView::LoadFailed => state.stage == Stage::LoadBackground,
        EventView::Drawn => state.stage == Stage::DrawWatermark || state.stage == Stage::DrawTitle,
        EventView::Measured(_) => state.stage == Stage::MeasureTitle,
        EventView::Encoded(_) | EventView::EncodeFailed => state.stage == Stage::Encode,
        EventView::Stored | EventView::StoreFailed => state.stage == Stage::Store,
    }
}

/// `state` moved to `stage`.
pub open spec fn at_stage(state: PipelineView, stage: Stage) -> PipelineView {
    PipelineView { stage, ..state }
}

/// The transition function: the state after `event` and the work to do next.
///
/// A hit answers at once with the cached bytes. A miss loads the background,
/// paints the watermark, measures and paints the title, encodes and stores. A
/// failed load or a failed encoding answers with an empty body. A failed
/// store answers as a failure too, yet with the bytes that were rendered.
pub open spec fn spec_step(state: PipelineView, event: EventView) -> (PipelineView, ActionView) {
    match event {
        EventView::CacheHit(bytes) => (
            at_stage(state, Stage::Done),
            ActionView::Respond(ok_response(bytes)),
        ),
        EventView::CacheMiss => (at_stage(state, Stage::LoadBackground), ActionView::LoadBackground),
        EventView::BackgroundLoaded { width, height } => (
            PipelineView { stage: Stage::DrawWatermark, width, height, ..state },
            ActionView::Draw(watermark_command()),
        ),
        EventView::LoadFailed => (
            at_stage(state, Stage::Done),
            ActionView::Respond(failure_response(RenderError::Load, Seq::<u8>::empty())),
        ),
        EventView::Drawn => if state.stage == Stage::DrawWatermark {
            (
                at_stage(state, Stage::MeasureTitle),
                ActionView::Measure { text: state.title, scale: TITLE_SCALE as int },
            )
        } else {
            (at_stage(state, Stage::Encode), ActionView::Encode)
        },
        EventView::Measured(text_width) => (
            at_stage(state, Stage::DrawTitle),
            ActionView::Draw(title_command(state.title, state.width, state.height, text_width)),
        ),
        EventView::Encoded(bytes) => (
            PipelineView { stage: Stage::Store, artifact: bytes, ..state },
            ActionView::Store { title: state.title, bytes },
        ),
        EventView::EncodeFailed => (
            at_stage(state, Stage::Done),
            ActionView::Respond(failure_response(RenderError::Encode, Seq::<u8>::empty())),
        ),
        EventView::Stored => (
            at_stage(state, Stage::Done),
            ActionView::Respond(ok_response(state.artifact)),
        ),
        EventView::StoreFailed => (
            at_stage(state, Stage::Done),
            ActionView::Respond(failure_response(RenderError::CacheWrite, state.artifact)),
        ),
    }
}

/// What a lookup of `title` in `cache` reports.
pub open spec fn spec_lookup(cache: Map<Seq<char>, Seq<u8>>, title: Seq<char>) -> EventView {
    if cache.contains_key(title) {
        EventView::CacheHit(cache[title])
    } else {
        EventView::CacheMiss
    }
}

/// Solid opaque white.
pub fn white() -> (color: Color)
    ensures
        color == spec_white(),
{
    Color { r: 255, g: 255, b: 255, a: 255 }
}

/// The media type of a successful response body.
pub fn content_type() -> (media_type: &'static str)
    ensures
        media_type@ == "image/png"@,
{
    "image/png"
}

impl Status {
    /// The numeric status code: 200 for success, 500 for a failure.
    pub fn code(&self) -> (code: u16)
        ensures
            code == (if *self == Status::Success { 200u16 } else { 500u16 }),
    {
        match self {
            Status::Success => 200,
            Status::InternalError => 500,
        }
    }
}

/// Reports what `cache` holds for `title`: a hit with the stored bytes, or a
/// miss.
pub fn lookup(cache: &TitleCache, title: &String) -> (event: Event)
    requires
        cache.wf(),
    ensures
        event@ == spec_lookup(cache@, title@),
{
    match cache.get(title) {
        Some(bytes) => Event::CacheHit(bytes),
        None => Event::CacheMiss,
    }
}

impl Pipeline {
    /// Once the background is loaded, the recorded dimensions are those that
    /// the title can be placed on.
    #[verifier::type_invariant]
    closed spec fn dimensions_fit(self) -> bool {
        (self.stage == Stage::DrawWatermark || self.stage == Stage::MeasureTitle) ==> self.width
            <= i32::MAX && TITLE_SCALE <= self.height
    }

    /// Begins a request for `title`: the first thing to do is to look the
    /// title up in the cache.
    pub fn start(title: String) -> (out: (Pipeline, Action))
        ensures
            out.0@ == spec_start(title@),
            out.1@ == (ActionView::LookUp { title: title@ }),
    {
        let key = title.clone();
        (
            Pipeline { stage: Stage::CheckCache, title, width: 0, height: 0, artifact: Vec::new() },
            Action::LookUp { title: key },
        )
    }

    /// The stage the request is in.
    pub fn stage(&self) -> (stage: Stage)
        ensures
            stage == self@.stage,
    {
        self.stage
    }

    /// Whether the request has been answered.
    pub fn is_done(&self) -> (done: bool)
        ensures
            done == (self@.stage == Stage::Done),
    {
        self.stage == Stage::Done
    }

    /// Whether `event` answers the work that this request waits for.
    pub fn expects(&self, event: &Event) -> (expected: bool)
        ensures
            expected == spec_expects(self@, event@),
    {
        match event {
            Event::CacheHit(_) => self.stage == Stage::CheckCache,
            Event::CacheMiss => self.stage == Stage::CheckCache,
            Event::BackgroundLoaded { width, height } => self.stage == Stage::LoadBackground
                && *width <= 0x7fff_ffff && TITLE_SCALE <= *height,
            Event::LoadFailed => self.stage == Stage::LoadBackground,
            Event::Drawn => self.stage == Stage::DrawWatermark || self.stage == Stage::DrawTitle,
            Event::Measured(_) => self.stage == Stage::MeasureTitle,
            Event::Encoded(_) => self.stage == Stage::Encode,
            Event::EncodeFailed => self.stage == Stage::Encode,
            Event::Stored => self.stage == Stage::Store,
            Event::StoreFailed => self.stage == Stage::Store,
        }
    }

    /// Takes the outcome of the work last asked for and decides what follows:
    /// the next state and the next action, as the transition function gives
    /// them.
    pub fn step(self, event: Event) -> (out: (Pipeline, Action))
        requires
            spec_expects(self@, event@),
        ensures
            out.0@ == spec_step(self@, event@).0,
            out.1@ == spec_step(self@, event@).1,
    {
        proof {
            use_type_invariant(&self);
        }
        let Pipeline { stage, title, width, height, artifact } = self;
        match event {
            Event::CacheHit(bytes) => (
                Pipeline { stage: Stage::Done, title, width, height, artifact },
                Action::Respond(Response { status: Status::Success, body: bytes, error: None }),
            ),
            Event::CacheMiss => (
                Pipeline { stage: Stage::LoadBackground, title, width, height, artifact },
                Action::LoadBackground,
            ),
            Event::BackgroundLoaded { width: loaded_width, height: loaded_height } => (
                Pipeline {
                    stage: Stage::DrawWatermark,
                    title,
                    width: loaded_width,
                    height: loaded_height,
                    artifact,
                },
                Action::Draw(
                    DrawCommand {
                        text: "uneu.net".to_owned(),
                        x: WATERMARK_X,
                        y: WATERMARK_Y,
                        scale: WATERMARK_SCALE,
                        color: white(),
                    },
                ),
            ),
            Event::LoadFailed => (
                Pipeline { stage: Stage::Done, title, width, height, artifact },
                Action::Respond(
                    Response {
                        status: Status::InternalError,
                        body: Vec::new(),
                        error: Some(RenderError::Load),
                    },
                ),
            ),
            Event::Drawn => {
                if stage == Stage::DrawWatermark {
                    let text = title.clone();
                    (
                        Pipeline { stage: Stage::MeasureTitle, title, width, height, artifact },
                        Action::Measure { text, scale: TITLE_SCALE },
                    )
                } else {
                    (
                        Pipeline { stage: Stage::Encode, title, width, height, artifact },
                        Action::Encode,
                    )
                }
            },
            Event::Measured(text_width) => {
                let x: i32 = centered_x(width, text_width);
                let y: i32 = title_y(height);
                let text = title.clone();
                (
                    Pipeline { stage: Stage::DrawTitle, title, width, height, artifact },
                    Action::Draw(DrawCommand { text, x, y, scale: TITLE_SCALE, color: white() }),
                )
            },
            Event::Encoded(bytes) => {
                let kept = bytes.clone();
                assert(kept@ =~= bytes@);
                let key = title.clone();
                (
                    Pipeline { stage: Stage::Store, title, width, height, artifact: kept },
                    Action::Store { title: key, bytes },
                )
            },
            Event::EncodeFailed => (
                Pipeline { stage: Stage::Done, title, width, height, artifact },
                Action::Respond(
                    Response {
                        status: Status::InternalError,
                        body: Vec::new(),
                        error: Some(RenderError::Encode),
                    },
                ),
            ),
            Event::Stored => {
                let body = artifact.clone();
                assert(body@ =~= artifact@);
                (
                    Pipeline { stage: Stage::Done, title, width, height, artifact },
                    Action::Respond(Response { status: Status::Success, body, error: None }),
                )
            },
            Event::StoreFailed => {
                let body = artifact.clone();
                assert(body@ =~= artifact@);
                (
                    Pipeline { stage: Stage::Done, title, width, height, artifact },
                    Action::Respond(
                        Response {
                            status: Status::InternalError,
                            body,
                            error: Some(RenderError::CacheWrite),
                        },
                    ),
                )
            },
        }
    }
}

/// The state of a request for `title` whose lookup missed and whose
/// background of the given size was loaded, once the watermark and the title
/// have been painted: encoding comes next.
pub open spec fn spec_composited(
    title: Seq<char>,
    image_width: int,
    image_height: int,
    text_width: int,
) -> PipelineView {
    let missed = spec_step(spec_start(title), EventView::CacheMiss).0;
    let loaded = spec_step(
        missed,
        EventView::BackgroundLoaded { width: image_width, height: image_height },
    ).0;
    let marked = spec_step(loaded, EventView::Drawn).0;
    let measured = spec_step(marked, EventView::Measured(text_width)).0;
    spec_step(measured, EventView::Drawn).0
}

/// On a miss the work is asked for in one order: load the background, paint
/// the watermark, measure the title, paint the title centred, encode. Each
/// outcome is the one that the next stage waits for.
pub proof fn lemma_miss_draws_watermark_then_title(
    title: Seq<char>,
    image_width: int,
    image_height: int,
    text_width: int,
)
    requires
        0 <= image_width <= i32::MAX,
        TITLE_SCALE <= image_height <= u32::MAX,
    ensures
        ({
            let begun = spec_start(title);
            let loading = EventView::BackgroundLoaded { width: image_width, height: image_height };
            let missed = spec_step(begun, EventView::CacheMiss);
            let loaded = spec_step(missed.0, loading);
            let marked = spec_step(loaded.0, EventView::Drawn);
            let measured = spec_step(marked.0, EventView::Measured(text_width));
            let titled = spec_step(measured.0, EventView::Drawn);
            &&& spec_expects(begun, EventView::CacheMiss)
            &&& missed.1 == ActionView::LoadBackground
            &&& spec_expects(missed.0, loading)
            &&& loaded.1 == ActionView::Draw(watermark_command())
            &&& spec_expects(loaded.0, EventView::Drawn)
            &&& marked.1 == (ActionView::Measure { text: title, scale: TITLE_SCALE as int })
            &&& spec_expects(marked.0, EventView::Measured(text_width))
            &&& measured.1 == ActionView::Draw(
                title_command(title, image_width, image_height, text_width),
            )
            &&& spec_expects(measured.0, EventView::Drawn)
            &&& titled.1 == ActionView::Encode
            &&& titled.0 == spec_composited(title, image_width, image_height, text_width)
            &&& titled.0.stage == Stage::Encode
            &&& titled.0.title == title
        }),
{
}

/// The watermark is the same for every request: neither the title nor the
/// size of the background changes its text, its position, its scale or its
/// colour.
pub proof fn lemma_watermark_ignores_title(
    first: PipelineView,
    second: PipelineView,
    first_width: int,
    first_height: int,
    second_width: int,
    second_height: int,
)
    ensures
        spec_step(
            first,
            EventView::BackgroundLoaded { width: first_width, height: first_height },
        ).1 == ActionView::Draw(watermark_command()),
        spec_step(
            second,
            EventView::BackgroundLoaded { width: second_width, height: second_height },
        ).1 == ActionView::Draw(watermark_command()),
        watermark_command().x == 10,
        watermark_command().y == 5,
        watermark_command().scale == 50,
{
}

/// After a render of `title` was encoded to `bytes` and stored, the request
/// is answered with `bytes`; a later request for `title`, looked up in the
/// cache that the store left, is answered at once with the same bytes and
/// asks for no loading, drawing or encoding: it is done, and a request that
/// is done waits for nothing.
pub proof fn lemma_stored_title_is_served_from_cache(
    cache: Map<Seq<char>, Seq<u8>>,
    rendering: PipelineView,
    title: Seq<char>,
    bytes: Seq<u8>,
    anything: EventView,
)
    requires
        rendering.stage == Stage::Encode,
        rendering.title == title,
    ensures
        ({
            let encoded = spec_step(rendering, EventView::Encoded(bytes));
            let stored = spec_step(encoded.0, EventView::Stored);
            let later = cache.insert(title, bytes);
            let hit = spec_lookup(later, title);
            let second = spec_step(spec_start(title), hit);
            &&& encoded.1 == (ActionView::Store { title, bytes })
            &&& spec_expects(encoded.0, EventView::Stored)
            &&& stored.1 == ActionView::Respond(ok_response(bytes))
            &&& hit == EventView::CacheHit(bytes)
            &&& spec_expects(spec_start(title), hit)
            &&& second.1 == stored.1
            &&& second.0.stage == Stage::Done
            &&& !spec_expects(second.0, anything)
        }),
{
}

/// How far a request has come: each stage counts higher than the one before
/// it, and a request that is done counts highest.
pub open spec fn spec_progress(stage: Stage) -> int {
    match stage {
        Stage::CheckCache => 0,
        Stage::LoadBackground => 1,
        Stage::DrawWatermark => 2,
        Stage::MeasureTitle => 3,
        Stage::DrawTitle => 4,
        Stage::Encode => 5,
        Stage::Store => 6,
        Stage::Done => 7,
    }
}

/// Nothing is tried twice: every outcome that a request waits for moves it
/// forward, so that no stage is entered again, and the title it was begun
/// for stays the same. The request answers exactly when it is done.
pub proof fn lemma_each_step_advances(state: PipelineView, event: EventView)
    requires
        spec_expects(state, event),
    ensures
        spec_progress(spec_step(state, event).0.stage) > spec_progress(state.stage),
        spec_step(state, event).0.title == state.title,
        spec_step(state, event).1 is Respond <==> spec_step(state, event).0.stage == Stage::Done,
{
}

/// Every answer is consistent: it is a success exactly when it names no
/// failed step, a success carries the bytes that were found or rendered, and
/// only a failed cache write leaves bytes in the body of a failure.
pub proof fn lemma_answers_are_consistent(state: PipelineView, event: EventView)
    requires
        spec_expects(state, event),
        spec_step(state, event).1 is Respond,
    ensures
        ({
            let answer = spec_step(state, event).1->Respond_0;
            &&& answer.status == Status::Success <==> answer.error is None
            &&& answer.status == Status::Success ==> (event == EventView::CacheHit(answer.body)
                || (event == EventView::Stored && answer.body == state.artifact))
            &&& answer.error == Some(RenderError::Load) <==> event == EventView::LoadFailed
            &&& answer.error == Some(RenderError::Encode) <==> event == EventView::EncodeFailed
            &&& answer.error == Some(RenderError::CacheWrite) <==> event == EventView::StoreFailed
            &&& answer.error is Some && answer.error != Some(RenderError::CacheWrite)
                ==> answer.body.len() == 0
        }),
{
}

/// A failed store does not lose the render: the answer is marked as a
/// failure of the cache write and still carries the encoded bytes.
pub proof fn lemma_failed_store_keeps_bytes(rendering: PipelineView, bytes: Seq<u8>)
    requires
        rendering.stage == Stage::Encode,
    ensures
        ({
            let encoded = spec_step(rendering, EventView::Encoded(bytes));
            let failed = spec_step(encoded.0, EventView::StoreFailed);
            &&& spec_expects(encoded.0, EventView::StoreFailed)
            &&& failed.1 == ActionView::Respond(
                failure_response(RenderError::CacheWrite, bytes),
            )
            &&& failed.0.stage == Stage::Done
        }),
{
}

/// An empty title that measures zero is painted from the middle of the
/// image.
pub proof fn lemma_empty_title_starts_at_middle(image_width: int, image_height: int)
    requires
        0 <= image_width,
    ensures
        title_command(Seq::<char>::empty(), image_width, image_height, 0).x == image_width / 2,
        title_command(Seq::<char>::empty(), image_width, image_height, 0).text.len() == 0,
{
}

} // verus!
