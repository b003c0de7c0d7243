//! A whole request, from the lookup to the answer, as the pipeline plays it
//! out against a cache and the outcomes of the outside work.

use vstd::prelude::*;
use crate::encode::{one_byte_samples, png_encoding, spec_encode_png, RasterView};
use crate::layout::TITLE_SCALE;
use crate::pipeline::{
    ok_response, spec_expects, spec_lookup, spec_start, spec_step, title_command,
    watermark_command, ActionView, EventView, ResponseView,
};

verus! {

/// What the outside work of one request comes to. A request that is served
/// from the cache uses none of it.
pub struct Outcomes {
    /// Width and height of the background, or nothing where it could not be
    /// loaded.
    pub background: Option<(int, int)>,
    /// The measured width of the title.
    pub text_width: int,
    /// The encoded image, or nothing where the encoder failed.
    pub encoded: Option<Seq<u8>>,
    /// Whether the cache write succeeded.
    pub stored: bool,
}

/// How a request ended.
pub struct Served {
    /// The answer to the requester.
    pub answer: ResponseView,
    /// The cache as the request left it.
    pub cache: Map<Seq<char>, Seq<u8>>,
    /// The work that was asked for, in order.
    pub asked: Seq<ActionView>,
    /// Whether every outcome was one that the request waited for.
    pub in_order: bool,
}

/// Whether a background of this width and height can take the title.
pub open spec fn spec_fits(size: (int, int)) -> bool {
    0 <= size.0 <= i32::MAX && TITLE_SCALE <= size.1 <= u32::MAX
}

/// The cache after the work `action` was done on it: a store writes its
/// bytes under its title, every other action leaves the cache alone.
pub open spec fn spec_written(
    cache: Map<Seq<char>, Seq<u8>>,
    action: ActionView,
) -> Map<Seq<char>, Seq<u8>> {
    match action {
        ActionView::Store { title, bytes } => cache.insert(title, bytes),
        _ => cache,
    }
}

/// Serves one request for `title` against `cache`: the lookup decides
/// between the answer from the cache and a render, and the render goes
/// through the transition function with `outcomes` until it answers.
pub open spec fn spec_serve(
    cache: Map<Seq<char>, Seq<u8>>,
    title: Seq<char>,
    outcomes: Outcomes,
) -> Served {
    let begun = spec_start(title);
    let found = spec_lookup(cache, title);
    let looked = spec_step(begun, found);
    let first = seq![ActionView::LookUp { title }];
    if cache.contains_key(title) {
        Served {
            answer: looked.1->Respond_0,
            cache,
            asked: first,
            in_order: spec_expects(begun, found),
        }
    } else {
        match outcomes.background {
            None => {
                let failed = spec_step(looked.0, EventView::LoadFailed);
                Served {
                    answer: failed.1->Respond_0,
                    cache,
                    asked: first.push(looked.1),
                    in_order: spec_expects(begun, found) && spec_expects(
                        looked.0,
                        EventView::LoadFailed,
                    ),
                }
            },
            Some(size) => {
                let loading = EventView::BackgroundLoaded { width: size.0, height: size.1 };
                let loaded = spec_step(looked.0, loading);
                let marked = spec_step(loaded.0, EventView::Drawn);
                let measuring = EventView::Measured(outcomes.text_width);
                let measured = spec_step(marked.0, measuring);
                let titled = spec_step(measured.0, EventView::Drawn);
                let asked = first.push(looked.1).push(loaded.1).push(marked.1).push(
                    measured.1,
                ).push(titled.1);
                let in_order = spec_expects(begun, found) && spec_expects(looked.0, loading)
                    && spec_expects(loaded.0, EventView::Drawn) && spec_expects(
                    marked.0,
                    measuring,
                ) && spec_expects(measured.0, EventView::Drawn);
                match outcomes.encoded {
                    None => {
                        let failed = spec_step(titled.0, EventView::EncodeFailed);
                        Served {
                            answer: failed.1->Respond_0,
                            cache,
                            asked,
                            in_order: in_order && spec_expects(titled.0, EventView::EncodeFailed),
                        }
                    },
                    Some(bytes) => {
                        let encoding = EventView::Encoded(bytes);
                        let encoded = spec_step(titled.0, encoding);
                        let storing = if outcomes.stored {
                            EventView::Stored
                        } else {
                            EventView::StoreFailed
                        };
                        let done = spec_step(encoded.0, storing);
                        Served {
                            answer: done.1->Respond_0,
                            cache: if outcomes.stored {
                                spec_written(cache, encoded.1)
                            } else {
                                cache
                            },
                            asked: asked.push(encoded.1),
                            in_order: in_order && spec_expects(titled.0, encoding)
                                && spec_expects(encoded.0, storing),
                        }
                    },
                }
            },
        }
    }
}

/// The outcomes of a render whose background has the given size, whose
/// title measures `text_width`, whose composited image is `raster` and whose
/// cache write succeeds.
pub open spec fn spec_rendered(size: (int, int), text_width: int, raster: RasterView) -> Outcomes {
    Outcomes {
        background: Some(size),
        text_width,
        encoded: spec_encode_png(raster),
        stored: true,
    }
}

/// Every request keeps to the order of the stages: whatever the cache holds
/// and whatever the outside work comes to, each outcome is the one that the
/// request waits for, provided that a loaded background can take the title.
pub proof fn lemma_serve_keeps_order(
    cache: Map<Seq<char>, Seq<u8>>,
    title: Seq<char>,
    outcomes: Outcomes,
)
    requires
        outcomes.background matches Some(size) ==> spec_fits(size),
    ensures
        spec_serve(cache, title, outcomes).in_order,
{
}

/// A render does not depend on what else the cache holds, nor on when it is
/// made: two requests for a title that neither cache holds, with the same
/// background size, the same measure and the same composited image of
/// one-byte samples, ask for the same work and give the same answer, a
/// success whose body is the PNG stream of that image.
pub proof fn lemma_render_is_deterministic(
    first_cache: Map<Seq<char>, Seq<u8>>,
    second_cache: Map<Seq<char>, Seq<u8>>,
    title: Seq<char>,
    size: (int, int),
    text_width: int,
    raster: RasterView,
)
    requires
        !first_cache.contains_key(title),
        !second_cache.contains_key(title),
        spec_fits(size),
        one_byte_samples(raster.layout),
        raster.width > 0,
        raster.height > 0,
    ensures
        ({
            let outcomes = spec_rendered(size, text_width, raster);
            let first = spec_serve(first_cache, title, outcomes);
            let second = spec_serve(second_cache, title, outcomes);
            &&& first.in_order && second.in_order
            &&& first.answer == second.answer
            &&& first.asked == second.asked
            &&& first.answer == ok_response(
                png_encoding(raster.samples, raster.width, raster.height, raster.layout),
            )
        }),
{
}

/// After a first request for a title that the cache did not hold was
/// rendered, encoded to `bytes` and stored, the cache is the old one with
/// `bytes` under exactly that title. A second request for the title then
/// gets the same answer, asks for nothing but the lookup, whatever the
/// outside work would have come to, and leaves the cache as it found it.
pub proof fn lemma_second_request_repeats_first(
    cache: Map<Seq<char>, Seq<u8>>,
    title: Seq<char>,
    size: (int, int),
    text_width: int,
    bytes: Seq<u8>,
    later: Outcomes,
)
    requires
        !cache.contains_key(title),
        spec_fits(size),
    ensures
        ({
            let outcomes = Outcomes {
                background: Some(size),
                text_width,
                encoded: Some(bytes),
                stored: true,
            };
            let first = spec_serve(cache, title, outcomes);
            let second = spec_serve(first.cache, title, later);
            &&& first.in_order && second.in_order
            &&& first.answer == ok_response(bytes)
            &&& first.cache == cache.insert(title, bytes)
            &&& second.answer == first.answer
            &&& second.cache == first.cache
            &&& second.asked == seq![ActionView::LookUp { title }]
        }),
{
}

/// On every render the watermark is the first thing painted and the title
/// the second, and the watermark is the same whatever the title, its
/// measure and the rest of the outside work: for any two titles that miss
/// the cache, the work asked for is the lookup, the load, the same
/// watermark, the measure of the title and the title centred for it.
pub proof fn lemma_watermark_is_painted_first_and_alike(
    cache: Map<Seq<char>, Seq<u8>>,
    first_title: Seq<char>,
    second_title: Seq<char>,
    size: (int, int),
    first_outcomes: Outcomes,
    second_outcomes: Outcomes,
)
    requires
        !cache.contains_key(first_title),
        !cache.contains_key(second_title),
        spec_fits(size),
        first_outcomes.background == Some(size),
        second_outcomes.background == Some(size),
    ensures
        ({
            let first = spec_serve(cache, first_title, first_outcomes);
            let second = spec_serve(cache, second_title, second_outcomes);
            &&& first.in_order && second.in_order
            &&& first.asked[1] == ActionView::LoadBackground
            &&& first.asked[2] == ActionView::Draw(watermark_command())
            &&& second.asked[2] == first.asked[2]
            &&& first.asked[3] == (ActionView::Measure {
                text: first_title,
                scale: TITLE_SCALE as int,
            })
            &&& first.asked[4] == ActionView::Draw(
                title_command(first_title, size.0, size.1, first_outcomes.text_width),
            )
            &&& second.asked[4] == ActionView::Draw(
                title_command(second_title, size.0, size.1, second_outcomes.text_width),
            )
            &&& first.asked[5] == ActionView::Encode
        }),
{
}

/// Two first-time requests for one title, each of which looks the title up
/// before either stores: both miss, both render, and with the same
/// background size, measure and composited image of one-byte samples both
/// get the answer that a lone request gets. Whichever store lands last, the
/// cache then holds those bytes for the title and is otherwise unchanged.
pub proof fn lemma_two_first_requests_agree(
    cache: Map<Seq<char>, Seq<u8>>,
    title: Seq<char>,
    size: (int, int),
    text_width: int,
    raster: RasterView,
)
    requires
        !cache.contains_key(title),
        spec_fits(size),
        one_byte_samples(raster.layout),
        raster.width > 0,
        raster.height > 0,
    ensures
        ({
            let outcomes = spec_rendered(size, text_width, raster);
            let first = spec_serve(cache, title, outcomes);
            let second = spec_serve(cache, title, outcomes);
            let bytes = png_encoding(raster.samples, raster.width, raster.height, raster.layout);
            let after_both = spec_written(first.cache, second.asked[6]);
            let other_order = spec_written(second.cache, first.asked[6]);
            &&& first.answer == ok_response(bytes)
            &&& second.answer == ok_response(bytes)
            &&& second.asked[6] == (ActionView::Store { title, bytes })
            &&& after_both == cache.insert(title, bytes)
            &&& other_order == after_both
            &&& after_both[title] == bytes
        }),
{
    let bytes = png_encoding(raster.samples, raster.width, raster.height, raster.layout);
    assert(cache.insert(title, bytes).insert(title, bytes) =~= cache.insert(title, bytes));
}

} // verus!
