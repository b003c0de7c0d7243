//! PNG encoding of the composited image, held as plain samples.

use vstd::prelude::*;
use crate::pipeline::{Event, EventView, RenderError};

verus! {

/// How the samples of one pixel are laid out.
#[derive(Clone, Copy, Debug, PartialEq, Eq, Structural)]
pub enum SampleLayout {
    L8,
    La8,
    Rgb8,
    Rgba8,
    L16,
    La16,
    Rgb16,
    Rgba16,
    Rgb32F,
    Rgba32F,
}

/// The number of bytes that one pixel takes.
pub open spec fn spec_bytes_per_pixel(layout: SampleLayout) -> int {
    match layout {
        SampleLayout::L8 => 1,
        SampleLayout::La8 => 2,
        SampleLayout::Rgb8 => 3,
        SampleLayout::Rgba8 => 4,
        SampleLayout::L16 => 2,
        SampleLayout::La16 => 4,
        SampleLayout::Rgb16 => 6,
        SampleLayout::Rgba16 => 8,
        SampleLayout::Rgb32F => 12,
        SampleLayout::Rgba32F => 16,
    }
}

/// Whether every sample is one byte, so that the bytes mean the same on
/// every machine.
pub open spec fn one_byte_samples(layout: SampleLayout) -> bool {
    layout == SampleLayout::L8 || layout == SampleLayout::La8 || layout == SampleLayout::Rgb8
        || layout == SampleLayout::Rgba8
}

/// Whether the samples are floating-point values, which PNG cannot hold.
pub open spec fn float_samples(layout: SampleLayout) -> bool {
    layout == SampleLayout::Rgb32F || layout == SampleLayout::Rgba32F
}

/// What the PNG encoder asks of an image before it starts: a width and a
/// height above zero, and samples that are integers.
pub open spec fn png_takes(width: int, height: int, layout: SampleLayout) -> bool {
    width > 0 && height > 0 && !float_samples(layout)
}

/// The number of bytes that an image of the given size and layout takes.
pub open spec fn spec_sample_bytes(width: int, height: int, layout: SampleLayout) -> int {
    width * spec_bytes_per_pixel(layout) * height
}

/// Model of a [`Raster`].
pub struct RasterView {
    pub width: int,
    pub height: int,
    pub layout: SampleLayout,
    pub samples: Seq<u8>,
}

/// A pixel buffer: its size, its layout and exactly the bytes that the two
/// call for, row by row.
#[derive(Debug)]
pub struct Raster {
    width: u32,
    height: u32,
    layout: SampleLayout,
    samples: Vec<u8>,
}

impl View for Raster {
    type V = RasterView;

    closed spec fn view(&self) -> RasterView {
        RasterView {
            width: self.width as int,
            height: self.height as int,
            layout: self.layout,
            samples: self.samples@,
        }
    }
}

/// `image::ImageError`, the encoder's error: carried through as an opaque
/// value, of which nothing is claimed.
#[verifier::external_type_specification]
#[verifier::external_body]
pub struct ExImageError(image::ImageError);

/// The PNG stream that the encoder produces for an image of the given
/// samples, size and layout, where it produces one.
pub uninterp spec fn png_encoding(
    samples: Seq<u8>,
    width: int,
    height: int,
    layout: SampleLayout,
) -> Seq<u8>;

/// Calls `write_image` of `image::codecs::png::PngEncoder`, made by
/// `PngEncoder::new` over an empty buffer. The encoder wants exactly the
/// bytes that size and layout call for. It refuses a width or a height of
/// zero and floating-point samples. One-byte samples it refuses for no other
/// reason, since all it writes goes to memory; their PNG stream depends on
/// the four arguments only. Wider samples are first copied in the machine's
/// byte order, which can fail for want of memory, so of them only the
/// refusals are claimed.
#[verifier::external_body]
fn write_png(samples: &Vec<u8>, width: u32, height: u32, layout: SampleLayout) -> (written: Result<
    Vec<u8>,
    image::ImageError,
>)
    requires
        samples@.len() == spec_sample_bytes(width as int, height as int, layout),
    ensures
        written.is_ok() ==> png_takes(width as int, height as int, layout),
        one_byte_samples(layout) ==> written.is_ok() == png_takes(
            width as int,
            height as int,
            layout,
        ),
        written matches Ok(bytes) ==> one_byte_samples(layout) ==> bytes@ == png_encoding(
            samples@,
            width as int,
            height as int,
            layout,
        ),
{
    let color = match layout {
        SampleLayout::L8 => image::ColorType::L8,
        SampleLayout::La8 => image::ColorType::La8,
        SampleLayout::Rgb8 => image::ColorType::Rgb8,
        SampleLayout::Rgba8 => image::ColorType::Rgba8,
        SampleLayout::L16 => image::ColorType::L16,
        SampleLayout::La16 => image::ColorType::La16,
        SampleLayout::Rgb16 => image::ColorType::Rgb16,
        SampleLayout::Rgba16 => image::ColorType::Rgba16,
        SampleLayout::Rgb32F => image::ColorType::Rgb32F,
        SampleLayout::Rgba32F => image::ColorType::Rgba32F,
    };
    let mut out: Vec<u8> = Vec::new();
    let encoder = image::codecs::png::PngEncoder::new(std::io::Cursor::new(&mut out));
    image::ImageEncoder::write_image(encoder, samples, width, height, color.into()).map(|_| out)
}

/// The number of bytes that one pixel takes.
pub fn bytes_per_pixel(layout: SampleLayout) -> (bytes: u8)
    ensures
        bytes as int == spec_bytes_per_pixel(layout),
{
    match layout {
        SampleLayout::L8 => 1,
        SampleLayout::La8 => 2,
        SampleLayout::Rgb8 => 3,
        SampleLayout::Rgba8 => 4,
        SampleLayout::L16 => 2,
        SampleLayout::La16 => 4,
        SampleLayout::Rgb16 => 6,
        SampleLayout::Rgba16 => 8,
        SampleLayout::Rgb32F => 12,
        SampleLayout::Rgba32F => 16,
    }
}

impl Raster {
    /// The buffer holds exactly the bytes that its size and layout call for.
    #[verifier::type_invariant]
    closed spec fn exact(self) -> bool {
        self.samples@.len() == spec_sample_bytes(
            self.width as int,
            self.height as int,
            self.layout,
        )
    }

    /// Makes a raster of `samples`, or refuses them where their number is
    /// not what `width`, `height` and `layout` call for.
    pub fn new(width: u32, height: u32, layout: SampleLayout, samples: Vec<u8>) -> (raster: Option<
        Raster,
    >)
        ensures
            raster is Some <==> samples@.len() == spec_sample_bytes(
                width as int,
                height as int,
                layout,
            ),
            raster matches Some(made) ==> made@ == (RasterView {
                width: width as int,
                height: height as int,
                layout,
                samples: samples@,
            }),
    {
        let per_pixel: u128 = bytes_per_pixel(layout) as u128;
        assert(width as u128 * per_pixel <= 0x10_0000_0000u128) by (nonlinear_arith)
            requires
                width <= 0xffff_ffffu32,
                per_pixel <= 16,
        ;
        let row: u128 = width as u128 * per_pixel;
        assert(row * (height as u128) <= 0x10_0000_0000u128 * 0x1_0000_0000u128) by (nonlinear_arith)
            requires
                row <= 0x10_0000_0000u128,
                height <= 0xffff_ffffu32,
        ;
        let wanted: u128 = row * (height as u128);
        if samples.len() as u128 == wanted {
            Some(Raster { width, height, layout, samples })
        } else {
            None
        }
    }

    /// Width in pixels.
    pub fn width(&self) -> (width: u32)
        ensures
            width as int == self@.width,
    {
        self.width
    }

    /// Height in pixels.
    pub fn height(&self) -> (height: u32)
        ensures
            height as int == self@.height,
    {
        self.height
    }

    /// The samples, row by row.
    pub fn samples(&self) -> (samples: &Vec<u8>)
        ensures
            samples@ == self@.samples,
    {
        &self.samples
    }

    /// The layout of the samples.
    pub fn layout(&self) -> (layout: SampleLayout)
        ensures
            layout == self@.layout,
    {
        self.layout
    }
}

/// What an encoding amounts to: the bytes where the encoder succeeded, an
/// encoding failure where it did not.
pub fn png_outcome(written: Result<Vec<u8>, image::ImageError>) -> (encoded: Result<
    Vec<u8>,
    RenderError,
>)
    ensures
        written matches Ok(bytes) ==> encoded is Ok && encoded->Ok_0@ == bytes@,
        written is Err ==> encoded == Err::<Vec<u8>, RenderError>(RenderError::Encode),
{
    match written {
        Ok(bytes) => Ok(bytes),
        Err(_) => Err(RenderError::Encode),
    }
}

/// What encoding `raster` gives where its samples are one byte each: the
/// PNG stream of exactly these samples, size and layout, or nothing where
/// the image is empty.
pub open spec fn spec_encode_png(raster: RasterView) -> Option<Seq<u8>> {
    if png_takes(raster.width, raster.height, raster.layout) {
        Some(png_encoding(raster.samples, raster.width, raster.height, raster.layout))
    } else {
        None
    }
}

/// Serialises `raster` as a PNG into memory.
///
/// An image of one-byte samples is encoded exactly when it is not empty, and
/// the bytes are then the PNG stream of its samples, size and layout: equal
/// rasters give byte-identical streams. An empty image and one of
/// floating-point samples are never encoded. Every failure is reported as
/// an encoding failure.
pub fn encode_png(raster: &Raster) -> (encoded: Result<Vec<u8>, RenderError>)
    ensures
        encoded is Ok ==> png_takes(raster@.width, raster@.height, raster@.layout),
        encoded is Err ==> encoded == Err::<Vec<u8>, RenderError>(RenderError::Encode),
        one_byte_samples(raster@.layout) ==> (match encoded {
            Ok(bytes) => spec_encode_png(raster@) == Some(bytes@),
            Err(_) => spec_encode_png(raster@) is None,
        }),
{
    proof {
        use_type_invariant(raster);
    }
    let written = write_png(&raster.samples, raster.width, raster.height, raster.layout);
    png_outcome(written)
}

/// The event that reports an encoding to the pipeline.
pub fn encoding_event(encoded: Result<Vec<u8>, RenderError>) -> (event: Event)
    ensures
        event@ == (match encoded {
            Ok(bytes) => EventView::Encoded(bytes@),
            Err(_) => EventView::EncodeFailed,
        }),
{
    match encoded {
        Ok(bytes) => Event::Encoded(bytes),
        Err(_) => Event::EncodeFailed,
    }
}

} // verus!
