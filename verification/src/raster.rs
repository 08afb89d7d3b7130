//! Images in memory: decoding, resampling, cutting and encoding.
//!
//! A `Raster` holds an image as rows of RGBA pixels, eight bits a channel.
//! The codecs and the resampling filter are those of the `image` crate, the
//! cut is that of `imageproc`; what is decided here is which of them runs,
//! on what, and what their failures mean.

use vstd::prelude::*;
use crate::error::MediaError;
use crate::geometry::{
    geometry_of, intermediate, law_crop_covers_box, resolve, scaled_size, valid_dimensions,
    FitMode,
};
use crate::text::{lowercase, lowercase_of, same_text};

verus! {

/// The image formats that can be written.
#[derive(Clone, Copy, Debug, PartialEq, Eq, Structural)]
pub enum ImageFormat {
    Jpeg,
    Png,
    WebP,
    Bmp,
    Gif,
}

impl ImageFormat {
    /// The table from a lower-case format name to the format. A name that is
    /// not in the table stands for `Jpeg`, the fallback of the table.
    pub open spec fn of(name: Seq<char>) -> ImageFormat {
        if name == "jpeg"@ || name == "jpg"@ {
            ImageFormat::Jpeg
        } else if name == "png"@ {
            ImageFormat::Png
        } else if name == "webp"@ {
            ImageFormat::WebP
        } else if name == "bmp"@ {
            ImageFormat::Bmp
        } else if name == "gif"@ {
            ImageFormat::Gif
        } else {
            ImageFormat::Jpeg
        }
    }

    /// Looks a lower-case format name up in the table.
    pub fn lookup(name: &str) -> (format: ImageFormat)
        ensures
            format == ImageFormat::of(name@),
    {
        if same_text(name, "jpeg") || same_text(name, "jpg") {
            ImageFormat::Jpeg
        } else if same_text(name, "png") {
            ImageFormat::Png
        } else if same_text(name, "webp") {
            ImageFormat::WebP
        } else if same_text(name, "bmp") {
            ImageFormat::Bmp
        } else if same_text(name, "gif") {
            ImageFormat::Gif
        } else {
            ImageFormat::Jpeg
        }
    }

    /// The format of a name, whatever its case.
    pub fn for_name(name: &str) -> (format: ImageFormat)
        ensures
            format == ImageFormat::of(lowercase_of(name@)),
    {
        let lowered = lowercase(name);
        ImageFormat::lookup(lowered.as_str())
    }
}

/// The quality of a lossy encoder where none is asked for.
pub const DEFAULT_QUALITY: u8 = 85;

/// The quality to encode with: the one asked for, else the default.
pub open spec fn quality_of(asked: Option<u8>) -> u8 {
    match asked {
        Some(q) => q,
        None => DEFAULT_QUALITY,
    }
}

/// The quality to encode with: the one asked for, else the default.
pub fn effective_quality(asked: Option<u8>) -> (quality: u8)
    ensures
        quality == quality_of(asked),
{
    match asked {
        Some(q) => q,
        None => DEFAULT_QUALITY,
    }
}

/// An image as plain values: its size and its bytes, four to a pixel, row by
/// row from the top.
pub struct RasterModel {
    pub width: nat,
    pub height: nat,
    pub pixels: Seq<u8>,
}

impl RasterModel {
    /// Whether there are exactly four bytes for every pixel.
    pub open spec fn well_formed(self) -> bool {
        self.pixels.len() == 4 * self.width * self.height
    }
}

/// An image in memory, as RGBA pixels of eight bits a channel.
#[derive(Clone, Debug, PartialEq, Eq)]
pub struct Raster {
    width: u32,
    height: u32,
    pixels: Vec<u8>,
}

impl View for Raster {
    type V = RasterModel;

    closed spec fn view(&self) -> RasterModel {
        RasterModel {
            width: self.width as nat,
            height: self.height as nat,
            pixels: self.pixels@,
        }
    }
}

/// The product `4 * width * height` of two 32-bit sides fits in 128 bits.
proof fn lemma_area(width: u32, height: u32)
    ensures
        0 <= 4 * width * height <= 0x4_0000_0000_0000_0000,
{
    assert(0 <= 4 * width * height <= 0x4_0000_0000_0000_0000) by (nonlinear_arith)
        requires
            0 <= width <= 0xffff_ffff,
            0 <= height <= 0xffff_ffff,
    ;
}

impl Raster {
    /// The invariant of a raster: four bytes for every pixel.
    pub open spec fn well_formed(&self) -> bool {
        self@.well_formed()
    }

    /// A raster of the given size over the given bytes, where there are
    /// exactly four bytes for every pixel; else nothing.
    pub fn from_rgba(width: u32, height: u32, pixels: Vec<u8>) -> (raster: Option<Raster>)
        ensures
            match raster {
                Some(r) => r.well_formed() && r@ == (RasterModel {
                    width: width as nat,
                    height: height as nat,
                    pixels: pixels@,
                }),
                None => pixels@.len() != 4 * width * height,
            },
    {
        proof {
            lemma_area(width, height);
        }
        let area: u128 = 4 * (width as u128) * (height as u128);
        if pixels.len() as u128 == area {
            Some(Raster { width, height, pixels })
        } else {
            None
        }
    }

    /// The width in pixels.
    pub fn width(&self) -> (width: u32)
        ensures
            width == self@.width,
    {
        self.width
    }

    /// The height in pixels.
    pub fn height(&self) -> (height: u32)
        ensures
            height == self@.height,
    {
        self.height
    }

    /// The bytes of the pixels, row by row.
    pub fn pixels(&self) -> (pixels: &Vec<u8>)
        ensures
            pixels@ == self@.pixels,
    {
        &self.pixels
    }
}

/// The error type of the `image` crate.
#[verifier::external_type_specification]
#[verifier::external_body]
pub struct ExImageError(image::ImageError);

/// The image that `image::load_from_memory` reads from the bytes, turned to
/// RGBA, or nothing where it refuses them.
pub uninterp spec fn decoded(bytes: Seq<u8>) -> Option<RasterModel>;

/// The bytes of `source` resampled to `width` by `height` with the Lanczos
/// filter of `image::imageops::resize`.
pub uninterp spec fn resampled(source: RasterModel, width: nat, height: nat) -> Seq<u8>;

/// The JPEG file that `image` writes for an image at a quality, or nothing
/// where it refuses to.
pub uninterp spec fn jpeg_of(image: RasterModel, quality: u8) -> Option<Seq<u8>>;

/// The file that `image` writes for an image in a format, or nothing where
/// it refuses to.
pub uninterp spec fn file_of(image: RasterModel, format: ImageFormat) -> Option<Seq<u8>>;

/// Whether the buffers of a resampling of an image `source_width` wide to
/// `width` by `height` can be allocated: sixteen bytes a pixel for the
/// intermediate buffer of the filter, which is as wide as the source and as
/// high as the result, and four bytes a pixel for the result.
pub open spec fn resample_fits(source_width: int, width: int, height: int) -> bool {
    &&& 0 <= width <= u32::MAX
    &&& 0 <= height <= u32::MAX
    &&& 16 * source_width * height <= isize::MAX
    &&& 4 * width * height <= isize::MAX
}

/// The rectangle `width` by `height` at (`x`, `y`) of an image: the pixel at
/// (`i`, `j`) of the cut is the pixel at (`x + i`, `y + j`) of the image.
pub open spec fn cropped(source: RasterModel, x: nat, y: nat, width: nat, height: nat) -> RasterModel {
    RasterModel {
        width,
        height,
        pixels: Seq::new(
            4 * width * height,
            |k: int|
                source.pixels[4 * ((y + (k / 4) / (width as int)) * source.width + x + (k / 4) % (
                width as int)) + k % 4],
        ),
    }
}

/// Calls `image::load_from_memory` and `DynamicImage::into_rgba8`, and hands
/// out size and bytes. Trusted: whether the bytes are accepted, and the image
/// read from them, depend on the bytes alone.
#[verifier::external_body]
fn decode_rgba(bytes: &[u8]) -> (result: Result<(u32, u32, Vec<u8>), image::ImageError>)
    ensures
        match result {
            Ok((width, height, pixels)) => decoded(bytes@) == Some(
                RasterModel { width: width as nat, height: height as nat, pixels: pixels@ },
            ),
            Err(_) => decoded(bytes@) is None,
        },
{
    let image = image::load_from_memory(bytes)?.into_rgba8();
    Ok((image.width(), image.height(), image.into_raw()))
}

/// Calls `image::imageops::resize` with the Lanczos filter. Trusted: the
/// result depends on the image and the size alone, and it has four bytes for
/// every pixel of the size asked for. The sizes that `requires` leaves out
/// are those whose buffers `ImageBuffer::new` refuses with a panic.
#[verifier::external_body]
fn resample(source: &Raster, width: u32, height: u32) -> (pixels: Vec<u8>)
    requires
        source.well_formed(),
        source@.width > 0,
        source@.height > 0,
        resample_fits(source@.width as int, width as int, height as int),
    ensures
        pixels@ == resampled(source@, width as nat, height as nat),
        pixels@.len() == 4 * width * height,
{
    let image = image::RgbaImage::from_raw(source.width, source.height, source.pixels.clone());
    let filter = image::imageops::FilterType::Lanczos3;
    image::imageops::resize(&image.unwrap(), width, height, filter).into_raw()
}

/// Calls `imageproc::compose::crop`. Trusted: the result is the rectangle
/// asked for, pixel by pixel. The rectangles that `requires` leaves out are
/// those that reach beyond the image, on which `crop` panics.
#[verifier::external_body]
fn crop(source: &Raster, x: u32, y: u32, width: u32, height: u32) -> (pixels: Vec<u8>)
    requires
        source.well_formed(),
        x + width <= source@.width,
        y + height <= source@.height,
    ensures
        pixels@ == cropped(source@, x as nat, y as nat, width as nat, height as nat).pixels,
{
    let image = image::RgbaImage::from_raw(source.width, source.height, source.pixels.clone());
    let rect = image::math::Rect { x, y, width, height };
    imageproc::compose::crop(&image.unwrap(), rect).into_raw()
}

/// Calls `JpegEncoder::new_with_quality` and `DynamicImage::write_with_encoder`
/// of `image`. Trusted: whether the image is written, and the file, depend on
/// the image and the quality alone.
#[verifier::external_body]
fn write_jpeg(source: &Raster, quality: u8) -> (result: Result<Vec<u8>, image::ImageError>)
    requires
        source.well_formed(),
    ensures
        match result {
            Ok(file) => jpeg_of(source@, quality) == Some(file@),
            Err(_) => jpeg_of(source@, quality) is None,
        },
{
    let image = image::RgbaImage::from_raw(source.width, source.height, source.pixels.clone());
    let mut file: Vec<u8> = Vec::new();
    let encoder = image::codecs::jpeg::JpegEncoder::new_with_quality(&mut file, quality);
    image::DynamicImage::ImageRgba8(image.unwrap()).write_with_encoder(encoder)?;
    Ok(file)
}

/// Calls `DynamicImage::write_to` of `image` with the format's counterpart
/// there. Trusted: whether the image is written, and the file, depend on the
/// image and the format alone.
#[verifier::external_body]
fn write_file(source: &Raster, format: ImageFormat) -> (result: Result<Vec<u8>, image::ImageError>)
    requires
        source.well_formed(),
    ensures
        match result {
            Ok(file) => file_of(source@, format) == Some(file@),
            Err(_) => file_of(source@, format) is None,
        },
{
    let image = image::RgbaImage::from_raw(source.width, source.height, source.pixels.clone());
    let target = match format {
        ImageFormat::Jpeg => image::ImageFormat::Jpeg,
        ImageFormat::Png => image::ImageFormat::Png,
        ImageFormat::WebP => image::ImageFormat::WebP,
        ImageFormat::Bmp => image::ImageFormat::Bmp,
        ImageFormat::Gif => image::ImageFormat::Gif,
    };
    let mut file = std::io::Cursor::new(Vec::new());
    image::DynamicImage::ImageRgba8(image.unwrap()).write_to(&mut file, target)?;
    Ok(file.into_inner())
}

/// The image that bytes decode to, where they decode to one with four bytes
/// for every pixel.
pub open spec fn image_of(bytes: Seq<u8>) -> Option<RasterModel> {
    match decoded(bytes) {
        Some(image) => if image.well_formed() {
            Some(image)
        } else {
            None
        },
        None => None,
    }
}

/// Decodes an image.
///
/// Fails with `DecodeError` exactly when the bytes are no image.
pub fn decode(bytes: &[u8]) -> (result: Result<Raster, MediaError>)
    ensures
        match image_of(bytes@) {
            Some(image) => result matches Ok(raster) && raster@ == image && raster.well_formed(),
            None => result matches Err(e) && e == MediaError::DecodeError,
        },
{
    match decode_rgba(bytes) {
        Ok((width, height, pixels)) => match Raster::from_rgba(width, height, pixels) {
            Some(raster) => Ok(raster),
            None => Err(MediaError::DecodeError),
        },
        Err(_) => Err(MediaError::DecodeError),
    }
}

/// The file of an image in a format: the JPEG encoder takes the quality, the
/// others have none. An image without pixels has no file.
pub open spec fn encoding_of(image: RasterModel, format: ImageFormat, quality: u8) -> Option<
    Seq<u8>,
> {
    if image.width == 0 || image.height == 0 {
        None
    } else if format == ImageFormat::Jpeg {
        jpeg_of(image, quality)
    } else {
        file_of(image, format)
    }
}

/// Encodes an image.
///
/// Fails with `EncodeError` exactly when the image has no file in the format.
pub fn encode(source: &Raster, format: ImageFormat, quality: u8) -> (result: Result<
    Vec<u8>,
    MediaError,
>)
    requires
        source.well_formed(),
    ensures
        match encoding_of(source@, format, quality) {
            Some(file) => result matches Ok(bytes) && bytes@ == file,
            None => result matches Err(e) && e == MediaError::EncodeError,
        },
{
    if source.width == 0 || source.height == 0 {
        return Err(MediaError::EncodeError);
    }
    let written = match format {
        ImageFormat::Jpeg => write_jpeg(source, quality),
        _ => write_file(source, format),
    };
    match written {
        Ok(file) => Ok(file),
        Err(_) => Err(MediaError::EncodeError),
    }
}

/// Whether the buffers of a resize can be allocated.
pub open spec fn resize_fits(sw: int, sh: int, tw: int, th: int, mode: FitMode) -> bool {
    let (iw, ih) = intermediate(sw, sh, tw, th, mode);
    resample_fits(sw, iw, ih)
}

/// The image that a resize gives: the source resampled to the intermediate
/// size and, under `Crop`, cut to the target box at the crop origin.
pub open spec fn resized(source: RasterModel, tw: nat, th: nat, mode: FitMode) -> RasterModel {
    let sw = source.width as int;
    let sh = source.height as int;
    let (iw, ih) = intermediate(sw, sh, tw as int, th as int, mode);
    let scaled = RasterModel {
        width: iw as nat,
        height: ih as nat,
        pixels: resampled(source, iw as nat, ih as nat),
    };
    match geometry_of(sw, sh, tw as int, th as int, mode).crop_origin {
        Some((x, y)) => cropped(scaled, x as nat, y as nat, tw, th),
        None => scaled,
    }
}

/// Whether the buffers of a resize can be allocated. A request with a zero
/// dimension does not fit.
pub fn can_resize(sw: u32, sh: u32, tw: u32, th: u32, mode: FitMode) -> (fits: bool)
    ensures
        fits == (valid_dimensions(sw as int, sh as int, tw as int, th as int) && resize_fits(
            sw as int,
            sh as int,
            tw as int,
            th as int,
            mode,
        )),
{
    match scaled_size(sw, sh, tw, th, mode) {
        Ok((iw, ih)) => {
            if iw > 0xffff_ffff || ih > 0xffff_ffff {
                return false;
            }
            assert(16 * sw * ih <= 16 * 0xffff_ffff * 0xffff_ffff && 4 * iw * ih <= 4
                * 0xffff_ffff * 0xffff_ffff && 16 * sw * ih >= 0 && 4 * iw * ih >= 0)
                by (nonlinear_arith)
                requires
                    0 <= sw <= 0xffff_ffff,
                    0 <= iw <= 0xffff_ffff,
                    0 <= ih <= 0xffff_ffff,
            ;
            let limit: u128 = isize::MAX as u128;
            16 * (sw as u128) * (ih as u128) <= limit && 4 * (iw as u128) * (ih as u128) <= limit
        },
        Err(_) => false,
    }
}

/// Resizes an image to a target box under a fit mode. Both sides of the
/// result are positive.
///
/// Fails with `InvalidDimensions` exactly when a side of the source or of the
/// box is zero. The sizes that `requires` leaves out are those whose buffers
/// the machine cannot allocate; `can_resize` tests for them.
pub fn resize(source: &Raster, width: u32, height: u32, mode: FitMode) -> (result: Result<
    Raster,
    MediaError,
>)
    requires
        source.well_formed(),
        valid_dimensions(source@.width as int, source@.height as int, width as int, height as int)
            ==> resize_fits(
            source@.width as int,
            source@.height as int,
            width as int,
            height as int,
            mode,
        ),
    ensures
        match result {
            Ok(raster) => valid_dimensions(
                source@.width as int,
                source@.height as int,
                width as int,
                height as int,
            ) && raster.well_formed() && raster@ == resized(
                source@,
                width as nat,
                height as nat,
                mode,
            ),
            Err(e) => !valid_dimensions(
                source@.width as int,
                source@.height as int,
                width as int,
                height as int,
            ) && e == MediaError::InvalidDimensions,
        },
        result matches Ok(raster) ==> raster@.width >= 1 && raster@.height >= 1,
        result matches Ok(raster) ==> mode != FitMode::Fit ==> raster@.width == width
            && raster@.height == height,
{
    let geometry = match resolve(source.width, source.height, width, height, mode) {
        Ok(g) => g,
        Err(e) => {
            return Err(e);
        },
    };
    let (iw, ih) = match scaled_size(source.width, source.height, width, height, mode) {
        Ok(size) => size,
        Err(e) => {
            return Err(e);
        },
    };
    proof {
        law_crop_covers_box(
            source.width as int,
            source.height as int,
            width as int,
            height as int,
        );
        lemma_area(width, height);
    }
    let pixels = resample(source, iw as u32, ih as u32);
    let scaled = Raster { width: iw as u32, height: ih as u32, pixels };
    match geometry.crop_origin {
        Some((x, y)) => {
            let cut = crop(&scaled, x as u32, y as u32, width, height);
            Ok(Raster { width, height, pixels: cut })
        },
        None => Ok(scaled),
    }
}

} // verus!
