use vstd::prelude::*;

use crate::convert::{chosen_format, resolve_format, target_for, target_of, Target};
use crate::error::ConvertError;
use crate::path::{extension, extension_of};

verus! {

#[verifier::external_type_specification]
#[verifier::external_body]
pub struct ExDynamicImage(image::DynamicImage);

/// The width in pixels of an image.
pub uninterp spec fn width_of(image: image::DynamicImage) -> u32;

/// The height in pixels of an image.
pub uninterp spec fn height_of(image: image::DynamicImage) -> u32;

/// Relies on `image::DynamicImage::width`, which reads the image's width.
pub assume_specification[ image::DynamicImage::width ](image: &image::DynamicImage) -> (r: u32)
    ensures
        r == width_of(*image),
;

/// Relies on `image::DynamicImage::height`, which reads the image's height.
pub assume_specification[ image::DynamicImage::height ](image: &image::DynamicImage) -> (r: u32)
    ensures
        r == height_of(*image),
;

/// The RGBA image of the given size whose pixels are the bytes, four per
/// pixel, row by row.
pub uninterp spec fn rgba_of(width: u32, height: u32, pixels: Seq<u8>) -> image::DynamicImage;

/// Relies on `image::ImageBuffer::from_raw`, which accepts a buffer that
/// holds at least four bytes for each of the `width * height` RGBA pixels,
/// refuses a shorter one, and keeps the given size; `DynamicImage::ImageRgba8`
/// wraps the result.
#[verifier::external_body]
fn rgba_image(width: u32, height: u32, pixels: Vec<u8>) -> (r: Option<image::DynamicImage>)
    ensures
        r is Some <==> 4 * width * height <= pixels@.len(),
        r matches Some(i) ==> i == rgba_of(width, height, pixels@) && width_of(i) == width
            && height_of(i) == height,
{
    image::RgbaImage::from_raw(width, height, pixels).map(image::DynamicImage::ImageRgba8)
}

/// What the raster codec decodes from the bytes read as the given format:
/// the image, or the codec's message.
pub uninterp spec fn decoded_as(bytes: Seq<u8>, format: image::ImageFormat) -> Result<
    image::DynamicImage,
    Seq<char>,
>;

/// What the raster codec decodes from the bytes, guessing the format from
/// them: the image, or the codec's message.
pub uninterp spec fn decoded(bytes: Seq<u8>) -> Result<image::DynamicImage, Seq<char>>;

/// The bytes of a texture file with uncompressed 8-bit RGBA pixels holding
/// the image, or the texture codec's message.
pub uninterp spec fn vtf_of(image: image::DynamicImage) -> Result<Seq<u8>, Seq<char>>;

/// The image encoded in a raster format, or the raster codec's message.
pub uninterp spec fn raster_of(image: image::DynamicImage, format: image::ImageFormat) -> Result<
    Seq<u8>,
    Seq<char>,
>;

/// Whether a decode result carries the named outcome.
pub open spec fn same_image(r: Result<image::DynamicImage, String>, s: Result<
    image::DynamicImage,
    Seq<char>,
>) -> bool {
    match (r, s) {
        (Ok(i), Ok(j)) => i == j,
        (Err(e), Err(m)) => e@ == m,
        _ => false,
    }
}

/// Whether an encode result carries the named outcome.
pub open spec fn same_bytes(r: Result<Vec<u8>, String>, s: Result<Seq<u8>, Seq<char>>) -> bool {
    match (r, s) {
        (Ok(v), Ok(b)) => v@ == b,
        (Err(e), Err(m)) => e@ == m,
        _ => false,
    }
}

/// The raster format that the raster codec reads for a file extension.
pub uninterp spec fn format_of_extension(ext: Seq<char>) -> Option<image::ImageFormat>;

/// Relies on `image::ImageFormat::from_extension`, a fixed table from file
/// extensions, compared without regard to ASCII case, to raster formats.
#[verifier::external_body]
fn format_for_extension(ext: &str) -> (r: Option<image::ImageFormat>)
    ensures
        r == format_of_extension(ext@),
{
    image::ImageFormat::from_extension(ext)
}

/// Relies on `image::load_from_memory_with_format`, which decodes the bytes
/// as the given raster format.
#[verifier::external_body]
fn decode_image_as(bytes: &[u8], format: image::ImageFormat) -> (r: Result<
    image::DynamicImage,
    String,
>)
    ensures
        same_image(r, decoded_as(bytes@, format)),
{
    image::load_from_memory_with_format(bytes, format).map_err(|e| e.to_string())
}

/// Relies on `image::load_from_memory`, which guesses the format from the
/// bytes and decodes them.
#[verifier::external_body]
fn decode_image(bytes: &[u8]) -> (r: Result<image::DynamicImage, String>)
    ensures
        same_image(r, decoded(bytes@)),
{
    image::load_from_memory(bytes).map_err(|e| e.to_string())
}

/// The raster format an input path is decoded as: the one its extension
/// names, where the raster codec knows it.
pub open spec fn decode_format_of(path: Seq<char>) -> Option<image::ImageFormat> {
    match extension_of(path) {
        Some(ext) => format_of_extension(ext),
        None => None,
    }
}

/// Finds the raster format for decoding the file at `path`.
pub fn decode_format(path: &str) -> (r: Option<image::ImageFormat>)
    ensures
        r == decode_format_of(path@),
{
    match extension(path) {
        Some(ext) => format_for_extension(ext.as_str()),
        None => None,
    }
}

/// Relies on `vtf::vtf::VTF::create`, which writes the image as a texture
/// file with uncompressed 8-bit RGBA pixels. It computes the pixel data's
/// size in `u32`, so the image must be small enough for that.
#[verifier::external_body]
fn create_vtf(image: &image::DynamicImage) -> (r: Result<Vec<u8>, String>)
    requires
        fits_vtf(*image),
    ensures
        same_bytes(r, vtf_of(*image)),
{
    vtf::vtf::VTF::create(image.clone(), vtf::ImageFormat::Rgba8888).map_err(|e| e.to_string())
}

/// Relies on `image::DynamicImage::write_to`, which encodes the image in the
/// given raster format, here into memory.
#[verifier::external_body]
fn encode_raster(image: &image::DynamicImage, format: image::ImageFormat) -> (r: Result<
    Vec<u8>,
    String,
>)
    ensures
        same_bytes(r, raster_of(*image, format)),
{
    let mut out = std::io::Cursor::new(Vec::new());
    match image.write_to(&mut out, format) {
        Ok(()) => Ok(out.into_inner()),
        Err(e) => Err(e.to_string()),
    }
}

/// Whether the image's RGBA pixel data, four bytes per pixel, can be
/// measured in `u32`, as the texture codec does.
pub open spec fn fits_vtf(image: image::DynamicImage) -> bool {
    4 * width_of(image) * height_of(image) <= u32::MAX
}

/// Whether a conversion result carries the named decode outcome.
pub open spec fn decodes_to(r: Result<VtfWrapper, ConvertError>, s: Result<
    image::DynamicImage,
    Seq<char>,
>) -> bool {
    match (r, s) {
        (Ok(w), Ok(i)) => w.image == i,
        (Err(ConvertError::Decode(e)), Err(m)) => e@ == m,
        _ => false,
    }
}

/// Whether a conversion result carries the named encode outcome.
pub open spec fn encodes_to(r: Result<Vec<u8>, ConvertError>, s: Result<Seq<u8>, Seq<char>>) -> bool {
    match (r, s) {
        (Ok(v), Ok(b)) => v@ == b,
        (Err(ConvertError::Encode(e)), Err(m)) => e@ == m,
        _ => false,
    }
}

/// What encoding the image for the target gives: a texture file where the
/// image fits one, else an encode error; the raster codec's output for a
/// raster format.
pub open spec fn encodes_for(r: Result<Vec<u8>, ConvertError>, image: image::DynamicImage, target: Target) -> bool {
    match target {
        Target::Vtf => if fits_vtf(image) {
            encodes_to(r, vtf_of(image))
        } else {
            r matches Err(ConvertError::Encode(_))
        },
        Target::Raster(f) => encodes_to(r, raster_of(image, f)),
    }
}

/// A decoded image, with conversion to and from Valve texture files.
pub struct VtfWrapper {
    pub image: image::DynamicImage,
}

impl VtfWrapper {
    /// Wraps a decoded image.
    pub fn new(image: image::DynamicImage) -> (r: Self)
        ensures
            r.image == image,
    {
        VtfWrapper { image }
    }

    /// Builds the image from the RGBA pixels that a texture file decodes
    /// to, four bytes per pixel, row by row. The pixel data must be exactly
    /// as long as the dimensions say.
    pub fn from_rgba(width: u32, height: u32, pixels: Vec<u8>) -> (r: Result<Self, ConvertError>)
        ensures
            r is Ok <==> pixels@.len() == 4 * width * height,
            r is Err ==> r matches Err(ConvertError::ImageBuffer),
            r matches Ok(w) ==> w.image == rgba_of(width, height, pixels@) && width_of(w.image)
                == width && height_of(w.image) == height,
    {
        let w = width as u128;
        let h = height as u128;
        assert(w * h <= 0xffff_ffff_ffff_ffff) by (nonlinear_arith)
            requires
                w <= 0xffff_ffff,
                h <= 0xffff_ffff,
        ;
        assert(4 * (w * h) == 4 * width * height) by (nonlinear_arith)
            requires
                w == width,
                h == height,
        ;
        if pixels.len() as u128 != 4 * (w * h) {
            return Err(ConvertError::ImageBuffer);
        }
        match rgba_image(width, height, pixels) {
            Some(image) => Ok(VtfWrapper { image }),
            None => Err(ConvertError::ImageBuffer),
        }
    }

    /// Decodes the raster image read from the file at `path`: as the format
    /// that the path's extension names, or, where it names none, as the
    /// format that the bytes themselves show.
    pub fn from_image(path: &str, bytes: &[u8]) -> (r: Result<Self, ConvertError>)
        ensures
            match decode_format_of(path@) {
                Some(f) => decodes_to(r, decoded_as(bytes@, f)),
                None => decodes_to(r, decoded(bytes@)),
            },
    {
        let decoded = match decode_format(path) {
            Some(format) => decode_image_as(bytes, format),
            None => decode_image(bytes),
        };
        match decoded {
            Ok(image) => Ok(VtfWrapper { image }),
            Err(e) => Err(ConvertError::Decode(e)),
        }
    }

    /// The image as a texture file with uncompressed 8-bit RGBA pixels. An
    /// image whose pixel data is too large to measure in `u32` is refused.
    pub fn to_vtf(&self) -> (r: Result<Vec<u8>, ConvertError>)
        ensures
            encodes_for(r, self.image, Target::Vtf),
    {
        let w = self.image.width() as u64;
        let h = self.image.height() as u64;
        assert(w * h <= 0xffff_ffff_ffff_ffff) by (nonlinear_arith)
            requires
                w <= 0xffff_ffff,
                h <= 0xffff_ffff,
        ;
        assert(4 * (w * h) == 4 * width_of(self.image) * height_of(self.image)) by (nonlinear_arith)
            requires
                w == width_of(self.image),
                h == height_of(self.image),
        ;
        if w * h > 0x3fff_ffff {
            return Err(ConvertError::Encode("image too large for a texture file".to_string()));
        }
        match create_vtf(&self.image) {
            Ok(bytes) => Ok(bytes),
            Err(e) => Err(ConvertError::Encode(e)),
        }
    }

    /// The image encoded for the target.
    pub fn encode(&self, target: Target) -> (r: Result<Vec<u8>, ConvertError>)
        ensures
            encodes_for(r, self.image, target),
    {
        match target {
            Target::Vtf => self.to_vtf(),
            Target::Raster(format) => match encode_raster(&self.image, format) {
                Ok(bytes) => Ok(bytes),
                Err(e) => Err(ConvertError::Encode(e)),
            },
        }
    }

    /// The bytes of the output file for `output`: the format is `format`
    /// where given, else the output's extension. Nothing is encoded where no
    /// format can be found or the format is unknown.
    pub fn convert_image(&self, output: &str, format: &Option<String>) -> (r: Result<
        Vec<u8>,
        ConvertError,
    >)
        ensures
            match chosen_format(*format, output@) {
                None => r == Err::<Vec<u8>, ConvertError>(ConvertError::NoExtension),
                Some(name) => match target_of(name) {
                    None => r matches Err(ConvertError::UnsupportedFormat(n)) && n@ == name,
                    Some(t) => encodes_for(r, self.image, t),
                },
            },
            *format is None && extension_of(output@) is None ==> r == Err::<Vec<u8>, ConvertError>(
                ConvertError::NoExtension,
            ),
            forall|f: String|
                *format == Some(f) && target_of(f@) is None ==> (r matches Err(
                    ConvertError::UnsupportedFormat(n),
                ) && n@ == f@),
    {
        let name = match resolve_format(format, output) {
            Ok(name) => name,
            Err(e) => return Err(e),
        };
        let target = match target_for(name.as_str()) {
            Ok(t) => t,
            Err(e) => return Err(e),
        };
        self.encode(target)
    }
}

} // verus!
