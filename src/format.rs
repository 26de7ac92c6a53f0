use vstd::prelude::*;

use crate::error::ConvertError;

verus! {

#[verifier::external_type_specification]
pub struct ExImageFormat(image::ImageFormat);

/// The lower-case form of a string, as `str::to_lowercase` gives it.
pub uninterp spec fn lower_of(s: Seq<char>) -> Seq<char>;

/// Relies on `str::to_lowercase`: the result depends on the characters alone,
/// and an empty string stays empty.
#[verifier::external_body]
fn lowercase(s: &str) -> (r: String)
    ensures
        r@ == lower_of(s@),
        s@.len() == 0 ==> r@.len() == 0,
{
    s.to_lowercase()
}

/// The raster format that a lower-case format name stands for.
pub open spec fn raster_format_of(name: Seq<char>) -> Option<image::ImageFormat> {
    if name == "png"@ {
        Some(image::ImageFormat::Png)
    } else if name == "jpg"@ {
        Some(image::ImageFormat::Jpeg)
    } else if name == "webp"@ {
        Some(image::ImageFormat::WebP)
    } else if name == "avif"@ {
        Some(image::ImageFormat::Avif)
    } else if name == "bmp"@ {
        Some(image::ImageFormat::Bmp)
    } else if name == "ico"@ {
        Some(image::ImageFormat::Ico)
    } else if name == "tga"@ {
        Some(image::ImageFormat::Tga)
    } else if name == "gif"@ {
        Some(image::ImageFormat::Gif)
    } else if name == "pnm"@ {
        Some(image::ImageFormat::Pnm)
    } else if name == "tiff"@ {
        Some(image::ImageFormat::Tiff)
    } else if name == "hdr"@ {
        Some(image::ImageFormat::Hdr)
    } else if name == "ff"@ {
        Some(image::ImageFormat::Farbfeld)
    } else {
        None
    }
}

/// Whether two strings hold the same characters.
pub fn same_text(a: &str, b: &str) -> (r: bool)
    ensures
        r == (a@ == b@),
{
    let n = a.unicode_len();
    if n != b.unicode_len() {
        return false;
    }
    let mut i: usize = 0;
    while i < n
        invariant
            n == a@.len(),
            n == b@.len(),
            i <= n,
            a@.subrange(0, i as int) == b@.subrange(0, i as int),
        decreases n - i,
    {
        if a.get_char(i) != b.get_char(i) {
            return false;
        }
        assert(a@.subrange(0, i + 1) == a@.subrange(0, i as int).push(a@[i as int]));
        assert(b@.subrange(0, i + 1) == b@.subrange(0, i as int).push(b@[i as int]));
        i = i + 1;
    }
    assert(a@ == a@.subrange(0, n as int));
    assert(b@ == b@.subrange(0, n as int));
    true
}

/// The raster format named by `name`, which is already in lower case.
pub fn format_from_lower(name: &str) -> (r: Option<image::ImageFormat>)
    ensures
        r == raster_format_of(name@),
{
    proof {
        reveal_strlit("png");
        reveal_strlit("jpg");
        reveal_strlit("webp");
        reveal_strlit("avif");
        reveal_strlit("bmp");
        reveal_strlit("ico");
        reveal_strlit("tga");
        reveal_strlit("gif");
        reveal_strlit("pnm");
        reveal_strlit("tiff");
        reveal_strlit("hdr");
        reveal_strlit("ff");
    }
    if same_text(name, "png") {
        Some(image::ImageFormat::Png)
    } else if same_text(name, "jpg") {
        Some(image::ImageFormat::Jpeg)
    } else if same_text(name, "webp") {
        Some(image::ImageFormat::WebP)
    } else if same_text(name, "avif") {
        Some(image::ImageFormat::Avif)
    } else if same_text(name, "bmp") {
        Some(image::ImageFormat::Bmp)
    } else if same_text(name, "ico") {
        Some(image::ImageFormat::Ico)
    } else if same_text(name, "tga") {
        Some(image::ImageFormat::Tga)
    } else if same_text(name, "gif") {
        Some(image::ImageFormat::Gif)
    } else if same_text(name, "pnm") {
        Some(image::ImageFormat::Pnm)
    } else if same_text(name, "tiff") {
        Some(image::ImageFormat::Tiff)
    } else if same_text(name, "hdr") {
        Some(image::ImageFormat::Hdr)
    } else if same_text(name, "ff") {
        Some(image::ImageFormat::Farbfeld)
    } else {
        None
    }
}

/// The raster format named by `format`, compared without regard to case.
/// An unknown name is refused with an error that holds it as given.
pub fn get_format(format: &str) -> (r: Result<image::ImageFormat, ConvertError>)
    ensures
        match raster_format_of(lower_of(format@)) {
            Some(f) => r == Ok::<image::ImageFormat, ConvertError>(f),
            None => r matches Err(ConvertError::UnsupportedFormat(name)) && name@ == format@,
        },
{
    let lower = lowercase(format);
    match format_from_lower(lower.as_str()) {
        Some(f) => Ok(f),
        None => Err(ConvertError::UnsupportedFormat(format.to_string())),
    }
}

} // verus!
