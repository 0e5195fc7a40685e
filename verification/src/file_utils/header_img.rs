//! Normalization of a project's header image to 400 by 60 pixels of
//! 24-bit RGB.
use vstd::prelude::*;

verus! {

/// `image::DynamicImage`: a decoded picture.
#[verifier::external_type_specification]
#[verifier::external_body]
pub struct ExDynamicImage(image::DynamicImage);

/// `image::ImageError`, handed on as it came.
#[verifier::external_type_specification]
#[verifier::external_body]
pub struct ExImageError(image::ImageError);

/// `image::ImageFormat`: the formats of image files.
#[verifier::external_type_specification]
pub struct ExImageFormat(image::ImageFormat);

/// `image::imageops::FilterType`: the ways of resizing.
#[verifier::external_type_specification]
pub struct ExFilterType(image::imageops::FilterType);

/// Width of a header image, in pixels.
pub const HEADER_WIDTH: u32 = 400;

/// Height of a header image, in pixels.
pub const HEADER_HEIGHT: u32 = 60;

/// Bytes of one pixel of 24-bit RGB.
pub const BYTES_PER_PIXEL: usize = 3;

/// The width of a decoded image, in pixels.
pub uninterp spec fn image_width(image: image::DynamicImage) -> nat;

/// The height of a decoded image, in pixels.
pub uninterp spec fn image_height(image: image::DynamicImage) -> nat;

/// The buffer of a decoded image as 24-bit RGB: its pixels, row by row
/// from the top, and whatever the buffer holds behind them.
pub uninterp spec fn image_rgb8(image: image::DynamicImage) -> Seq<u8>;

/// The buffer as 24-bit RGB of what resizing with a filter makes of an
/// image.
pub uninterp spec fn image_resized_rgb8(
    image: image::DynamicImage,
    width: u32,
    height: u32,
    filter: image::imageops::FilterType,
) -> Seq<u8>;

/// The file in a format for pixels of 24-bit RGB, or `None` where the
/// encoder refuses a picture of this width and height.
pub uninterp spec fn spec_file(
    pixels: Seq<u8>,
    width: u32,
    height: u32,
    format: image::ImageFormat,
) -> Option<Seq<u8>>;

/// The picture in a file of a format: its width, its height and its
/// buffer as 24-bit RGB. `None` where the bytes cannot be decoded as a
/// file of that format.
pub uninterp spec fn spec_picture(data: Seq<u8>, format: image::ImageFormat) -> Option<
    (nat, nat, Seq<u8>),
>;

/// The BMP file for pixels of 24-bit RGB, or `None` where the encoder
/// refuses a picture of this width and height.
pub open spec fn spec_bmp(pixels: Seq<u8>, width: u32, height: u32) -> Option<Seq<u8>> {
    spec_file(pixels, width, height, image::ImageFormat::Bmp)
}

/// The picture in a BMP file: its width, its height and its buffer as
/// 24-bit RGB. `None` where the bytes cannot be decoded as a BMP file.
pub open spec fn spec_bmp_picture(data: Seq<u8>) -> Option<(nat, nat, Seq<u8>)> {
    spec_picture(data, image::ImageFormat::Bmp)
}

/// `image::load_from_memory_with_format`: whether the bytes can be
/// decoded, and the picture they hold, depends on the bytes and the
/// format alone.
#[verifier::external_body]
fn decode(data: &[u8], format: image::ImageFormat) -> (r: Result<
    image::DynamicImage,
    image::ImageError,
>)
    ensures
        r is Ok <==> spec_picture(data@, format) is Some,
        r matches Ok(image) ==> spec_picture(data@, format) == Some(
            (image_width(image), image_height(image), image_rgb8(image)),
        ),
{
    image::load_from_memory_with_format(data, format)
}

/// `DynamicImage::width`.
#[verifier::external_body]
fn width_of(image: &image::DynamicImage) -> (r: u32)
    ensures
        r == image_width(*image),
{
    image.width()
}

/// `DynamicImage::height`.
#[verifier::external_body]
fn height_of(image: &image::DynamicImage) -> (r: u32)
    ensures
        r == image_height(*image),
{
    image.height()
}

/// `DynamicImage::resize_exact`: an image of exactly the width and
/// height asked for, whose pixels depend on nothing but the image, the
/// size and the filter.
#[verifier::external_body]
fn resize_exact(
    image: &image::DynamicImage,
    width: u32,
    height: u32,
    filter: image::imageops::FilterType,
) -> (r: image::DynamicImage)
    ensures
        image_width(r) == width,
        image_height(r) == height,
        image_rgb8(r) == image_resized_rgb8(*image, width, height, filter),
{
    image.resize_exact(width, height, filter)
}

/// `DynamicImage::into_rgb8` and `ImageBuffer::into_raw`: the buffer of
/// the image as 24-bit RGB, which holds three bytes for each pixel, and
/// may hold more behind them.
#[verifier::external_body]
fn into_rgb8(image: image::DynamicImage) -> (r: Vec<u8>)
    ensures
        r@ == image_rgb8(image),
        r@.len() >= 3 * image_width(image) * image_height(image),
{
    image.into_rgb8().into_raw()
}

/// `image::write_buffer_with_format` for 24-bit RGB, into memory:
/// whether the picture is encoded, and the file it gives, depends on the
/// pixels, the width, the height and the format alone. It panics where
/// the buffer does not hold three bytes for each pixel.
#[verifier::external_body]
fn encode_rgb8(pixels: &[u8], width: u32, height: u32, format: image::ImageFormat) -> (r: Result<
    Vec<u8>,
    image::ImageError,
>)
    requires
        pixels@.len() == 3 * width * height,
    ensures
        r is Ok <==> spec_file(pixels@, width, height, format) is Some,
        r matches Ok(file) ==> spec_file(pixels@, width, height, format) == Some(file@),
{
    let mut file = std::io::Cursor::new(Vec::new());
    image::write_buffer_with_format(
        &mut file,
        pixels,
        width,
        height,
        image::ExtendedColorType::Rgb8,
        format,
    )?;
    Ok(file.into_inner())
}

/// The pixels of the header image for a decoded image: its own where it
/// is 400 by 60 pixels, else those of the image resized to that size
/// without interpolation.
pub open spec fn spec_normalized(image: image::DynamicImage) -> Seq<u8> {
    (if image_width(image) == HEADER_WIDTH && image_height(image) == HEADER_HEIGHT {
        image_rgb8(image)
    } else {
        image_resized_rgb8(
            image,
            HEADER_WIDTH,
            HEADER_HEIGHT,
            image::imageops::FilterType::Nearest,
        )
    }).take(BYTES_PER_PIXEL * HEADER_WIDTH * HEADER_HEIGHT)
}

/// What encoding the pixels of a header image gives: the BMP file, or
/// an error where the encoder refuses.
pub open spec fn spec_encoded(pixels: Seq<u8>, r: Result<Vec<u8>, image::ImageError>) -> bool {
    match spec_bmp(pixels, HEADER_WIDTH, HEADER_HEIGHT) {
        Some(file) => r matches Ok(f) && f@ == file,
        None => r is Err,
    }
}

/// A header image: 400 by 60 pixels of 24-bit RGB.
#[derive(Debug)]
pub struct HeaderImage {
    pixels: Vec<u8>,
}

impl HeaderImage {
    /// The pixels, three bytes each, row by row from the top.
    pub closed spec fn spec_pixels(&self) -> Seq<u8> {
        self.pixels@
    }

    #[verifier::type_invariant]
    spec fn sized(&self) -> bool {
        self.pixels@.len() == BYTES_PER_PIXEL * HEADER_WIDTH * HEADER_HEIGHT
    }

    /// The width in pixels: 400.
    pub fn width(&self) -> (r: u32)
        ensures
            r == HEADER_WIDTH,
    {
        HEADER_WIDTH
    }

    /// The height in pixels: 60.
    pub fn height(&self) -> (r: u32)
        ensures
            r == HEADER_HEIGHT,
    {
        HEADER_HEIGHT
    }

    /// The pixels, three bytes each, row by row from the top.
    pub fn pixels(&self) -> (r: &[u8])
        ensures
            r@ == self.spec_pixels(),
            r@.len() == 72000,
    {
        proof {
            use_type_invariant(self);
        }
        self.pixels.as_slice()
    }

    /// Brings a decoded image to the size and the pixel format of a
    /// header image. An image of another size is resized without
    /// interpolation; one of the right size keeps its pixels.
    pub fn normalize(image: image::DynamicImage) -> (r: HeaderImage)
        ensures
            r.spec_pixels().len() == BYTES_PER_PIXEL * HEADER_WIDTH * HEADER_HEIGHT,
            r.spec_pixels() == spec_normalized(image),
    {
        let mut pixels = if width_of(&image) != HEADER_WIDTH || height_of(&image)
            != HEADER_HEIGHT {
            into_rgb8(
                resize_exact(
                    &image,
                    HEADER_WIDTH,
                    HEADER_HEIGHT,
                    image::imageops::FilterType::Nearest,
                ),
            )
        } else {
            into_rgb8(image)
        };
        pixels.truncate(BYTES_PER_PIXEL * (HEADER_WIDTH as usize) * (HEADER_HEIGHT as usize));
        HeaderImage { pixels }
    }

    /// The image as a BMP file.
    pub fn encode(&self) -> (r: Result<Vec<u8>, image::ImageError>)
        ensures
            spec_encoded(self.spec_pixels(), r),
    {
        proof {
            use_type_invariant(self);
        }
        encode_rgb8(
            self.pixels.as_slice(),
            HEADER_WIDTH,
            HEADER_HEIGHT,
            image::ImageFormat::Bmp,
        )
    }
}

/// Validate the RMSKIN.bmp file whose contents are `data`.
///
/// This gives the contents of the validated image: the BMP file of 400
/// by 60 pixels of 24-bit RGB for the picture that `data` holds. They
/// are the pixels of `data` where it has that size already, else those
/// of the picture resized without interpolation. What cannot be decoded,
/// or what the encoder refuses, is an error.
pub fn validate_header_image(data: &[u8]) -> (r: Result<Vec<u8>, image::ImageError>)
    ensures
        match spec_bmp_picture(data@) {
            None => r is Err,
            Some(picture) => {
                &&& exists|image: image::DynamicImage|
                    picture == (image_width(image), image_height(image), #[trigger] image_rgb8(image))
                        && spec_normalized(image).len() == BYTES_PER_PIXEL * HEADER_WIDTH
                        * HEADER_HEIGHT && spec_encoded(spec_normalized(image), r)
                &&& picture.0 == HEADER_WIDTH && picture.1 == HEADER_HEIGHT ==> spec_encoded(
                    picture.2.take(BYTES_PER_PIXEL * HEADER_WIDTH * HEADER_HEIGHT),
                    r,
                )
            },
        },
{
    let image = match decode(data, image::ImageFormat::Bmp) {
        Err(e) => {
            return Err(e);
        },
        Ok(image) => image,
    };
    let header = HeaderImage::normalize(image);
    header.encode()
}

} // verus!
