//! A decoded raster and the operations on it, carried out by the `image`
//! crate behind trusted wrappers. The wrappers keep the pixel dimensions
//! beside the raster, so that the cascade logic can be verified over them.

use vstd::prelude::*;

verus! {

/// Declares image::DynamicImage, the decoded raster itself; a value of it
/// is opaque here and is read only through the wrappers below.
#[verifier::external_type_specification]
#[verifier::external_body]
pub struct ExDynamicImage(image::DynamicImage);

/// Declares image::ImageError, the decoder's and encoder's failure report,
/// carried through unread.
#[verifier::external_type_specification]
#[verifier::external_body]
pub struct ExImageError(image::ImageError);

/// A decoded raster held together with its pixel dimensions.
pub struct PixelBuffer {
    width: u32,
    height: u32,
    image: image::DynamicImage,
}

/// The dimensions that `DynamicImage::thumbnail` gives a raster of dimensions
/// `(source_width, source_height)` resampled into the bounding box
/// `(target_width, target_height)`: a function of these four values alone.
pub uninterp spec fn thumbnail_dims(
    source_width: u32,
    source_height: u32,
    target_width: u32,
    target_height: u32,
) -> (u32, u32);

/// The dimensions of the raster that `image::load_from_memory` decodes out
/// of the given bytes, or `None` when they are not a decodable raster: a
/// function of the bytes alone.
pub uninterp spec fn decoded_dims(data: Seq<u8>) -> Option<(u32, u32)>;

/// Whether a raster of these dimensions fits a JPEG frame header, whose
/// width and height fields are 16-bit.
pub open spec fn jpeg_encodable(width: u32, height: u32) -> bool {
    width <= 0xffff && height <= 0xffff
}

impl PixelBuffer {
    /// Width of the raster in pixels.
    pub closed spec fn spec_width(&self) -> u32 {
        self.width
    }

    /// Height of the raster in pixels.
    pub closed spec fn spec_height(&self) -> u32 {
        self.height
    }

    #[verifier::when_used_as_spec(spec_width)]
    pub fn width(&self) -> (width: u32)
        ensures
            width == self.spec_width(),
    {
        self.width
    }

    #[verifier::when_used_as_spec(spec_height)]
    pub fn height(&self) -> (height: u32)
        ensures
            height == self.spec_height(),
    {
        self.height
    }

    /// Relies on image::RgbImage::from_raw: builds a raster from packed 8-bit
    /// RGB samples in row-major order, which succeeds whenever the buffer has
    /// exactly three samples per pixel.
    #[verifier::external_body]
    pub fn from_rgb(width: u32, height: u32, samples: Vec<u8>) -> (result: PixelBuffer)
        requires
            samples@.len() == 3 * width * height,
        ensures
            result.width() == width,
            result.height() == height,
    {
        let buffer = image::RgbImage::from_raw(width, height, samples)
            .expect("three samples per pixel");
        PixelBuffer { width, height, image: image::DynamicImage::ImageRgb8(buffer) }
    }

    /// Relies on DynamicImage::to_rgb8: hands back the packed 8-bit RGB
    /// samples of the raster, row by row, three per pixel.
    #[verifier::external_body]
    pub fn to_rgb(&self) -> (result: Vec<u8>)
        ensures
            result@.len() == 3 * self.width() * self.height(),
    {
        self.image.to_rgb8().into_raw()
    }

    /// Relies on image::load_from_memory: decodes a raster from the bytes of
    /// a supported container format, or reports why the bytes are not one.
    /// Whether the bytes decode, and to which dimensions, is a function of
    /// the bytes alone.
    #[verifier::external_body]
    pub fn decode(data: &[u8]) -> (result: Result<PixelBuffer, image::ImageError>)
        ensures
            result is Ok <==> decoded_dims(data@) is Some,
            result matches Ok(buffer) ==> decoded_dims(data@) == Some(
                (buffer.spec_width(), buffer.spec_height()),
            ),
    {
        let image = image::load_from_memory(data)?;
        Ok(PixelBuffer { width: image.width(), height: image.height(), image })
    }

    /// Relies on DynamicImage::clone: copies the raster.
    #[verifier::external_body]
    pub fn duplicate(&self) -> (result: PixelBuffer)
        ensures
            result.width() == self.width(),
            result.height() == self.height(),
    {
        PixelBuffer { width: self.width, height: self.height, image: self.image.clone() }
    }

    /// Relies on DynamicImage::fliph: mirrors the raster horizontally,
    /// keeping its dimensions.
    #[verifier::external_body]
    pub fn flip_horizontal(self) -> (result: PixelBuffer)
        ensures
            result.width() == self.width(),
            result.height() == self.height(),
    {
        let image = self.image.fliph();
        PixelBuffer { width: image.width(), height: image.height(), image }
    }

    /// Relies on DynamicImage::rotate90: turns the raster a quarter turn
    /// clockwise, swapping its dimensions.
    #[verifier::external_body]
    pub fn rotate90(self) -> (result: PixelBuffer)
        ensures
            result.width() == self.height(),
            result.height() == self.width(),
    {
        let image = self.image.rotate90();
        PixelBuffer { width: image.width(), height: image.height(), image }
    }

    /// Relies on DynamicImage::rotate180: turns the raster a half turn,
    /// keeping its dimensions.
    #[verifier::external_body]
    pub fn rotate180(self) -> (result: PixelBuffer)
        ensures
            result.width() == self.width(),
            result.height() == self.height(),
    {
        let image = self.image.rotate180();
        PixelBuffer { width: image.width(), height: image.height(), image }
    }

    /// Relies on DynamicImage::rotate270: turns the raster a quarter turn
    /// counter-clockwise, swapping its dimensions.
    #[verifier::external_body]
    pub fn rotate270(self) -> (result: PixelBuffer)
        ensures
            result.width() == self.height(),
            result.height() == self.width(),
    {
        let image = self.image.rotate270();
        PixelBuffer { width: image.width(), height: image.height(), image }
    }

    /// Relies on DynamicImage::thumbnail: resamples the raster into the given
    /// bounding box, preserving its aspect ratio. The resulting dimensions
    /// are a function of the source and target dimensions alone; each is at
    /// least one pixel, and neither exceeds its bound.
    #[verifier::external_body]
    pub fn thumbnail(&self, target_width: u32, target_height: u32) -> (result: PixelBuffer)
        ensures
            (result.width(), result.height())
                == thumbnail_dims(self.width(), self.height(), target_width, target_height),
            result.width() >= 1,
            result.height() >= 1,
            target_width >= 1 && target_height >= 1
                ==> result.width() <= target_width && result.height() <= target_height,
    {
        let image = self.image.thumbnail(target_width, target_height);
        PixelBuffer { width: image.width(), height: image.height(), image }
    }

    /// Relies on DynamicImage::write_to with ImageOutputFormat::Jpeg: encodes
    /// the raster as a JPEG of the given quality, converting it to 8-bit RGB
    /// first, the sample layout the JPEG encoder accepts. The encoder clamps
    /// the quality into 1 to 100, writes to memory, and fails exactly when a
    /// dimension overflows the 16-bit frame header.
    #[verifier::external_body]
    pub fn encode_jpeg(&self, quality: u8) -> (result: Result<Vec<u8>, image::ImageError>)
        ensures
            result is Ok <==> jpeg_encodable(self.spec_width(), self.spec_height()),
    {
        let rgb = image::DynamicImage::ImageRgb8(self.image.to_rgb8());
        let mut buffer = std::io::Cursor::new(Vec::new());
        rgb.write_to(&mut buffer, image::ImageOutputFormat::Jpeg(quality))?;
        Ok(buffer.into_inner())
    }
}

} // verus!
