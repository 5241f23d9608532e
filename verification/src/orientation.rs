//! The EXIF orientation tag names one of eight rigid transforms that bring
//! the stored pixel data upright. The transform must be applied before any
//! size comparison, since a quarter turn swaps width and height.

use vstd::prelude::*;

use crate::raster::PixelBuffer;

verus! {

/// The eight rigid transforms of the EXIF orientation tag, in tag order:
/// the identity, the three rotations, and their horizontally flipped
/// counterparts.
#[derive(Clone, Copy, Debug, PartialEq, Eq, Structural)]
pub enum ExifOrientation {
    Normal,
    FlippedNormal,
    UpsideDown,
    FlippedUpsideDown,
    FlippedRotatedLeft,
    RotatedLeft,
    FlippedRotatedRight,
    RotatedRight,
}

impl ExifOrientation {
    /// The tag value that names this transform, 1 through 8.
    pub open spec fn code(self) -> u16 {
        match self {
            ExifOrientation::Normal => 1,
            ExifOrientation::FlippedNormal => 2,
            ExifOrientation::UpsideDown => 3,
            ExifOrientation::FlippedUpsideDown => 4,
            ExifOrientation::FlippedRotatedLeft => 5,
            ExifOrientation::RotatedLeft => 6,
            ExifOrientation::FlippedRotatedRight => 7,
            ExifOrientation::RotatedRight => 8,
        }
    }

    /// Whether the transform contains a quarter turn, which swaps the axes.
    pub open spec fn swaps_axes(self) -> bool {
        match self {
            ExifOrientation::FlippedRotatedLeft => true,
            ExifOrientation::RotatedLeft => true,
            ExifOrientation::FlippedRotatedRight => true,
            ExifOrientation::RotatedRight => true,
            _ => false,
        }
    }

    /// The width of a raster of dimensions `width` by `height` once the
    /// transform has been applied.
    pub open spec fn oriented_width(self, width: u32, height: u32) -> u32 {
        if self.swaps_axes() {
            height
        } else {
            width
        }
    }

    /// The height of a raster of dimensions `width` by `height` once the
    /// transform has been applied.
    pub open spec fn oriented_height(self, width: u32, height: u32) -> u32 {
        if self.swaps_axes() {
            width
        } else {
            height
        }
    }

    /// Maps a raw orientation code to its transform. Exactly the codes
    /// 1 through 8 are recognized; every other value is rejected, and the
    /// caller treats it as `Normal`.
    pub fn resolve(code: u16) -> (result: Result<ExifOrientation, ()>)
        ensures
            match result {
                Ok(orientation) => orientation.code() == code,
                Err(_) => !(1 <= code <= 8),
            },
            result is Ok <==> 1 <= code <= 8,
            1 <= code <= 8 ==> result == Ok::<ExifOrientation, ()>(Self::resolve_spec(code)),
    {
        match code {
            1 => Ok(ExifOrientation::Normal),
            2 => Ok(ExifOrientation::FlippedNormal),
            3 => Ok(ExifOrientation::UpsideDown),
            4 => Ok(ExifOrientation::FlippedUpsideDown),
            5 => Ok(ExifOrientation::FlippedRotatedLeft),
            6 => Ok(ExifOrientation::RotatedLeft),
            7 => Ok(ExifOrientation::FlippedRotatedRight),
            8 => Ok(ExifOrientation::RotatedRight),
            _ => Err(()),
        }
    }

    /// Applies the transform to a decoded raster. The resulting dimensions
    /// are the oriented ones: swapped by the quarter-turn transforms, kept
    /// by the others.
    pub fn apply_to_image(&self, image: PixelBuffer) -> (result: PixelBuffer)
        ensures
            result.width() == self.oriented_width(image.width(), image.height()),
            result.height() == self.oriented_height(image.width(), image.height()),
    {
        match self {
            ExifOrientation::Normal => image,
            ExifOrientation::FlippedNormal => image.flip_horizontal(),
            ExifOrientation::UpsideDown => image.rotate180(),
            ExifOrientation::FlippedUpsideDown => image.rotate180().flip_horizontal(),
            ExifOrientation::FlippedRotatedLeft => image.rotate90().flip_horizontal(),
            ExifOrientation::RotatedLeft => image.rotate90(),
            ExifOrientation::FlippedRotatedRight => image.rotate270().flip_horizontal(),
            ExifOrientation::RotatedRight => image.rotate270(),
        }
    }
}

/// Orientation correctness over the dimensions: each of the eight codes
/// resolves to the transform of that code, the four transforms that contain
/// a quarter turn swap the axes while the other four keep them, and no code
/// outside 1 through 8 resolves at all.
pub proof fn lemma_orientation_dimensions(code: u16, width: u32, height: u32)
    ensures
        1 <= code <= 8 ==> {
            let orientation = ExifOrientation::resolve_spec(code);
            &&& orientation.code() == code
            &&& orientation.swaps_axes() == (5 <= code <= 8)
            &&& orientation.oriented_width(width, height)
                == if 5 <= code <= 8 { height } else { width }
            &&& orientation.oriented_height(width, height)
                == if 5 <= code <= 8 { width } else { height }
        },
{
}

impl ExifOrientation {
    /// The transform of a recognized code, stated as a specification.
    pub open spec fn resolve_spec(code: u16) -> ExifOrientation
        recommends
            1 <= code <= 8,
    {
        if code == 1 {
            ExifOrientation::Normal
        } else if code == 2 {
            ExifOrientation::FlippedNormal
        } else if code == 3 {
            ExifOrientation::UpsideDown
        } else if code == 4 {
            ExifOrientation::FlippedUpsideDown
        } else if code == 5 {
            ExifOrientation::FlippedRotatedLeft
        } else if code == 6 {
            ExifOrientation::RotatedLeft
        } else if code == 7 {
            ExifOrientation::FlippedRotatedRight
        } else {
            ExifOrientation::RotatedRight
        }
    }
}

} // verus!
