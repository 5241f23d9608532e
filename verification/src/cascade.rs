//! The derivative cascade: from the orientation-corrected raster, a chain
//! of bounded renditions full, large, medium, tiny, each derived from its
//! immediate predecessor. A step that would only upscale or copy does not
//! resample: it aliases its source, to be materialized as a symbolic link.

use vstd::prelude::*;

use crate::raster::{thumbnail_dims, PixelBuffer};

verus! {

/// Bounding box of the `large` rendition, on both axes.
pub const LARGE_BOUND: u32 = 1280;

/// Bounding box of the `medium` rendition, on both axes.
pub const MEDIUM_BOUND: u32 = 800;

/// Bounding box of the `tiny` rendition, on both axes.
pub const TINY_BOUND: u32 = 360;

/// The four rendition slots, in chain order.
#[derive(Clone, Copy, Debug, PartialEq, Eq, Structural)]
pub enum RenditionSlot {
    Full,
    Large,
    Medium,
    Tiny,
}

impl RenditionSlot {
    /// The slot a rendition is derived from: the immediately larger one in
    /// the chain. `Full` has none; it is the source of the chain.
    pub open spec fn predecessor(self) -> RenditionSlot
        recommends
            self != RenditionSlot::Full,
    {
        match self {
            RenditionSlot::Full => RenditionSlot::Full,
            RenditionSlot::Large => RenditionSlot::Full,
            RenditionSlot::Medium => RenditionSlot::Large,
            RenditionSlot::Tiny => RenditionSlot::Medium,
        }
    }
}

/// One rendition: either freshly resampled pixels to be encoded, or an
/// alias of its source rendition, carrying the source's raster so that the
/// next step of the chain can still resample from it.
pub enum ImageKind {
    Generated(PixelBuffer),
    Symlink(PixelBuffer),
}

impl ImageKind {
    /// The raster this rendition shows.
    pub open spec fn buffer(self) -> PixelBuffer {
        match self {
            ImageKind::Generated(buffer) => buffer,
            ImageKind::Symlink(buffer) => buffer,
        }
    }

    /// The dimensions of the raster this rendition shows.
    pub open spec fn dims(self) -> (u32, u32) {
        (self.buffer().spec_width(), self.buffer().spec_height())
    }

    /// Whether this rendition carries freshly resampled pixels.
    pub open spec fn is_generated(self) -> bool {
        self matches ImageKind::Generated(_)
    }

    /// The raster this rendition shows, whichever variant it is.
    pub fn image(&self) -> (result: &PixelBuffer)
        ensures
            *result == self.buffer(),
    {
        match self {
            ImageKind::Generated(buffer) => buffer,
            ImageKind::Symlink(buffer) => buffer,
        }
    }

    /// Whether this rendition carries freshly resampled pixels, as a value.
    pub fn generated(&self) -> (result: bool)
        ensures
            result == self.is_generated(),
    {
        match self {
            ImageKind::Generated(_) => true,
            ImageKind::Symlink(_) => false,
        }
    }
}

/// Whether a source already fits strictly inside a target box on both
/// axes, so that resampling would only upscale or copy.
pub open spec fn fits_strictly(
    source_width: u32,
    source_height: u32,
    target_width: u32,
    target_height: u32,
) -> bool {
    source_width < target_width && source_height < target_height
}

/// The dimensions one cascade step gives its rendition: the source's own
/// when the step aliases, the bounded resample's when it generates.
pub open spec fn step_dims(
    source_width: u32,
    source_height: u32,
    target_width: u32,
    target_height: u32,
) -> (u32, u32) {
    if fits_strictly(source_width, source_height, target_width, target_height) {
        (source_width, source_height)
    } else {
        thumbnail_dims(source_width, source_height, target_width, target_height)
    }
}

/// One step of the cascade: aliases the source when it already fits
/// strictly inside the target box, and resamples it into the box otherwise.
pub fn generate_or_symlink_image(
    image: &ImageKind,
    source_width: u32,
    source_height: u32,
    target_width: u32,
    target_height: u32,
) -> (result: ImageKind)
    requires
        (source_width, source_height) == image.dims(),
    ensures
        result.is_generated() == !fits_strictly(
            source_width,
            source_height,
            target_width,
            target_height,
        ),
        result.dims() == step_dims(source_width, source_height, target_width, target_height),
        !fits_strictly(source_width, source_height, target_width, target_height)
            && target_width >= 1 && target_height >= 1 ==> {
            &&& 1 <= result.dims().0 <= target_width
            &&& 1 <= result.dims().1 <= target_height
        },
{
    if source_width < target_width && source_height < target_height {
        ImageKind::Symlink(image.image().duplicate())
    } else {
        ImageKind::Generated(image.image().thumbnail(target_width, target_height))
    }
}

/// The chain of renditions of one upload.
pub struct Cascade {
    pub full: ImageKind,
    pub large: ImageKind,
    pub medium: ImageKind,
    pub tiny: ImageKind,
}

impl Cascade {
    /// What the cascade of a raster of the given dimensions looks like:
    /// `full` carries the raster itself; each later rendition aliases or
    /// resamples the immediately preceding one, its dimensions given by the
    /// step function on its predecessor's dimensions, and a generated
    /// rendition lies inside its box.
    pub open spec fn wf_for(self, width: u32, height: u32) -> bool {
        let large_dims = step_dims(width, height, LARGE_BOUND, LARGE_BOUND);
        let medium_dims = step_dims(large_dims.0, large_dims.1, MEDIUM_BOUND, MEDIUM_BOUND);
        let tiny_dims = step_dims(medium_dims.0, medium_dims.1, TINY_BOUND, TINY_BOUND);
        &&& self.full.is_generated()
        &&& self.full.dims() == (width, height)
        &&& self.large.is_generated() == !fits_strictly(width, height, LARGE_BOUND, LARGE_BOUND)
        &&& self.large.dims() == large_dims
        &&& self.medium.is_generated() == !fits_strictly(
            large_dims.0,
            large_dims.1,
            MEDIUM_BOUND,
            MEDIUM_BOUND,
        )
        &&& self.medium.dims() == medium_dims
        &&& self.tiny.is_generated() == !fits_strictly(
            medium_dims.0,
            medium_dims.1,
            TINY_BOUND,
            TINY_BOUND,
        )
        &&& self.tiny.dims() == tiny_dims
        &&& self.large.is_generated() ==> {
            &&& 1 <= large_dims.0 <= LARGE_BOUND
            &&& 1 <= large_dims.1 <= LARGE_BOUND
        }
        &&& self.medium.is_generated() ==> {
            &&& 1 <= medium_dims.0 <= MEDIUM_BOUND
            &&& 1 <= medium_dims.1 <= MEDIUM_BOUND
        }
        &&& self.tiny.is_generated() ==> {
            &&& 1 <= tiny_dims.0 <= TINY_BOUND
            &&& 1 <= tiny_dims.1 <= TINY_BOUND
        }
    }
}

/// Runs the cascade on an orientation-corrected raster. The full rendition
/// carries the raster itself; each later step is fed the immediately
/// preceding rendition, never the full raster directly.
pub fn cascade(full: PixelBuffer) -> (result: Cascade)
    ensures
        result.wf_for(full.spec_width(), full.spec_height()),
        result.full.buffer() == full,
{
    let width = full.width();
    let height = full.height();
    let full_kind = ImageKind::Generated(full);
    let large = generate_or_symlink_image(&full_kind, width, height, LARGE_BOUND, LARGE_BOUND);
    let large_width = large.image().width();
    let large_height = large.image().height();
    let medium = generate_or_symlink_image(
        &large,
        large_width,
        large_height,
        MEDIUM_BOUND,
        MEDIUM_BOUND,
    );
    let medium_width = medium.image().width();
    let medium_height = medium.image().height();
    let tiny = generate_or_symlink_image(
        &medium,
        medium_width,
        medium_height,
        TINY_BOUND,
        TINY_BOUND,
    );
    Cascade { full: full_kind, large, medium, tiny }
}

/// Cascade monotonicity: in a well-formed cascade, `large` is derived from
/// `full`, `medium` from `large`, and `tiny` from `medium` — each
/// rendition's kind and dimensions are the step function of its immediate
/// predecessor's dimensions, never of the full raster's directly.
pub proof fn lemma_cascade_chain(cascade: Cascade, width: u32, height: u32)
    requires
        cascade.wf_for(width, height),
    ensures
        cascade.large.dims() == step_dims(
            cascade.full.dims().0,
            cascade.full.dims().1,
            LARGE_BOUND,
            LARGE_BOUND,
        ),
        cascade.medium.dims() == step_dims(
            cascade.large.dims().0,
            cascade.large.dims().1,
            MEDIUM_BOUND,
            MEDIUM_BOUND,
        ),
        cascade.tiny.dims() == step_dims(
            cascade.medium.dims().0,
            cascade.medium.dims().1,
            TINY_BOUND,
            TINY_BOUND,
        ),
        cascade.medium.is_generated() == !fits_strictly(
            cascade.large.dims().0,
            cascade.large.dims().1,
            MEDIUM_BOUND,
            MEDIUM_BOUND,
        ),
        cascade.tiny.is_generated() == !fits_strictly(
            cascade.medium.dims().0,
            cascade.medium.dims().1,
            TINY_BOUND,
            TINY_BOUND,
        ),
{
}

/// The alias-versus-generate boundary for the first derived step: `large`
/// aliases exactly when the full raster already fits strictly inside the
/// large box; when it does not, `large` is generated and lies inside the
/// box, while an aliased `large` keeps the full raster's dimensions.
pub proof fn lemma_alias_boundary(cascade: Cascade, width: u32, height: u32)
    requires
        cascade.wf_for(width, height),
    ensures
        !cascade.large.is_generated() <==> (width < LARGE_BOUND && height < LARGE_BOUND),
        !cascade.large.is_generated() ==> cascade.large.dims() == (width, height),
        cascade.large.is_generated() ==> {
            &&& 1 <= cascade.large.dims().0 <= LARGE_BOUND
            &&& 1 <= cascade.large.dims().1 <= LARGE_BOUND
        },
{
}

} // verus!
