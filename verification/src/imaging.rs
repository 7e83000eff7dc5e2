use image::{DynamicImage, GenericImageView};
use vstd::prelude::*;

verus! {

/// The decoded image type of the `image` crate, carried through unread.
#[verifier::external_type_specification]
#[verifier::external_body]
pub struct ExDynamicImage(DynamicImage);

/// A decoded image together with its size in pixels.
///
/// Only the functions of this module build one, and each reads the size
/// from the image it holds.
pub struct Picture {
    image: DynamicImage,
    width: u32,
    height: u32,
}

impl View for Picture {
    /// Width and height in pixels.
    type V = (u32, u32);

    closed spec fn view(&self) -> (u32, u32) {
        (self.width, self.height)
    }
}

impl Picture {
    /// The picture of a decoded image, with its size read from the image.
    pub fn new(image: DynamicImage) -> (r: Picture)
        ensures
            r.image_spec() == image,
            r@ == image_size(image),
    {
        measure(image)
    }

    /// The image that the picture holds.
    pub closed spec fn image_spec(&self) -> DynamicImage {
        self.image
    }

    /// The image that the picture holds.
    pub fn into_image(self) -> (r: DynamicImage)
        ensures
            r == self.image_spec(),
    {
        self.image
    }

    /// Width in pixels.
    pub fn width(&self) -> (r: u32)
        ensures
            r == self@.0,
    {
        self.width
    }

    /// Height in pixels.
    pub fn height(&self) -> (r: u32)
        ensures
            r == self@.1,
    {
        self.height
    }
}

/// The width and height in pixels that `GenericImageView::dimensions` reads
/// from a decoded image.
pub uninterp spec fn image_size(image: DynamicImage) -> (u32, u32);

/// Reads the size of a decoded image with `GenericImageView::dimensions`.
/// The contract claims that the picture holds the given image and that its
/// size is `image_size` of that image.
#[verifier::external_body]
fn measure(image: DynamicImage) -> (r: Picture)
    ensures
        r.image_spec() == image,
        r@ == image_size(image),
{
    let (width, height) = image.dimensions();
    Picture { image, width, height }
}

/// The size that `DynamicImage::thumbnail` gives to an image of the given
/// width and height for the given bounds (the crate computes it from these
/// four numbers alone, rounding a floating-point ratio).
pub uninterp spec fn thumbnail_size(width: u32, height: u32, max_width: u32, max_height: u32) -> (
    u32,
    u32,
);

/// Whether `size` is an image of `width` by `height` scaled to the bounds
/// keeping its aspect ratio: the side whose bound limits the scaling is at
/// its bound, and the other side is within one pixel of the exact
/// proportion (width times height over width, or the other way round).
pub open spec fn scaled_to_bounds(
    width: u32,
    height: u32,
    max_width: u32,
    max_height: u32,
    size: (u32, u32),
) -> bool {
    if max_width * height <= max_height * width {
        &&& size.0 == max_width
        &&& -(width as int) <= size.1 * width - height * max_width <= width
    } else {
        &&& size.1 == max_height
        &&& -(height as int) <= size.0 * height - width * max_height <= height
    }
}

/// Calls `DynamicImage::thumbnail`, which scales the image to the largest
/// size that fits within the bounds, keeping the aspect ratio, and reads the
/// new size with `GenericImageView::dimensions`. The contract claims that
/// the new size is `thumbnail_size` of the old size and the bounds, and is
/// the size of the new image; that, with bounds of at least one pixel, it
/// is within them; that, with sides and bounds of at least one pixel, it is
/// the old size scaled to the bounds keeping the aspect ratio (the crate
/// multiplies by the smaller of the two ratios and rounds); and that where
/// the image does not fit the bounds, no side of at least one pixel grows
/// (the scale factor is then below one). How the pixels are computed is
/// left unsaid.
#[verifier::external_body]
fn thumbnail(picture: &Picture, max_width: u32, max_height: u32) -> (r: Picture)
    ensures
        r@ == thumbnail_size(picture@.0, picture@.1, max_width, max_height),
        r@ == image_size(r.image_spec()),
        max_width >= 1 ==> r@.0 <= max_width,
        max_height >= 1 ==> r@.1 <= max_height,
        (picture@.0 > max_width || picture@.1 > max_height) && picture@.0 >= 1 && picture@.1 >= 1
            ==> r@.0 <= picture@.0 && r@.1 <= picture@.1,
        picture@.0 >= 1 && picture@.1 >= 1 && max_width >= 1 && max_height >= 1 ==> scaled_to_bounds(
            picture@.0,
            picture@.1,
            max_width,
            max_height,
            r@,
        ),
{
    let image = picture.image.thumbnail(max_width, max_height);
    let (width, height) = image.dimensions();
    Picture { image, width, height }
}

/// Whether a picture of this size is scaled down for the longest-side limit:
/// only where a limit is set and one of the sides exceeds it.
pub open spec fn needs_resize_spec(width: u32, height: u32, max_dimension: Option<u32>) -> bool {
    match max_dimension {
        Some(max) => width > max || height > max,
        None => false,
    }
}

/// Whether a picture of this size is scaled down for the longest-side limit.
pub fn needs_resize(width: u32, height: u32, max_dimension: Option<u32>) -> (r: bool)
    ensures
        r == needs_resize_spec(width, height, max_dimension),
{
    match max_dimension {
        Some(max) => width > max || height > max,
        None => false,
    }
}

/// Applies the longest-side limit to a picture: where a side exceeds the
/// limit, the image is scaled down to fit a square of the limit's side,
/// keeping its aspect ratio; else the picture is returned unchanged. With a
/// limit of at least one pixel both sides of the result are within it, a
/// scaled-down picture has its longer side at the limit and the other in
/// proportion (within one pixel), and no side of a picture of at least one
/// pixel each way grows. The size of the result is that of its image where
/// the size of the given picture is that of its image.
pub fn resize_if_needed(picture: Picture, max_dimension: Option<u32>) -> (r: Picture)
    ensures
        !needs_resize_spec(picture@.0, picture@.1, max_dimension) ==> r == picture,
        needs_resize_spec(picture@.0, picture@.1, max_dimension) ==> r@ == thumbnail_size(
            picture@.0,
            picture@.1,
            max_dimension->0,
            max_dimension->0,
        ),
        max_dimension is Some && max_dimension->0 >= 1 ==> r@.0 <= max_dimension->0 && r@.1
            <= max_dimension->0,
        picture@.0 >= 1 && picture@.1 >= 1 ==> r@.0 <= picture@.0 && r@.1 <= picture@.1,
        needs_resize_spec(picture@.0, picture@.1, max_dimension) && max_dimension->0 >= 1
            && picture@.0 >= 1 && picture@.1 >= 1 ==> scaled_to_bounds(
            picture@.0,
            picture@.1,
            max_dimension->0,
            max_dimension->0,
            r@,
        ),
        picture@ == image_size(picture.image_spec()) ==> r@ == image_size(r.image_spec()),
{
    if let Some(max) = max_dimension {
        if needs_resize(picture.width(), picture.height(), max_dimension) {
            return thumbnail(&picture, max, max);
        }
    }
    picture
}

/// A picture that fits the limit needs no resizing: applying the limit to
/// what `resize_if_needed` returned for it (a picture within the limit, for
/// a limit of at least one pixel) returns that picture unchanged, so
/// resizing twice is resizing once.
pub proof fn lemma_resize_settles(picture: Picture, max: u32)
    requires
        max >= 1,
        picture@.0 <= max,
        picture@.1 <= max,
    ensures
        !needs_resize_spec(picture@.0, picture@.1, Some(max)),
{
}

} // verus!
