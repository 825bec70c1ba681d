use vstd::prelude::*;

use crate::geometry::{Point, Rect};

verus! {

/// How many images the badge rotates through.
pub const NUMBER_OF_IMAGES: u8 = 2;

/// Width of the area erased before a new image is drawn; it covers the
/// largest image footprint.
pub const IMAGE_CLEAR_WIDTH: u32 = 157;

/// Height of the area erased before a new image is drawn.
pub const IMAGE_CLEAR_HEIGHT: u32 = 101;

/// The images the badge can show, in rotation order.
#[derive(Clone, Copy, Debug, PartialEq, Eq, Structural)]
pub enum DisplayImage {
    Ferris,
    Repo,
}

impl DisplayImage {
    /// Position of the image in the rotation.
    pub open spec fn ordinal(self) -> nat {
        match self {
            DisplayImage::Ferris => 0,
            DisplayImage::Repo => 1,
        }
    }

    /// The image at a position of the rotation, taken modulo its size.
    pub open spec fn at_ordinal(n: nat) -> DisplayImage {
        if n % (NUMBER_OF_IMAGES as nat) == 0 {
            DisplayImage::Ferris
        } else {
            DisplayImage::Repo
        }
    }

    /// The image that follows this one, wrapping at the end.
    pub open spec fn successor(self) -> DisplayImage {
        DisplayImage::at_ordinal((self.ordinal() + 1) % (NUMBER_OF_IMAGES as nat))
    }

    /// The image that comes before this one, wrapping at the start.
    pub open spec fn predecessor(self) -> DisplayImage {
        DisplayImage::at_ordinal(
            ((self.ordinal() + NUMBER_OF_IMAGES - 1) % (NUMBER_OF_IMAGES as int)) as nat,
        )
    }

    /// `successor` applied `n` times.
    pub open spec fn advanced(self, n: nat) -> DisplayImage
        decreases n,
    {
        if n == 0 {
            self
        } else {
            self.advanced((n - 1) as nat).successor()
        }
    }

    /// Where the image's top-left corner is drawn.
    pub open spec fn anchor(self) -> Point {
        match self {
            DisplayImage::Ferris => Point { x: 150, y: 26 },
            DisplayImage::Repo => Point { x: 190, y: 26 },
        }
    }

    pub fn from_u8(value: u8) -> (r: Option<Self>)
        ensures
            r.is_some() <==> value < NUMBER_OF_IMAGES,
            r matches Some(i) ==> i.ordinal() == value,
    {
        match value {
            0 => Some(DisplayImage::Ferris),
            1 => Some(DisplayImage::Repo),
            _ => None,
        }
    }

    pub fn as_u8(&self) -> (r: u8)
        ensures
            r == self.ordinal(),
            r < NUMBER_OF_IMAGES,
    {
        match self {
            DisplayImage::Ferris => 0,
            DisplayImage::Repo => 1,
        }
    }

    /// Name of the bitmap asset that holds the image's pixels.
    pub fn image(&self) -> (r: &'static str)
        ensures
            *self == DisplayImage::Ferris ==> r@ == "ferris_w_a_knife.bmp"@,
            *self == DisplayImage::Repo ==> r@ == "repo.bmp"@,
    {
        match self {
            DisplayImage::Ferris => "ferris_w_a_knife.bmp",
            DisplayImage::Repo => "repo.bmp",
        }
    }

    pub fn next(&self) -> (r: Self)
        ensures
            r == self.successor(),
    {
        let image_count = self.as_u8();
        let next_image = (image_count + 1) % NUMBER_OF_IMAGES;
        match DisplayImage::from_u8(next_image) {
            Some(i) => i,
            None => DisplayImage::Ferris,
        }
    }

    pub fn previous(&self) -> (r: Self)
        ensures
            r == self.predecessor(),
    {
        let image_count = self.as_u8();
        let previous_image = if image_count == 0 {
            NUMBER_OF_IMAGES - 1
        } else {
            (image_count - 1) % NUMBER_OF_IMAGES
        };
        match DisplayImage::from_u8(previous_image) {
            Some(i) => i,
            None => DisplayImage::Ferris,
        }
    }

    pub fn image_location(&self) -> (r: Point)
        ensures
            r == self.anchor(),
    {
        match self {
            DisplayImage::Ferris => Point::new(150, 26),
            DisplayImage::Repo => Point::new(190, 26),
        }
    }

    /// The area erased before this image is drawn: it starts where the
    /// previous image of the rotation was anchored and covers the largest
    /// image footprint.
    pub fn clear_area(&self) -> (r: Rect)
        ensures
            r.origin == self.predecessor().anchor(),
            r.size.width == IMAGE_CLEAR_WIDTH,
            r.size.height == IMAGE_CLEAR_HEIGHT,
    {
        let at = self.previous().image_location();
        Rect::new(at.x, at.y, IMAGE_CLEAR_WIDTH, IMAGE_CLEAR_HEIGHT)
    }
}

/// Applying `next` as many times as there are images gives back the image
/// one started from.
pub proof fn lemma_next_cycles(image: DisplayImage)
    ensures
        image.advanced(NUMBER_OF_IMAGES as nat) == image,
{
    reveal_with_fuel(DisplayImage::advanced, 3);
}

/// `previous` undoes `next`, and `next` undoes `previous`.
pub proof fn lemma_previous_inverts_next(image: DisplayImage)
    ensures
        image.successor().predecessor() == image,
        image.predecessor().successor() == image,
{
}

} // verus!
