//! Image encoding and geometric transformation requests.

use vstd::prelude::*;

verus! {

/// File encoding used when saving a frame.
#[derive(Debug, Clone, Copy, PartialEq, Eq, Structural)]
pub enum ImageFormat {
    /// Uncompressed Windows bitmap.
    Bmp,
    /// Lossy JPEG encoding controlled by the quality argument.
    Jpeg,
    /// Lossless PNG encoding.
    Png,
    /// TIFF encoding.
    Tiff,
}

/// The native code of an image format.
pub open spec fn image_format_code(f: ImageFormat) -> i32 {
    match f {
        ImageFormat::Bmp => 1,
        ImageFormat::Jpeg => 2,
        ImageFormat::Png => 3,
        ImageFormat::Tiff => 4,
    }
}

impl ImageFormat {
    /// The code the native encoder expects: BMP 1, JPEG 2, PNG 3, TIFF 4.
    pub fn code(&self) -> (c: i32)
        ensures
            c == image_format_code(*self),
    {
        match self {
            ImageFormat::Bmp => 1,
            ImageFormat::Jpeg => 2,
            ImageFormat::Png => 3,
            ImageFormat::Tiff => 4,
        }
    }
}

/// Clockwise rotation angle.
#[derive(Debug, Clone, Copy, PartialEq, Eq, Structural)]
pub enum Rotation {
    /// Rotate clockwise by 90 degrees.
    Degrees90,
    /// Rotate by 180 degrees.
    Degrees180,
    /// Rotate clockwise by 270 degrees.
    Degrees270,
}

/// The native code of a rotation.
pub open spec fn rotation_code(r: Rotation) -> u32 {
    match r {
        Rotation::Degrees90 => 1,
        Rotation::Degrees180 => 2,
        Rotation::Degrees270 => 3,
    }
}

impl Rotation {
    /// The code the native image processor expects: 90° is 1, 180° 2, 270° 3.
    pub fn code(&self) -> (c: u32)
        ensures
            c == rotation_code(*self),
    {
        match self {
            Rotation::Degrees90 => 1,
            Rotation::Degrees180 => 2,
            Rotation::Degrees270 => 3,
        }
    }
}

/// Axis of a flip.
#[derive(Debug, Clone, Copy, PartialEq, Eq, Structural)]
pub enum FlipDirection {
    /// Mirror top to bottom.
    Vertical,
    /// Mirror left to right.
    Horizontal,
}

/// The native code of a flip direction.
pub open spec fn flip_code(d: FlipDirection) -> u32 {
    match d {
        FlipDirection::Vertical => 1,
        FlipDirection::Horizontal => 2,
    }
}

impl FlipDirection {
    /// The code the native image processor expects: vertical 1, horizontal 2.
    pub fn code(&self) -> (c: u32)
        ensures
            c == flip_code(*self),
    {
        match self {
            FlipDirection::Vertical => 1,
            FlipDirection::Horizontal => 2,
        }
    }
}

/// Distinct requests of one kind are sent as distinct native codes.
pub proof fn lemma_imaging_codes_distinct(
    f1: ImageFormat,
    f2: ImageFormat,
    r1: Rotation,
    r2: Rotation,
    d1: FlipDirection,
    d2: FlipDirection,
)
    ensures
        f1 != f2 ==> image_format_code(f1) != image_format_code(f2),
        r1 != r2 ==> rotation_code(r1) != rotation_code(r2),
        d1 != d2 ==> flip_code(d1) != flip_code(d2),
{
}

} // verus!
