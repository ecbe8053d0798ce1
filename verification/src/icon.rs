//! Decoding the tray icons.
//!
//! An icon comes as a PNG image and goes to the tray as rows of RGBA
//! pixels. The decoding is the `image` crate's; that the pixels it
//! hands back fill the stated width and height is checked here, so that
//! an [`IconImage`] never claims a size its buffer does not have.

use image::ImageError;
use image::ImageFormat;
use vstd::prelude::*;

verus! {

/// Bytes per pixel.
pub const PIXEL_SIZE: usize = 4;

/// `image::ImageError`, the error of the `image` crate. Nothing is known
/// of its value.
#[verifier::external_type_specification]
#[verifier::external_body]
pub struct ExImageError(ImageError);

/// What the `image` crate's PNG decoder makes of an encoded image: the
/// RGBA pixels with the width and the height, or nothing where it
/// rejects the bytes.
pub uninterp spec fn decoded_image(encoded: Seq<u8>) -> Option<(Seq<u8>, nat, nat)>;

/// `image::load_from_memory_with_format` decodes the bytes in the format
/// it is told, here PNG; `into_rgba8`, `dimensions` and `into_raw` turn
/// what it returns into a pixel buffer with its width and height. With
/// the format given the crate consults neither its format detection nor
/// its registry of decoders, so the result depends on the bytes alone,
/// and that is all that is claimed of it.
#[verifier::external_body]
fn decode_rgba(encoded: &[u8]) -> (decoded: Result<(Vec<u8>, u32, u32), ImageError>)
    ensures
        match decoded {
            Ok((rgba, width, height)) => decoded_image(encoded@) == Some(
                (rgba@, width as nat, height as nat),
            ),
            Err(_) => decoded_image(encoded@) is None,
        },
{
    let pixels = image::load_from_memory_with_format(encoded, ImageFormat::Png)?.into_rgba8();
    let (width, height) = pixels.dimensions();
    Ok((pixels.into_raw(), width, height))
}

/// Why an icon could not be made.
#[derive(Clone, Copy, Debug, PartialEq, Eq, Structural)]
pub enum IconError {
    /// The bytes are not a PNG image that can be decoded.
    Undecodable,
    /// The pixel buffer does not hold four bytes for each pixel of the
    /// stated width and height.
    SizeMismatch,
}

/// Whether a buffer of `len` bytes holds exactly the RGBA pixels of an
/// image of the given size.
pub open spec fn fills(len: nat, width: nat, height: nat) -> bool {
    len == PIXEL_SIZE * width * height
}

/// What becomes of decoded pixels: an icon if they fill their size.
pub open spec fn icon_of_pixels(rgba: Seq<u8>, width: nat, height: nat) -> Result<
    IconImageView,
    IconError,
> {
    if fills(rgba.len(), width, height) {
        Ok(IconImageView { rgba, width, height })
    } else {
        Err(IconError::SizeMismatch)
    }
}

/// What becomes of encoded bytes, given what the decoder makes of them.
pub open spec fn icon_of_decoded(decoded: Option<(Seq<u8>, nat, nat)>) -> Result<
    IconImageView,
    IconError,
> {
    match decoded {
        None => Err(IconError::Undecodable),
        Some((rgba, width, height)) => icon_of_pixels(rgba, width, height),
    }
}

/// An icon as a mathematical value.
pub struct IconImageView {
    pub rgba: Seq<u8>,
    pub width: nat,
    pub height: nat,
}

/// An icon: rows of RGBA pixels that fill its width and height.
pub struct IconImage {
    rgba: Vec<u8>,
    width: u32,
    height: u32,
}

impl View for IconImage {
    type V = IconImageView;

    closed spec fn view(&self) -> IconImageView {
        IconImageView { rgba: self.rgba@, width: self.width as nat, height: self.height as nat }
    }
}

impl IconImage {
    #[verifier::type_invariant]
    spec fn filled(&self) -> bool {
        fills(self.rgba@.len(), self.width as nat, self.height as nat)
    }

    /// An icon of the given pixels, if they fill the given size.
    pub fn from_rgba(rgba: Vec<u8>, width: u32, height: u32) -> (icon: Result<
        IconImage,
        IconError,
    >)
        ensures
            match icon {
                Ok(image) => icon_of_pixels(rgba@, width as nat, height as nat) == Ok::<
                    IconImageView,
                    IconError,
                >(image@),
                Err(error) => icon_of_pixels(rgba@, width as nat, height as nat) == Err::<
                    IconImageView,
                    IconError,
                >(error),
            },
    {
        assert(width * height <= 0xffff_ffff * 0xffff_ffff) by (nonlinear_arith)
            requires
                width <= 0xffff_ffff,
                height <= 0xffff_ffff,
        ;
        let area: u64 = (width as u64) * (height as u64);
        let needed: u128 = (area as u128) * 4;
        assert(needed == PIXEL_SIZE * width * height) by (nonlinear_arith)
            requires
                area == width * height,
                needed == area * 4,
                PIXEL_SIZE == 4,
        ;
        if rgba.len() as u128 == needed {
            Ok(IconImage { rgba, width, height })
        } else {
            Err(IconError::SizeMismatch)
        }
    }

    /// Width in pixels.
    pub fn width(&self) -> (width: u32)
        ensures
            width == self@.width,
    {
        self.width
    }

    /// Height in pixels.
    pub fn height(&self) -> (height: u32)
        ensures
            height == self@.height,
    {
        self.height
    }

    /// The pixels, row by row, four bytes each.
    pub fn into_rgba(self) -> (rgba: Vec<u8>)
        ensures
            rgba@ == self@.rgba,
            fills(rgba@.len(), self@.width, self@.height),
    {
        proof {
            use_type_invariant(&self);
        }
        self.rgba
    }
}

/// Decodes an icon.
pub fn decode_icon(encoded: &[u8]) -> (icon: Result<IconImage, IconError>)
    ensures
        match icon {
            Ok(image) => icon_of_decoded(decoded_image(encoded@)) == Ok::<
                IconImageView,
                IconError,
            >(image@),
            Err(error) => icon_of_decoded(decoded_image(encoded@)) == Err::<
                IconImageView,
                IconError,
            >(error),
        },
{
    match decode_rgba(encoded) {
        Err(_) => Err(IconError::Undecodable),
        Ok((rgba, width, height)) => IconImage::from_rgba(rgba, width, height),
    }
}

} // verus!
