//! The calls into the `image` crate: downsampling a tile and encoding a raster
//! as PNG. Both results are named, since each is a fixed function of its
//! arguments that takes far more than a few lines to write down.

use vstd::prelude::*;

verus! {

/// The RGBA raster that a Gaussian resize turns `raster`, a square of side
/// `from_side`, into: a square of side `to_side`.
pub uninterp spec fn gaussian_resized(from_side: u32, raster: Seq<u8>, to_side: u32) -> Seq<u8>;

/// The PNG file that encodes `raster`, an RGBA raster of `width` by `height` pixels.
pub uninterp spec fn png_encoding(width: u32, height: u32, raster: Seq<u8>) -> Seq<u8>;

/// Relies on `image::imageops::resize` with `FilterType::Gaussian`: it returns a
/// new image of the requested size, computed from the source pixels alone.
#[verifier::external_body]
pub(crate) fn resize_gaussian(from_side: u32, raster: &Vec<u8>, to_side: u32) -> (r: Vec<u8>)
    requires
        from_side > 0,
        to_side > 0,
        raster@.len() == from_side * from_side * 4,
    ensures
        r@ == gaussian_resized(from_side, raster@, to_side),
        r@.len() == to_side * to_side * 4,
{
    let source = image::RgbaImage::from_raw(from_side, from_side, raster.clone())
        .expect("the raster holds from_side * from_side pixels");
    image::imageops::resize(&source, to_side, to_side, image::imageops::FilterType::Gaussian)
        .into_raw()
}

/// Relies on `image::DynamicImage::write_to` with `ImageOutputFormat::Png`: it
/// writes the PNG file of an RGBA image into the byte vector; writing into a
/// vector does not fail.
#[verifier::external_body]
pub(crate) fn encode_png(width: u32, height: u32, raster: &Vec<u8>) -> (r: Vec<u8>)
    requires
        width > 0,
        height > 0,
        raster@.len() == width * height * 4,
    ensures
        r@ == png_encoding(width, height, raster@),
{
    let source = image::RgbaImage::from_raw(width, height, raster.clone())
        .expect("the raster holds width * height pixels");
    let mut bytes: Vec<u8> = Vec::new();
    image::DynamicImage::ImageRgba8(source)
        .write_to(&mut bytes, image::ImageOutputFormat::Png)
        .expect("encoding into a vector does not fail");
    bytes
}

} // verus!
