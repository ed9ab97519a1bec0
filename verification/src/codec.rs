use vstd::prelude::*;

use crate::handle::{HandleView, IconHandle};

verus! {

/// The native width, in pixels, of the image encoded by `data`, or `None`
/// when the bytes do not decode. A fixed byte sequence always decodes to the
/// same image, so this is a function of the bytes alone.
pub uninterp spec fn image_width_of(data: Seq<u8>) -> Option<u32>;

/// The 8-bit RGBA buffer obtained by decoding `data` and resampling it to
/// `size` x `size` pixels with a Lanczos-3 filter; a function of the bytes
/// and the requested size alone.
pub uninterp spec fn image_rgba_of(data: Seq<u8>, size: u32) -> Seq<u8>;

/// Relies on image::load_from_memory and DynamicImage::width: decoding a
/// fixed byte sequence is deterministic, and `width` reads the decoded
/// image's native width.
#[verifier::external_body]
fn probe_image_width(data: &Vec<u8>) -> (r: Option<u32>)
    ensures
        r == image_width_of(data@),
{
    match image::load_from_memory(data.as_slice()) {
        Ok(img) => Some(img.width()),
        Err(_) => None,
    }
}

/// Relies on image::load_from_memory, DynamicImage::resize_exact with the
/// Lanczos3 filter, and into_rgba8: the pipeline succeeds exactly when the
/// bytes decode, and the raw buffer of a `size` x `size` RGBA image holds
/// four bytes per pixel.
#[verifier::external_body]
fn resize_image_rgba(data: &Vec<u8>, size: u32) -> (r: Option<Vec<u8>>)
    requires
        size <= u16::MAX as u32,
    ensures
        r is Some <==> image_width_of(data@) is Some,
        r matches Some(v) ==> v@ == image_rgba_of(data@, size) && v@.len() == 4 * size * size,
{
    match image::load_from_memory(data.as_slice()) {
        Ok(img) => Some(
            img.resize_exact(size, size, image::imageops::FilterType::Lanczos3)
                .into_rgba8()
                .into_raw(),
        ),
        Err(_) => None,
    }
}

/// The handle a loaded asset yields at the requested size: decoded and
/// resampled pixels when the asset decodes and its native width differs from
/// `size`; the raw encoded bytes when the width already matches (no needless
/// recompression) or when decoding fails (the renderer-native escape hatch).
pub open spec fn scaled_handle_spec(data: Seq<u8>, size: u16) -> HandleView {
    match image_width_of(data) {
        Some(w) => if w != size as u32 {
            HandleView::Pixels {
                width: size as u32,
                height: size as u32,
                rgba: image_rgba_of(data, size as u32),
            }
        } else {
            HandleView::Raw { data }
        },
        None => HandleView::Raw { data },
    }
}

/// Decode `data` and build the handle [`scaled_handle_spec`] describes.
/// A resampled result is an 8-bit RGBA buffer: four bytes per pixel of the
/// size x size square.
pub fn scaled_handle(data: &Vec<u8>, size: u16) -> (r: IconHandle)
    ensures
        r@ == scaled_handle_spec(data@, size),
        (r@ matches HandleView::Pixels { rgba, .. } ==> rgba.len() == 4 * (size as int) * (
        size as int)),
{
    match probe_image_width(data) {
        Some(w) => {
            if w != size as u32 {
                match resize_image_rgba(data, size as u32) {
                    Some(rgba) => IconHandle::Pixels {
                        width: size as u32,
                        height: size as u32,
                        rgba,
                    },
                    None => vstd::pervasive::unreached(),
                }
            } else {
                IconHandle::Raw { data: crate::handle::clone_bytes(data) }
            }
        },
        None => IconHandle::Raw { data: crate::handle::clone_bytes(data) },
    }
}

/// Law: when an asset's native width equals the requested size, the resize
/// path is skipped and the handle is built from the raw encoded bytes.
pub proof fn lemma_native_size_skips_resize(data: Seq<u8>, size: u16)
    requires
        image_width_of(data) == Some(size as u32),
    ensures
        scaled_handle_spec(data, size) == (HandleView::Raw { data }),
{
}

} // verus!
