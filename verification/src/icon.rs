//! Icon validation: a plugin icon must be a recognizable image of at most
//! 500x500 pixels and at most 20,000,000 bytes. Only the image header is
//! inspected, never the full pixel data.

use vstd::prelude::*;

verus! {

/// Largest accepted icon width, in pixels.
pub const MAX_ICON_WIDTH: usize = 500;

/// Largest accepted icon height, in pixels.
pub const MAX_ICON_HEIGHT: usize = 500;

/// Largest accepted icon payload, in bytes (20 MB).
pub const MAX_ICON_BYTES: usize = 20_000_000;

/// Why an icon was rejected.
#[derive(Debug, PartialEq, Eq)]
pub enum IconValidationError {
    TooBig { width: usize, height: usize },
    NotAnImage,
}

/// The (width, height) that image-header sniffing reads out of `bytes`, or
/// `None` when the bytes are not a recognizable image. Header sniffing is a
/// pure function of the bytes, so this is well defined.
pub uninterp spec fn image_dims(bytes: Seq<u8>) -> Option<(usize, usize)>;

/// Relies on `imagesize::blob_size`: it sniffs the image format from the
/// header bytes alone and returns the dimensions, `Err` when the format is
/// unrecognized or the header is truncated. Its result depends only on the
/// byte contents.
#[verifier::external_body]
fn blob_dimensions(icon: &[u8]) -> (r: Option<(usize, usize)>)
    ensures
        r == image_dims(icon@),
{
    match imagesize::blob_size(icon) {
        Ok(dim) => Some((dim.width, dim.height)),
        Err(_) => None,
    }
}

/// The verdict `validate_icon` must return on `icon`: `None` for an accepted
/// icon, otherwise the reason for rejection.
pub open spec fn icon_verdict(icon: Seq<u8>) -> Option<IconValidationError> {
    match image_dims(icon) {
        None => Some(IconValidationError::NotAnImage),
        Some(dims) => {
            let (width, height) = dims;
            if width > MAX_ICON_WIDTH || height > MAX_ICON_HEIGHT || icon.len() > MAX_ICON_BYTES {
                Some(IconValidationError::TooBig { width, height })
            } else {
                None
            }
        },
    }
}

/// Checks a prospective plugin icon. Returns `None` when the icon is
/// accepted; `NotAnImage` when the bytes are not a recognizable image;
/// `TooBig` when a dimension exceeds 500 pixels or the payload exceeds
/// 20,000,000 bytes. Pure: no I/O, and identical bytes always get the
/// identical verdict.
pub fn validate_icon(icon: &[u8]) -> (r: Option<IconValidationError>)
    ensures
        r == icon_verdict(icon@),
{
    match blob_dimensions(icon) {
        None => Some(IconValidationError::NotAnImage),
        Some(dims) => {
            let (width, height): (usize, usize) = dims;
            if width > MAX_ICON_WIDTH || height > MAX_ICON_HEIGHT || icon.len() > MAX_ICON_BYTES {
                Some(IconValidationError::TooBig { width, height })
            } else {
                None
            }
        },
    }
}

/// Validation is deterministic: two byte payloads with the same contents
/// always receive the same verdict, no matter how often they are checked.
pub proof fn lemma_icon_verdict_deterministic(a: Seq<u8>, b: Seq<u8>)
    requires
        a == b,
    ensures
        icon_verdict(a) == icon_verdict(b),
{
}

} // verus!
