use vstd::prelude::*;

verus! {

/// `image::ImageError`, carried inside `ImageLoadError::Load`.
#[verifier::external_type_specification]
#[verifier::external_body]
pub struct ExImageError(image::ImageError);

/// Why an image could not be turned into a texture.
#[derive(Debug)]
pub enum ImageLoadError {
    Load(image::ImageError),
    UnsupportedFormat,
    SvgError,
}

impl From<image::ImageError> for ImageLoadError {
    fn from(e: image::ImageError) -> (r: Self) {
        ImageLoadError::Load(e)
    }
}

impl vstd::std_specs::convert::FromSpecImpl<image::ImageError> for ImageLoadError {
    open spec fn obeys_from_spec() -> bool {
        true
    }

    open spec fn from_spec(e: image::ImageError) -> Self {
        ImageLoadError::Load(e)
    }
}

/// Loads notification images.
pub struct ImageLoader;

impl ImageLoader {
    pub fn new() -> (l: Self) {
        ImageLoader
    }
}

} // verus!
