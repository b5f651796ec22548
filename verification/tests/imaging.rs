use notiser::imaging::{ImageLoadError, ImageLoader};

#[test]
fn image_errors_convert_to_load() {
    let err = image::ImageError::IoError(std::io::Error::other("missing"));
    let converted: ImageLoadError = err.into();
    assert!(matches!(converted, ImageLoadError::Load(_)));
    let _loader = ImageLoader::new();
}
