use femtovg::image::{ImageId, ImageInfo, ImageSource, ImageStore, PixelFormat};
use femtovg::renderer::Renderer;
use femtovg::void::Void;
use femtovg::ErrorKind;

fn rgba_info(width: usize, height: usize) -> ImageInfo {
    ImageInfo { width, height, format: PixelFormat::Rgba8 }
}

fn rgba_source(width: usize, height: usize) -> ImageSource {
    ImageSource::new(PixelFormat::Rgba8, width, height, vec![0u8; width * height * 4])
        .expect("consistent payload")
}

#[test]
fn alloc_then_delete_leaves_no_entry() {
    let mut void = Void::new();
    let mut store = ImageStore::new();
    let id = store.alloc_image(&mut void, rgba_info(10, 10)).expect("headless alloc succeeds");
    assert!(store.info(id).is_ok());
    store.remove(&mut void, id);
    assert!(matches!(store.info(id), Err(ErrorKind::ImageIdNotFound)));
    assert!(store.get(id).is_none());
}

#[test]
fn alloc_never_reuses_ids() {
    let mut void = Void::new();
    let mut store = ImageStore::new();
    let first = store.alloc_image(&mut void, rgba_info(2, 2)).unwrap();
    store.remove(&mut void, first);
    let second = store.alloc_image(&mut void, rgba_info(2, 2)).unwrap();
    assert_ne!(first, second);
    assert!(matches!(store.info(first), Err(ErrorKind::ImageIdNotFound)));
    assert_eq!(store.info(second).unwrap(), rgba_info(2, 2));
}

#[test]
fn update_out_of_bounds_fails_and_uploads_nothing() {
    let mut void = Void::new();
    let mut store = ImageStore::new();
    let id = store.alloc_image(&mut void, rgba_info(10, 10)).unwrap();
    let data = rgba_source(4, 4);
    let result = store.update(&mut void, id, &data, 8, 8);
    assert!(matches!(result, Err(ErrorKind::ImageUpdateOutOfBounds)));
    assert_eq!(store.info(id).unwrap(), rgba_info(10, 10));
    assert!(void.trace.is_empty());
}

#[test]
fn update_region_may_touch_the_edge() {
    let mut void = Void::new();
    let mut store = ImageStore::new();
    let id = store.alloc_image(&mut void, rgba_info(10, 10)).unwrap();
    let data = rgba_source(4, 4);
    assert!(store.update(&mut void, id, &data, 6, 6).is_ok());
}

#[test]
fn update_with_different_format_fails_and_uploads_nothing() {
    let mut void = Void::new();
    let mut store = ImageStore::new();
    let id = store.alloc_image(&mut void, rgba_info(10, 10)).unwrap();
    let gray = ImageSource::new(PixelFormat::Gray8, 4, 4, vec![0u8; 16]).unwrap();
    let result = store.update(&mut void, id, &gray, 0, 0);
    assert!(matches!(result, Err(ErrorKind::ImageUpdateWithDifferentFormat)));
    assert_eq!(store.info(id).unwrap(), rgba_info(10, 10));
}

#[test]
fn update_unknown_id_fails_with_not_found() {
    let mut void = Void::new();
    let mut store = ImageStore::new();
    let data = rgba_source(1, 1);
    let result = store.update(&mut void, ImageId(42), &data, 0, 0);
    assert!(matches!(result, Err(ErrorKind::ImageIdNotFound)));
}

#[test]
fn remove_of_dead_id_is_harmless() {
    let mut void = Void::new();
    let mut store = ImageStore::new();
    let id = store.alloc_image(&mut void, rgba_info(3, 3)).unwrap();
    store.remove(&mut void, ImageId(999));
    assert_eq!(store.info(id).unwrap(), rgba_info(3, 3));
}

#[test]
fn image_source_checks_payload_size() {
    assert!(ImageSource::new(PixelFormat::Rgba8, 2, 2, vec![0u8; 16]).is_some());
    assert!(ImageSource::new(PixelFormat::Rgba8, 2, 2, vec![0u8; 15]).is_none());
    assert!(ImageSource::new(PixelFormat::Rgb8, 2, 2, vec![0u8; 12]).is_some());
    assert!(ImageSource::new(PixelFormat::Gray8, 2, 2, vec![0u8; 4]).is_some());
}

#[test]
fn pixel_formats_know_their_size() {
    assert_eq!(PixelFormat::Rgba8.bytes_per_pixel(), 4);
    assert_eq!(PixelFormat::Rgb8.bytes_per_pixel(), 3);
    assert_eq!(PixelFormat::Gray8.bytes_per_pixel(), 1);
}

#[test]
fn screenshot_fails_on_headless_backend() {
    let mut void = Void::new();
    assert!(matches!(void.screenshot(), Err(ErrorKind::GeneralError(_))));
}

#[test]
fn io_error_wraps_into_error_kind() {
    let err = std::io::Error::other("readback failed");
    let kind = ErrorKind::from(err);
    assert!(matches!(kind, ErrorKind::IoError(_)));
}

#[test]
fn image_error_wraps_into_error_kind() {
    let err = image::ImageError::IoError(std::io::Error::other("decode failed"));
    let kind = ErrorKind::from(err);
    assert!(matches!(kind, ErrorKind::ImageError(_)));
}
