use ajam::images::{resolve_image_map, ButtonImageLoader, ImageCache, ImageError};
use image::DynamicImage;

fn bitmap(side: u32) -> DynamicImage {
    DynamicImage::new_rgb8(side, side)
}

#[test]
fn test_cache_repeated_lookup_hits() {
    let mut cache = ImageCache::new(4);
    assert!(cache.is_empty());
    cache.put("icons/a.png".to_string(), bitmap(1));
    assert_eq!(cache.len(), 1);
    let first = cache.get("icons/a.png").unwrap();
    let second = cache.get("icons/a.png").unwrap();
    assert_eq!(first, bitmap(1));
    assert_eq!(second, bitmap(1));
    assert_eq!(cache.len(), 1);
}

#[test]
fn test_cache_miss() {
    let mut cache = ImageCache::new(4);
    cache.put("icons/a.png".to_string(), bitmap(1));
    assert!(cache.get("icons/b.png").is_none());
}

#[test]
fn test_cache_put_replaces() {
    let mut cache = ImageCache::new(4);
    cache.put("icons/a.png".to_string(), bitmap(1));
    cache.put("icons/a.png".to_string(), bitmap(2));
    assert_eq!(cache.len(), 1);
    assert_eq!(cache.get("icons/a.png").unwrap(), bitmap(2));
}

#[test]
fn test_cache_evicts_least_recently_used() {
    let mut cache = ImageCache::new(2);
    cache.put("a".to_string(), bitmap(1));
    cache.put("b".to_string(), bitmap(2));
    // touch "a" so that "b" becomes the least recently used entry
    assert!(cache.get("a").is_some());
    cache.put("c".to_string(), bitmap(3));
    assert_eq!(cache.len(), 2);
    assert!(cache.get("b").is_none());
    assert_eq!(cache.get("a").unwrap(), bitmap(1));
    assert_eq!(cache.get("c").unwrap(), bitmap(3));
}

#[test]
fn test_cache_eviction_in_insertion_order() {
    let mut cache = ImageCache::new(2);
    cache.put("a".to_string(), bitmap(1));
    cache.put("b".to_string(), bitmap(2));
    cache.put("c".to_string(), bitmap(3));
    assert!(cache.get("a").is_none());
    assert!(cache.get("b").is_some());
    assert!(cache.get("c").is_some());
}

#[test]
fn test_default_image_covers_every_device_name() {
    let images = vec![("default".to_string(), "icons/fallback.png".to_string())];
    assert_eq!(resolve_image_map(&images, "Any Speakers").unwrap(), "icons/fallback.png");
    assert_eq!(resolve_image_map(&images, "").unwrap(), "icons/fallback.png");
    assert_eq!(resolve_image_map(&images, "default").unwrap(), "icons/fallback.png");
}

#[test]
fn test_named_device_image_wins_over_default() {
    let images = vec![
        ("default".to_string(), "icons/fallback.png".to_string()),
        ("USB Speakers".to_string(), "icons/usb.png".to_string()),
    ];
    assert_eq!(resolve_image_map(&images, "USB Speakers").unwrap(), "icons/usb.png");
    assert_eq!(resolve_image_map(&images, "Other").unwrap(), "icons/fallback.png");
}

#[test]
fn test_image_map_without_default_is_rejected() {
    let images = vec![("USB Speakers".to_string(), "icons/usb.png".to_string())];
    let err = resolve_image_map(&images, "Laptop Speakers").unwrap_err();
    assert!(matches!(err, ImageError::DefaultImageNotFound(k) if k == "Laptop Speakers"));
}

#[test]
fn test_loader_returns_cached_bitmap_without_decoding() {
    // the path does not exist on disk, so any attempt to decode would
    // fail: a hit must serve the cached bitmap untouched
    let loader = ButtonImageLoader::new("/nonexistent-profile-dir".to_string());
    let mut cache = ImageCache::new(2);
    cache.put("/nonexistent-profile-dir/icon.png".to_string(), bitmap(7));
    let img = loader.open(&mut cache, "icon.png").unwrap();
    assert_eq!(img, bitmap(7));
    assert_eq!(cache.len(), 1);
}

#[test]
fn test_cached_default_image_serves_every_device_name() {
    // the keyed choice declares only a default entry; once its bitmap is
    // cached, every device name yields that bitmap, decode-free
    let loader = ButtonImageLoader::new("/nonexistent-profile-dir".to_string());
    let mut cache = ImageCache::new(2);
    cache.put(
        "/nonexistent-profile-dir/imgs/fallback.png".to_string(),
        bitmap(5),
    );
    let images = vec![("default".to_string(), "imgs/fallback.png".to_string())];
    let a = loader.open_from_image_map(&mut cache, &images, "USB Speakers").unwrap();
    let b = loader.open_from_image_map(&mut cache, &images, "Laptop Speakers").unwrap();
    assert_eq!(a, bitmap(5));
    assert_eq!(b, bitmap(5));
}

#[test]
fn test_loader_reports_missing_file() {
    let loader = ButtonImageLoader::new("/nonexistent-profile-dir".to_string());
    let mut cache = ImageCache::new(2);
    let err = loader.open(&mut cache, "missing.png").unwrap_err();
    assert!(matches!(
        err,
        ImageError::LoadError(path, _) if path == "/nonexistent-profile-dir/missing.png"
    ));
    assert!(cache.is_empty());
}

#[test]
fn test_loader_map_without_default_leaves_cache_alone() {
    let loader = ButtonImageLoader::new("/nonexistent-profile-dir".to_string());
    let mut cache = ImageCache::new(2);
    let images = vec![("X".to_string(), "x.png".to_string())];
    let err = loader.open_from_image_map(&mut cache, &images, "Y").unwrap_err();
    assert!(matches!(err, ImageError::DefaultImageNotFound(k) if k == "Y"));
    assert!(cache.is_empty());
}
