use transcode::error::MediaError;
use transcode::geometry::FitMode;
use transcode::raster::{
    can_resize, decode, effective_quality, encode, resize, ImageFormat, Raster, DEFAULT_QUALITY,
};
use transcode::services::TranscodeService;

/// A raster whose pixel at (x, y) is (x, y, 7, 255).
fn grid(width: u32, height: u32) -> Raster {
    let mut pixels = Vec::new();
    for y in 0..height {
        for x in 0..width {
            pixels.extend_from_slice(&[x as u8, y as u8, 7, 255]);
        }
    }
    Raster::from_rgba(width, height, pixels).unwrap()
}

fn plain(width: u32, height: u32, colour: [u8; 4]) -> Raster {
    let mut pixels = Vec::new();
    for _ in 0..(width * height) {
        pixels.extend_from_slice(&colour);
    }
    Raster::from_rgba(width, height, pixels).unwrap()
}

#[test]
fn raster_needs_four_bytes_a_pixel() {
    assert!(Raster::from_rgba(2, 2, vec![0; 16]).is_some());
    assert!(Raster::from_rgba(2, 2, vec![0; 15]).is_none());
    assert!(Raster::from_rgba(2, 2, vec![0; 17]).is_none());
    assert!(Raster::from_rgba(0, 9, vec![]).is_some());
    assert!(Raster::from_rgba(u32::MAX, u32::MAX, vec![0; 4]).is_none());
    let r = Raster::from_rgba(3, 1, vec![1; 12]).unwrap();
    assert_eq!((r.width(), r.height()), (3, 1));
    assert_eq!(r.pixels(), &vec![1u8; 12]);
}

#[test]
fn format_table() {
    assert_eq!(ImageFormat::lookup("jpeg"), ImageFormat::Jpeg);
    assert_eq!(ImageFormat::lookup("jpg"), ImageFormat::Jpeg);
    assert_eq!(ImageFormat::lookup("png"), ImageFormat::Png);
    assert_eq!(ImageFormat::lookup("webp"), ImageFormat::WebP);
    assert_eq!(ImageFormat::lookup("bmp"), ImageFormat::Bmp);
    assert_eq!(ImageFormat::lookup("gif"), ImageFormat::Gif);
    assert_eq!(ImageFormat::lookup("tiff"), ImageFormat::Jpeg);
    assert_eq!(ImageFormat::lookup("PNG"), ImageFormat::Jpeg);
    assert_eq!(ImageFormat::for_name("PNG"), ImageFormat::Png);
    assert_eq!(ImageFormat::for_name("WebP"), ImageFormat::WebP);
    assert_eq!(ImageFormat::for_name(""), ImageFormat::Jpeg);
}

#[test]
fn quality_defaults_to_85() {
    assert_eq!(DEFAULT_QUALITY, 85);
    assert_eq!(effective_quality(None), 85);
    assert_eq!(effective_quality(Some(40)), 40);
    assert_eq!(effective_quality(Some(0)), 0);
}

#[test]
fn png_round_trip() {
    let image = grid(5, 3);
    let file = encode(&image, ImageFormat::Png, 85).unwrap();
    assert_eq!(&file[..8], &[0x89, b'P', b'N', b'G', 0x0d, 0x0a, 0x1a, 0x0a]);
    assert_eq!(decode(&file), Ok(image));
}

#[test]
fn bmp_round_trip() {
    let image = grid(4, 4);
    let file = encode(&image, ImageFormat::Bmp, 85).unwrap();
    assert_eq!(&file[..2], b"BM");
    assert_eq!(decode(&file), Ok(image));
}

#[test]
fn every_format_writes_its_magic() {
    let image = grid(8, 8);
    assert_eq!(&encode(&image, ImageFormat::Jpeg, 85).unwrap()[..2], &[0xff, 0xd8]);
    assert_eq!(&encode(&image, ImageFormat::Gif, 85).unwrap()[..4], b"GIF8");
    let webp = encode(&image, ImageFormat::WebP, 85).unwrap();
    assert_eq!(&webp[..4], b"RIFF");
    assert_eq!(&webp[8..12], b"WEBP");
}

#[test]
fn jpeg_takes_the_quality() {
    let image = grid(16, 16);
    let low = encode(&image, ImageFormat::Jpeg, 5).unwrap();
    let high = encode(&image, ImageFormat::Jpeg, 95).unwrap();
    assert_ne!(low, high);
    let decoded = decode(&high).unwrap();
    assert_eq!((decoded.width(), decoded.height()), (16, 16));
}

#[test]
fn bytes_that_are_no_image() {
    assert_eq!(decode(b""), Err(MediaError::DecodeError));
    assert_eq!(decode(b"not an image at all"), Err(MediaError::DecodeError));
    assert_eq!(decode(&[0x89, b'P', b'N', b'G']), Err(MediaError::DecodeError));
}

#[test]
fn image_without_pixels_has_no_file() {
    let empty = Raster::from_rgba(0, 4, vec![]).unwrap();
    for format in [
        ImageFormat::Jpeg,
        ImageFormat::Png,
        ImageFormat::WebP,
        ImageFormat::Bmp,
        ImageFormat::Gif,
    ] {
        assert_eq!(encode(&empty, format, 85), Err(MediaError::EncodeError));
    }
}

#[test]
fn crop_cuts_the_centre() {
    let image = grid(4, 2);
    assert!(can_resize(4, 2, 2, 2, FitMode::Crop));
    let cut = resize(&image, 2, 2, FitMode::Crop).unwrap();
    assert_eq!((cut.width(), cut.height()), (2, 2));
    assert_eq!(
        cut.pixels(),
        &vec![1, 0, 7, 255, 2, 0, 7, 255, 1, 1, 7, 255, 2, 1, 7, 255]
    );
}

#[test]
fn crop_cuts_rows_of_a_tall_image() {
    let image = grid(2, 6);
    let cut = resize(&image, 2, 2, FitMode::Crop).unwrap();
    assert_eq!(
        cut.pixels(),
        &vec![0, 2, 7, 255, 1, 2, 7, 255, 0, 3, 7, 255, 1, 3, 7, 255]
    );
}

#[test]
fn same_size_is_a_copy() {
    let image = grid(3, 3);
    assert_eq!(resize(&image, 3, 3, FitMode::Stretch), Ok(grid(3, 3)));
    assert_eq!(resize(&image, 3, 3, FitMode::Fit), Ok(grid(3, 3)));
    assert_eq!(resize(&image, 3, 3, FitMode::Crop), Ok(grid(3, 3)));
}

#[test]
fn resampling_changes_the_size() {
    let image = plain(2, 2, [10, 20, 30, 255]);
    let big = resize(&image, 4, 6, FitMode::Stretch).unwrap();
    assert_eq!((big.width(), big.height()), (4, 6));
    assert_eq!(big.pixels().len(), 4 * 4 * 6);
    assert_eq!(big, plain(4, 6, [10, 20, 30, 255]));
    let fitted = resize(&plain(8, 4, [1, 2, 3, 255]), 4, 4, FitMode::Fit).unwrap();
    assert_eq!((fitted.width(), fitted.height()), (4, 2));
    let cropped = resize(&plain(8, 4, [1, 2, 3, 255]), 2, 2, FitMode::Crop).unwrap();
    assert_eq!((cropped.width(), cropped.height()), (2, 2));
}

#[test]
fn resize_rejects_zero_sides() {
    let image = grid(3, 3);
    let service = TranscodeService::new();
    assert_eq!(resize(&image, 0, 3, FitMode::Fit), Err(MediaError::InvalidDimensions));
    assert_eq!(resize(&image, 3, 0, FitMode::Crop), Err(MediaError::InvalidDimensions));
    assert_eq!(service.resize_image(&image, 0, 0, "stretch"), Err(MediaError::InvalidDimensions));
    let empty = Raster::from_rgba(0, 0, vec![]).unwrap();
    assert_eq!(service.resize_image(&empty, 3, 3, "fit"), Err(MediaError::InvalidDimensions));
    assert_eq!(service.generate_thumbnail(&image, 0), Err(MediaError::InvalidDimensions));
}

#[test]
fn sizes_beyond_memory_are_refused() {
    assert!(!can_resize(1, 1, u32::MAX, u32::MAX, FitMode::Stretch));
    assert!(!can_resize(1, u32::MAX, u32::MAX, 1, FitMode::Crop));
    assert!(!can_resize(0, 1, 1, 1, FitMode::Stretch));
    assert!(can_resize(4000, 3000, 1920, 1080, FitMode::Crop));
    assert!(can_resize(1000, 1, 10, 10, FitMode::Fit));
}

#[test]
fn sliver_keeps_one_row() {
    let service = TranscodeService::new();
    let sliver = plain(100, 1, [9, 8, 7, 255]);
    let fitted = service.resize_image(&sliver, 2, 2, "fit").unwrap();
    assert_eq!((fitted.width(), fitted.height()), (2, 1));
    assert_eq!(fitted, plain(2, 1, [9, 8, 7, 255]));
    assert!(encode(&fitted, ImageFormat::Png, 85).is_ok());
}

#[test]
fn service_resizes_by_mode_name() {
    let service = TranscodeService::new();
    let image = grid(4, 2);
    let cut = service.resize_image(&image, 2, 2, "crop").unwrap();
    assert_eq!(Ok(cut), resize(&image, 2, 2, FitMode::Crop));
    let fitted = service.resize_image(&image, 2, 2, "fit").unwrap();
    assert_eq!((fitted.width(), fitted.height()), (2, 1));
    let stretched = service.resize_image(&image, 2, 2, "anything").unwrap();
    assert_eq!((stretched.width(), stretched.height()), (2, 2));
    assert_eq!(Ok(stretched), resize(&image, 2, 2, FitMode::Stretch));
}

#[test]
fn thumbnail_is_square() {
    let service = TranscodeService::new();
    let thumb = service.generate_thumbnail(&grid(6, 2), 3).unwrap();
    assert_eq!((thumb.width(), thumb.height()), (3, 3));
    assert_eq!(Ok(thumb), resize(&grid(6, 2), 3, 3, FitMode::Stretch));
}

#[test]
fn image_transcode() {
    let service = TranscodeService::new();
    let image = grid(5, 3);
    let png = encode(&image, ImageFormat::Png, 85).unwrap();
    let bmp = service.transcode_image(&png, "BMP", None).unwrap();
    assert_eq!(&bmp[..2], b"BM");
    assert_eq!(decode(&bmp), Ok(image.clone()));
    let jpeg = service.transcode_image(&png, "jpg", None).unwrap();
    assert_eq!(Ok(jpeg.clone()), encode(&image, ImageFormat::Jpeg, 85));
    let fallback = service.transcode_image(&png, "tiff", Some(85)).unwrap();
    assert_eq!(fallback, jpeg);
    let coarse = service.transcode_image(&png, "jpeg", Some(3)).unwrap();
    assert_ne!(coarse, jpeg);
    assert_eq!(service.transcode_image(b"garbage", "png", None), Err(MediaError::DecodeError));
}
