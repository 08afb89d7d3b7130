use transcode::error::MediaError;
use transcode::geometry::{resolve, scaled_size, FitMode, GeometryRequest, GeometryResult};

#[test]
fn fit_800x600_into_400x400() {
    let g = resolve(800, 600, 400, 400, FitMode::Fit).unwrap();
    assert_eq!(g, GeometryResult { width: 400, height: 300, crop_origin: None });
}

#[test]
fn crop_800x600_into_400x400() {
    let g = resolve(800, 600, 400, 400, FitMode::Crop).unwrap();
    assert_eq!(g.width, 400);
    assert_eq!(g.height, 400);
    assert_eq!(g.crop_origin, Some((66, 0)));
    assert_eq!(scaled_size(800, 600, 400, 400, FitMode::Crop), Ok((533, 400)));
}

#[test]
fn stretch_takes_the_box() {
    let g = resolve(800, 600, 123, 457, FitMode::Stretch).unwrap();
    assert_eq!(g, GeometryResult { width: 123, height: 457, crop_origin: None });
    assert_eq!(scaled_size(800, 600, 123, 457, FitMode::Stretch), Ok((123, 457)));
}

#[test]
fn fit_portrait_source_is_bound_by_height() {
    let g = resolve(600, 800, 400, 400, FitMode::Fit).unwrap();
    assert_eq!(g, GeometryResult { width: 300, height: 400, crop_origin: None });
}

#[test]
fn fit_scales_up_as_well() {
    let g = resolve(100, 50, 300, 300, FitMode::Fit).unwrap();
    assert_eq!(g, GeometryResult { width: 300, height: 150, crop_origin: None });
}

#[test]
fn fit_floors_the_free_side() {
    let g = resolve(3, 2, 2, 2, FitMode::Fit).unwrap();
    assert_eq!(g, GeometryResult { width: 2, height: 1, crop_origin: None });
}

#[test]
fn fit_of_a_sliver_keeps_one_pixel() {
    let g = resolve(1000, 1, 10, 10, FitMode::Fit).unwrap();
    assert_eq!(g, GeometryResult { width: 10, height: 1, crop_origin: None });
    assert_eq!(scaled_size(1000, 1, 10, 10, FitMode::Fit), Ok((10, 1)));
    let tall = resolve(1, 1000, 10, 10, FitMode::Fit).unwrap();
    assert_eq!(tall, GeometryResult { width: 1, height: 10, crop_origin: None });
    let thin = resolve(u32::MAX, 1, 1, 1, FitMode::Fit).unwrap();
    assert_eq!(thin, GeometryResult { width: 1, height: 1, crop_origin: None });
}

#[test]
fn resolved_sides_are_positive() {
    let sides = [1u32, 2, 3, 7, 50, 333, 1000, u32::MAX];
    for mode in [FitMode::Stretch, FitMode::Fit, FitMode::Crop] {
        for &sw in &sides {
            for &sh in &sides {
                for &tw in &sides {
                    for &th in &sides {
                        let g = resolve(sw, sh, tw, th, mode).unwrap();
                        assert!(g.width >= 1 && g.height >= 1);
                        let (iw, ih) = scaled_size(sw, sh, tw, th, mode).unwrap();
                        assert!(iw >= 1 && ih >= 1);
                    }
                }
            }
        }
    }
}

#[test]
fn crop_scales_up_and_centres() {
    let g = resolve(100, 50, 300, 300, FitMode::Crop).unwrap();
    assert_eq!(g, GeometryResult { width: 300, height: 300, crop_origin: Some((150, 0)) });
    assert_eq!(scaled_size(100, 50, 300, 300, FitMode::Crop), Ok((600, 300)));
}

#[test]
fn crop_floors_the_origin() {
    let g = resolve(3, 2, 2, 2, FitMode::Crop).unwrap();
    assert_eq!(g, GeometryResult { width: 2, height: 2, crop_origin: Some((0, 0)) });
    assert_eq!(scaled_size(3, 2, 2, 2, FitMode::Crop), Ok((3, 2)));
}

#[test]
fn crop_of_portrait_source_cuts_rows() {
    let g = resolve(600, 800, 400, 400, FitMode::Crop).unwrap();
    assert_eq!(g, GeometryResult { width: 400, height: 400, crop_origin: Some((0, 66)) });
}

#[test]
fn same_aspect_needs_no_cut() {
    let g = resolve(1920, 1080, 1280, 720, FitMode::Crop).unwrap();
    assert_eq!(g, GeometryResult { width: 1280, height: 720, crop_origin: Some((0, 0)) });
    let f = resolve(1920, 1080, 1280, 720, FitMode::Fit).unwrap();
    assert_eq!(f, GeometryResult { width: 1280, height: 720, crop_origin: None });
}

#[test]
fn largest_sides_do_not_overflow() {
    let max = u32::MAX;
    let f = resolve(max, max, max, max, FitMode::Fit).unwrap();
    assert_eq!(f, GeometryResult { width: max, height: max, crop_origin: None });
    let c = resolve(1, max, max, 1, FitMode::Crop).unwrap();
    assert_eq!(c.width, max);
    assert_eq!(c.height, 1);
    assert_eq!(c.crop_origin, Some((0, 9223372032559808512)));
    assert_eq!(scaled_size(1, max, max, 1, FitMode::Crop), Ok((4294967295, 18446744065119617025)));
}

#[test]
fn zero_dimension_is_rejected() {
    for mode in [FitMode::Stretch, FitMode::Fit, FitMode::Crop] {
        assert_eq!(resolve(0, 600, 400, 400, mode), Err(MediaError::InvalidDimensions));
        assert_eq!(resolve(800, 0, 400, 400, mode), Err(MediaError::InvalidDimensions));
        assert_eq!(resolve(800, 600, 0, 400, mode), Err(MediaError::InvalidDimensions));
        assert_eq!(resolve(800, 600, 400, 0, mode), Err(MediaError::InvalidDimensions));
        assert_eq!(scaled_size(800, 600, 400, 0, mode), Err(MediaError::InvalidDimensions));
    }
}

#[test]
fn mode_names() {
    assert_eq!(FitMode::parse("fit"), FitMode::Fit);
    assert_eq!(FitMode::parse("crop"), FitMode::Crop);
    assert_eq!(FitMode::parse("stretch"), FitMode::Stretch);
    assert_eq!(FitMode::parse(""), FitMode::Stretch);
    assert_eq!(FitMode::parse("Fit"), FitMode::Stretch);
    assert_eq!(FitMode::parse("fit "), FitMode::Stretch);
}

#[test]
fn request_resolves_as_its_parts() {
    let request = GeometryRequest {
        source_width: 800,
        source_height: 600,
        target_width: 400,
        target_height: 400,
        mode: FitMode::Crop,
    };
    assert_eq!(request.resolve(), resolve(800, 600, 400, 400, FitMode::Crop));
}

#[test]
fn fit_stays_in_the_box_and_keeps_the_aspect() {
    let sides = [1u32, 2, 3, 7, 50, 333, 1000];
    for &sw in &sides {
        for &sh in &sides {
            for &tw in &sides {
                for &th in &sides {
                    let g = resolve(sw, sh, tw, th, FitMode::Fit).unwrap();
                    assert!(1 <= g.width && g.width <= tw);
                    assert!(1 <= g.height && g.height <= th);
                    let (w, h) = (g.width as u64, g.height as u64);
                    let (sw, sh) = (sw as u64, sh as u64);
                    let by_width = g.width == tw
                        && (h - 1) * sw < w * sh
                        && w * sh < (h + 1) * sw
                        && (h * sw <= w * sh || h == 1);
                    let by_height = g.height == th
                        && (w - 1) * sh < h * sw
                        && h * sw < (w + 1) * sh
                        && (w * sh <= h * sw || w == 1);
                    assert!(by_width || by_height);
                }
            }
        }
    }
}

#[test]
fn crop_box_lies_in_the_intermediate_image() {
    let sides = [1u32, 2, 3, 7, 50, 333, 1000];
    for &sw in &sides {
        for &sh in &sides {
            for &tw in &sides {
                for &th in &sides {
                    let g = resolve(sw, sh, tw, th, FitMode::Crop).unwrap();
                    let (iw, ih) = scaled_size(sw, sh, tw, th, FitMode::Crop).unwrap();
                    let (x, y) = g.crop_origin.unwrap();
                    assert_eq!((g.width, g.height), (tw, th));
                    assert!(x + tw as u64 <= iw);
                    assert!(y + th as u64 <= ih);
                }
            }
        }
    }
}
