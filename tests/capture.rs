use base64::Engine;
use screen_capture::codec::{encode_raster, package_png};
use screen_capture::error::CaptureError;
use screen_capture::pipeline::{capture_region_base64, process_frame, select_primary};
use screen_capture::raster::Raster;
use screen_capture::region::{crop_rect, CropRect};

fn pattern(width: u32, height: u32) -> Vec<u8> {
    let mut v = Vec::new();
    for y in 0..height {
        for x in 0..width {
            v.push(x as u8);
            v.push(y as u8);
            v.push((x * 7 + y * 3) as u8);
            v.push(255);
        }
    }
    v
}

fn decode(text: &str) -> image::RgbaImage {
    let png = base64::engine::general_purpose::STANDARD.decode(text).unwrap();
    image::load_from_memory_with_format(&png, image::ImageFormat::Png).unwrap().to_rgba8()
}

#[test]
fn default_region_takes_right_fifth() {
    let r = crop_rect(1000, 500, None);
    assert_eq!(r, CropRect { x: 800, y: 0, w: 200, h: 500 });
}

#[test]
fn default_region_floors_left_edge() {
    assert_eq!(crop_rect(1001, 3, None), CropRect { x: 800, y: 0, w: 201, h: 3 });
    assert_eq!(crop_rect(1, 1, None), CropRect { x: 0, y: 0, w: 1, h: 1 });
    assert_eq!(crop_rect(0, 0, None), CropRect { x: 0, y: 0, w: 0, h: 0 });
}

#[test]
fn explicit_region_is_clamped() {
    let r = crop_rect(100, 100, Some([-5, -5, 0, -1]));
    assert_eq!(r, CropRect { x: 0, y: 0, w: 1, h: 1 });
    let r = crop_rect(100, 100, Some([3, 4, 5, 6]));
    assert_eq!(r, CropRect { x: 3, y: 4, w: 5, h: 6 });
}

#[test]
fn no_screens_is_reported() {
    let r = select_primary::<u32>(Ok(Vec::new()));
    assert!(matches!(r, Err(CaptureError::NoScreens)));
}

#[test]
fn first_screen_is_selected() {
    let r = select_primary(Ok(vec![7u32, 8, 9]));
    assert!(matches!(r, Ok(7)));
}

#[test]
fn failed_listing_is_capture_failure() {
    let r = select_primary::<u32>(Err("display server gone".to_string()));
    match r {
        Err(CaptureError::CaptureFailed(m)) => assert_eq!(m, "display server gone"),
        _ => panic!("expected CaptureFailed"),
    }
}

#[test]
fn region_past_edge_is_refused() {
    let frame = Ok((100u32, 100u32, vec![0u8; 100 * 100 * 4]));
    let r = process_frame(frame, Some([50, 50, 200, 200]));
    assert!(matches!(r, Err(CaptureError::CaptureFailed(_))));
}

#[test]
fn region_touching_edge_is_accepted() {
    let frame = Ok((10u32, 8u32, pattern(10, 8)));
    let (text, w, h) = process_frame(frame, Some([6, 5, 4, 3])).unwrap();
    assert_eq!((w, h), (4, 3));
    let img = decode(&text);
    assert_eq!(img.dimensions(), (4, 3));
}

#[test]
fn failed_capture_is_passed_on() {
    let r = process_frame(Err("no permission".to_string()), None);
    match r {
        Err(CaptureError::CaptureFailed(m)) => assert_eq!(m, "no permission"),
        _ => panic!("expected CaptureFailed"),
    }
}

#[test]
fn malformed_buffer_is_capture_failure() {
    assert!(matches!(Raster::from_raw(2, 2, vec![0u8; 15]), Err(CaptureError::CaptureFailed(_))));
    assert!(matches!(Raster::from_raw(2, 2, vec![0u8; 17]), Err(CaptureError::CaptureFailed(_))));
    let r = process_frame(Ok((3, 3, vec![0u8; 35])), None);
    assert!(matches!(r, Err(CaptureError::CaptureFailed(_))));
}

#[test]
fn crop_copies_window_pixels() {
    let src = Raster::from_raw(5, 4, pattern(5, 4)).unwrap();
    let cut = src.crop(1, 2, 3, 2).unwrap();
    assert_eq!((cut.width(), cut.height()), (3, 2));
    let p = cut.pixels();
    assert_eq!(p.len(), 24);
    for j in 0..2u32 {
        for i in 0..3u32 {
            let k = ((j * 3 + i) * 4) as usize;
            assert_eq!(p[k], (1 + i) as u8);
            assert_eq!(p[k + 1], (2 + j) as u8);
            assert_eq!(p[k + 2], ((1 + i) * 7 + (2 + j) * 3) as u8);
        }
    }
    assert!(matches!(src.crop(3, 0, 3, 1), Err(CaptureError::CaptureFailed(_))));
    assert!(matches!(src.crop(0, 4, 1, 1), Err(CaptureError::CaptureFailed(_))));
}

#[test]
fn round_trip_gives_cropped_pixels() {
    let data = pattern(10, 8);
    let src = Raster::from_raw(10, 8, data.clone()).unwrap();
    let (text, w, h) = capture_region_base64(&src, Some([2, 3, 4, 2])).unwrap();
    assert_eq!((w, h), (4, 2));
    let img = decode(&text);
    assert_eq!(img.dimensions(), (w, h));
    for j in 0..h {
        for i in 0..w {
            let k = (((3 + j) * 10 + 2 + i) * 4) as usize;
            assert_eq!(img.get_pixel(i, j).0, [data[k], data[k + 1], data[k + 2], data[k + 3]]);
        }
    }
}

#[test]
fn default_round_trip_gives_right_strip() {
    let data = pattern(10, 4);
    let (text, w, h) = process_frame(Ok((10, 4, data.clone())), None).unwrap();
    assert_eq!((w, h), (2, 4));
    let img = decode(&text);
    for j in 0..h {
        for i in 0..w {
            let k = ((j * 10 + 8 + i) * 4) as usize;
            assert_eq!(img.get_pixel(i, j).0[0], data[k]);
        }
    }
}

#[test]
fn repeated_capture_is_identical() {
    let src = Raster::from_raw(6, 6, pattern(6, 6)).unwrap();
    let a = capture_region_base64(&src, Some([1, 1, 3, 3])).unwrap();
    let b = capture_region_base64(&src, Some([1, 1, 3, 3])).unwrap();
    assert_eq!(a, b);
    let c = process_frame(Ok((6, 6, pattern(6, 6))), Some([1, 1, 3, 3])).unwrap();
    assert_eq!(a, c);
}

#[test]
fn static_frames_give_same_pixels() {
    let first = process_frame(Ok((8, 8, pattern(8, 8))), Some([0, 0, 4, 4])).unwrap();
    let mut changed = pattern(8, 8);
    changed[(7 * 8 + 7) * 4] = 99;
    let second = process_frame(Ok((8, 8, changed)), Some([0, 0, 4, 4])).unwrap();
    assert_eq!(decode(&first.0).into_raw(), decode(&second.0).into_raw());
}

#[test]
fn encode_raster_is_png_in_base64() {
    let src = Raster::from_raw(2, 1, vec![1, 2, 3, 4, 5, 6, 7, 8]).unwrap();
    let (text, w, h) = encode_raster(&src).unwrap();
    assert_eq!((w, h), (2, 1));
    let png = base64::engine::general_purpose::STANDARD.decode(&text).unwrap();
    assert_eq!(&png[1..4], b"PNG");
    assert_eq!(text.len() % 4, 0);
    assert_eq!(decode(&text).into_raw(), vec![1, 2, 3, 4, 5, 6, 7, 8]);
}

#[test]
fn package_png_base64_encodes() {
    let (text, w, h) = package_png(Ok(vec![1, 2, 3]), 5, 6).unwrap();
    assert_eq!((text.as_str(), w, h), ("AQID", 5, 6));
    let (text, _, _) = package_png(Ok(vec![0xff]), 1, 1).unwrap();
    assert_eq!(text, "/w==");
    let (text, _, _) = package_png(Ok(Vec::new()), 0, 0).unwrap();
    assert_eq!(text, "");
}

#[test]
fn package_png_failure_is_encode_failure() {
    match package_png(Err("out of memory".to_string()), 1, 1) {
        Err(CaptureError::EncodeFailed(m)) => assert_eq!(m, "out of memory"),
        _ => panic!("expected EncodeFailed"),
    }
}

#[test]
fn error_messages() {
    assert_eq!(CaptureError::NoScreens.message(), "No screens found");
    assert_eq!(
        CaptureError::CaptureFailed("x".to_string()).message(),
        "Failed to capture screen: x"
    );
    assert_eq!(
        CaptureError::EncodeFailed("y".to_string()).message(),
        "Failed to encode image: y"
    );
}

#[test]
fn clamped_region_gives_corner_pixel() {
    let data = pattern(100, 100);
    let (text, w, h) = process_frame(Ok((100, 100, data.clone())), Some([-5, -5, 0, -1])).unwrap();
    assert_eq!((w, h), (1, 1));
    assert_eq!(decode(&text).into_raw(), data[0..4].to_vec());
}

#[test]
fn default_strip_of_wide_frame() {
    let data = pattern(1000, 500);
    let (text, w, h) = process_frame(Ok((1000, 500, data.clone())), None).unwrap();
    assert_eq!((w, h), (200, 500));
    let img = decode(&text);
    assert_eq!(img.get_pixel(0, 0).0, [data[800 * 4], data[800 * 4 + 1], data[800 * 4 + 2], 255]);
}

#[test]
fn output_text_is_padded_base64() {
    let src = Raster::from_raw(3, 2, pattern(3, 2)).unwrap();
    let (text, _, _) = capture_region_base64(&src, Some([0, 0, 3, 2])).unwrap();
    let png = base64::engine::general_purpose::STANDARD.decode(&text).unwrap();
    assert_eq!(text.len(), 4 * ((png.len() + 2) / 3));
    assert!(text.chars().all(|c| c.is_ascii_alphanumeric() || c == '+' || c == '/' || c == '='));
}

#[test]
fn empty_frame_cannot_be_encoded() {
    let r = process_frame(Ok((0, 0, Vec::new())), None);
    assert!(matches!(r, Err(CaptureError::EncodeFailed(_))));
}
