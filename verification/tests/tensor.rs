use id_classifier::raster::RgbImage;
use id_classifier::tensor::channel_deviation_milli;
use id_classifier::tensor::channel_mean_milli;
use id_classifier::tensor::input_tensor;
use id_classifier::tensor::normalize;
use id_classifier::tensor::normalized_tensor;
use id_classifier::tensor::resize_to_input;
use id_classifier::tensor::Ratio;
use id_classifier::tensor::INPUT_HEIGHT;
use id_classifier::tensor::INPUT_WIDTH;
use id_classifier::tensor::PLANE_LEN;
use id_classifier::tensor::TENSOR_LEN;

fn uniform(width: u32, height: u32, color: [u8; 3]) -> RgbImage {
    let mut pixels = Vec::new();
    for _ in 0..(width as usize * height as usize) {
        pixels.extend_from_slice(&color);
    }
    RgbImage { width, height, pixels }
}

fn value_of(r: Ratio) -> f32 {
    r.num as f32 / r.den as f32
}

#[test]
fn input_size_constants() {
    assert_eq!(INPUT_WIDTH, 224);
    assert_eq!(INPUT_HEIGHT, 224);
    assert_eq!(PLANE_LEN, 224 * 224);
    assert_eq!(TENSOR_LEN, 3 * 224 * 224);
}

#[test]
fn channel_constants() {
    assert_eq!(
        [channel_mean_milli(0), channel_mean_milli(1), channel_mean_milli(2)],
        [485, 456, 406]
    );
    assert_eq!(
        [channel_deviation_milli(0), channel_deviation_milli(1), channel_deviation_milli(2)],
        [229, 224, 225]
    );
}

#[test]
fn normalize_exact_fractions() {
    assert_eq!(normalize(0, 128), Ratio { num: 4325, den: 58395 });
    assert_eq!(normalize(1, 0), Ratio { num: -116280, den: 57120 });
    assert_eq!(normalize(2, 255), Ratio { num: 151470, den: 57375 });
    assert_eq!(normalize(0, 0), Ratio { num: -123675, den: 58395 });
}

#[test]
fn mid_gray_channel_zero_value() {
    let expected = (128.0f32 / 255.0 - 0.485) / 0.229;
    assert!((value_of(normalize(0, 128)) - expected).abs() < 1e-6);
    let image = uniform(224, 224, [128, 128, 128]);
    let tensor = normalized_tensor(&image);
    assert_eq!(tensor.len(), 150528);
    for k in 0..50176 {
        assert!((value_of(tensor[k]) - expected).abs() < 1e-6);
    }
}

#[test]
fn every_sample_matches_the_formula() {
    let mean = [0.485f64, 0.456, 0.406];
    let deviation = [0.229f64, 0.224, 0.225];
    for c in 0..3usize {
        for p in 0..=255u8 {
            let r = normalize(c, p);
            let exact = (p as f64 / 255.0 - mean[c]) / deviation[c];
            assert!(r.den > 0);
            assert!((r.num as f64 / r.den as f64 - exact).abs() < 1e-9);
            let single = (p as f32 / 255.0 - mean[c] as f32) / deviation[c] as f32;
            assert!((value_of(r) - single).abs() < 1e-6);
        }
    }
}

#[test]
fn tensor_is_laid_out_plane_by_plane() {
    let mut pixels = vec![0u8; 150528];
    for y in 0..224usize {
        for x in 0..224usize {
            for c in 0..3usize {
                pixels[(y * 224 + x) * 3 + c] = ((x + 2 * y + 5 * c) % 256) as u8;
            }
        }
    }
    let image = RgbImage { width: 224, height: 224, pixels };
    let tensor = normalized_tensor(&image);
    assert_eq!(tensor.len(), 150528);
    for c in 0..3usize {
        for y in 0..224usize {
            for x in 0..224usize {
                let sample = ((x + 2 * y + 5 * c) % 256) as u8;
                assert_eq!(tensor[c * 50176 + y * 224 + x], normalize(c, sample));
            }
        }
    }
}

#[test]
fn resize_gives_the_input_size_for_any_proportions() {
    for (w, h) in [(1u32, 1u32), (10, 4), (3, 500), (640, 480), (224, 224), (225, 223)] {
        let resized = resize_to_input(&uniform(w, h, [10, 20, 30]));
        assert_eq!(resized.width, 224);
        assert_eq!(resized.height, 224);
        assert_eq!(resized.pixels.len(), 150528);
        for pixel in resized.pixels.chunks(3) {
            assert_eq!(pixel, [10, 20, 30]);
        }
    }
}

#[test]
fn resize_interpolates_between_pixels() {
    let image = RgbImage { width: 2, height: 1, pixels: vec![0, 0, 0, 255, 255, 255] };
    let resized = resize_to_input(&image);
    assert_eq!(resized.pixels.len(), 150528);
    assert_eq!(&resized.pixels[0..3], [0, 0, 0]);
    assert_eq!(&resized.pixels[223 * 3..224 * 3], [255, 255, 255]);
    for x in 1..224usize {
        assert!(resized.pixels[x * 3] >= resized.pixels[(x - 1) * 3]);
    }
    let middle = resized.pixels[112 * 3];
    assert!(middle > 100 && middle < 160);
    for y in 1..224usize {
        assert_eq!(resized.pixels[y * 672..(y + 1) * 672], resized.pixels[0..672]);
    }
}

#[test]
fn resize_keeps_a_picture_of_the_input_size() {
    let mut pixels = vec![0u8; 150528];
    for (i, p) in pixels.iter_mut().enumerate() {
        *p = (i * 7 % 251) as u8;
    }
    let image = RgbImage { width: 224, height: 224, pixels: pixels.clone() };
    let resized = resize_to_input(&image);
    assert_eq!(resized.pixels, pixels);
}

#[test]
fn input_tensor_of_a_small_picture() {
    let tensor = input_tensor(&uniform(7, 3, [255, 0, 128]));
    assert_eq!(tensor.len(), 150528);
    assert_eq!(tensor[0], normalize(0, 255));
    assert_eq!(tensor[50175], normalize(0, 255));
    assert_eq!(tensor[50176], normalize(1, 0));
    assert_eq!(tensor[100352], normalize(2, 128));
    assert_eq!(tensor[150527], normalize(2, 128));
}
