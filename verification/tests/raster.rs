use brother_ql::error::PrintJobCreationError;
use brother_ql::media::Media;
use brother_ql::raster_image::{
    create_mask, debug_raster_layer, mask_to_raster_layer, pack_layer, GrayImage, PrintPredicate,
    RasterImage, RasterLayer, RgbImage,
};

fn filled(width: u32, height: u32, color: [u8; 3]) -> RgbImage {
    let mut pixels = Vec::new();
    for _ in 0..width * height {
        pixels.extend_from_slice(&color);
    }
    RgbImage::new(width, height, pixels).unwrap()
}

fn from_fn(width: u32, height: u32, color: impl Fn(u32, u32) -> [u8; 3]) -> RgbImage {
    let mut pixels = Vec::new();
    for y in 0..height {
        for x in 0..width {
            pixels.extend_from_slice(&color(x, y));
        }
    }
    RgbImage::new(width, height, pixels).unwrap()
}

fn dot(line: &[u8; 90], x: usize) -> bool {
    (line[x / 8] >> (7 - x % 8)) & 1 == 1
}

fn black_layer(raster: &RasterImage) -> &RasterLayer {
    match raster {
        RasterImage::Monochrome { black_layer } => black_layer,
        RasterImage::TwoColor { black_layer, .. } => black_layer,
    }
}

/// The mask of a layer as the `image` crate gives it when it is asked directly.
fn reference_mask(img: &RgbImage, left_margin: u32, selects: impl Fn(u8, u8, u8) -> bool) -> Vec<u8> {
    let mut rgb =
        image::RgbImage::from_raw(img.width(), img.height(), img.pixels().clone()).unwrap();
    for pixel in rgb.pixels_mut() {
        let [r, g, b] = pixel.0;
        if !selects(r, g, b) {
            *pixel = image::Rgb([255, 255, 255]);
        }
    }
    let mut gray = image::imageops::grayscale(&rgb);
    image::imageops::dither(&mut gray, &image::imageops::BiLevel);
    let start = 720 - left_margin - img.width();
    let mut mask = Vec::new();
    for y in 0..img.height() {
        for x in 0..720 {
            if x >= start && x < start + img.width() {
                mask.push(gray.get_pixel(x - start, y).0[0]);
            } else {
                mask.push(255);
            }
        }
    }
    mask
}

fn gradient(width: u32, height: u32) -> RgbImage {
    from_fn(width, height, |x, y| {
        [(x * 255 / width) as u8, (y * 255 / height) as u8, ((x + y) % 256) as u8]
    })
}

#[test]
fn rgb_image_needs_the_exact_buffer() {
    assert!(RgbImage::new(2, 3, vec![0; 18]).is_some());
    assert!(RgbImage::new(2, 3, vec![0; 17]).is_none());
    assert!(RgbImage::new(2, 3, vec![0; 19]).is_none());
    assert!(RgbImage::new(0, 3, Vec::new()).is_some());
    assert!(RgbImage::new(0, 0, vec![0]).is_none());
    assert!(RgbImage::new(u32::MAX, u32::MAX, vec![0; 3]).is_none());
}

#[test]
fn rgba_pixels_lose_their_alpha() {
    let rgba = vec![1, 2, 3, 200, 4, 5, 6, 0, 7, 8, 9, 255, 10, 11, 12, 13];
    let img = RgbImage::from_rgba(2, 2, &rgba).unwrap();
    assert_eq!(img.width(), 2);
    assert_eq!(img.height(), 2);
    assert_eq!(img.pixels(), &vec![1, 2, 3, 4, 5, 6, 7, 8, 9, 10, 11, 12]);
    assert!(RgbImage::from_rgba(2, 2, &rgba[..15]).is_none());
    let mut longer = rgba.clone();
    longer.extend_from_slice(&[9, 9, 9]);
    assert_eq!(RgbImage::from_rgba(2, 2, &longer).unwrap().pixels().len(), 12);
}

#[test]
fn predicates_select_their_colours() {
    assert!(!PrintPredicate::NotWhite.selects(255, 255, 255));
    assert!(PrintPredicate::NotWhite.selects(255, 255, 254));
    assert!(PrintPredicate::NotWhite.selects(0, 0, 0));
    assert!(PrintPredicate::GrayOrBlack.selects(0, 0, 0));
    assert!(PrintPredicate::GrayOrBlack.selects(199, 199, 199));
    assert!(!PrintPredicate::GrayOrBlack.selects(200, 200, 200));
    assert!(!PrintPredicate::GrayOrBlack.selects(10, 10, 11));
    assert!(PrintPredicate::DominantRed.selects(101, 100, 100));
    assert!(!PrintPredicate::DominantRed.selects(100, 0, 0));
    assert!(!PrintPredicate::DominantRed.selects(200, 200, 0));
    assert!(!PrintPredicate::DominantRed.selects(200, 0, 200));
    assert!(!PrintPredicate::DominantRed.selects(255, 255, 255));
}

#[test]
fn white_image_gives_empty_lines() {
    let raster = RasterImage::new(filled(696, 300, [255, 255, 255]), Media::C62).unwrap();
    assert_eq!(raster.height(), 300);
    let layer = black_layer(&raster);
    assert_eq!(layer.len(), 300);
    assert!(layer.data.iter().all(|line| line.iter().all(|&b| b == 0)));
}

#[test]
fn black_image_fills_exactly_the_printable_width() {
    for media in [Media::C62, Media::C12, Media::C29, Media::C54] {
        let width = media.width_dots();
        let raster = RasterImage::new(filled(width, 5, [0, 0, 0]), media).unwrap();
        let start = (720 - media.left_margin() - width) as usize;
        let layer = black_layer(&raster);
        assert_eq!(layer.len(), 5);
        for line in &layer.data {
            for x in 0..720 {
                assert_eq!(dot(line, x), x >= start && x < start + width as usize, "{:?} {}", media, x);
            }
        }
    }
}

#[test]
fn every_line_has_90_bytes() {
    let raster = RasterImage::new(gradient(306, 17), Media::C29).unwrap();
    assert!(black_layer(&raster).data.iter().all(|line| line.len() == 90));
}

#[test]
fn margins_stay_white_whatever_the_image() {
    for media in [Media::C12, Media::C38, Media::C50, Media::D54x29] {
        let width = media.width_dots();
        let height = media.length_dots().unwrap_or(23);
        let raster = RasterImage::new(gradient(width, height), media).unwrap();
        let start = (720 - media.left_margin() - width) as usize;
        for line in &black_layer(&raster).data {
            for x in (0..start).chain(start + width as usize..720) {
                assert!(!dot(line, x), "{:?}: dot {} fires in the margin", media, x);
            }
        }
    }
}

#[test]
fn lines_are_in_feed_order() {
    // One black row, the second of five.
    let img = from_fn(106, 5, |_, y| if y == 1 { [0, 0, 0] } else { [255, 255, 255] });
    let raster = RasterImage::new(img, Media::C12).unwrap();
    let layer = black_layer(&raster);
    assert_eq!(layer.len(), 5);
    for (i, line) in layer.data.iter().enumerate() {
        let fires = line.iter().any(|&b| b != 0);
        assert_eq!(fires, i == 3, "line {}", i);
    }
}

#[test]
fn reversed_layer_is_the_mask_top_to_bottom() {
    let img = gradient(413, 31);
    let mask = create_mask(&img, Media::C38.left_margin(), PrintPredicate::NotWhite);
    assert_eq!(mask.width, 720);
    assert_eq!(mask.height, 31);
    let pixels = mask.pixels.clone();
    let layer = mask_to_raster_layer(mask);
    assert_eq!(layer.len(), 31);
    for (i, line) in layer.data.iter().rev().enumerate() {
        for x in 0..720 {
            assert_eq!(dot(line, x), pixels[i * 720 + x] == 0);
        }
    }
}

#[test]
fn bits_are_packed_most_significant_first() {
    let mut pixels = vec![255u8; 720 * 2];
    pixels[0] = 0;
    pixels[9] = 0;
    pixels[719] = 0;
    pixels[720 + 7] = 0;
    let layer = mask_to_raster_layer(GrayImage { width: 720, height: 2, pixels });
    assert_eq!(layer.data[1][0], 0x80);
    assert_eq!(layer.data[1][1], 0x40);
    assert_eq!(layer.data[1][89], 0x01);
    assert_eq!(layer.data[0][0], 0x01);
    assert!(layer.data[1][2..89].iter().all(|&b| b == 0));
    assert!(layer.data[0][1..].iter().all(|&b| b == 0));
}

#[test]
fn only_pure_black_fires_a_dot() {
    let mut pixels = vec![255u8; 720];
    pixels[0] = 1;
    pixels[1] = 127;
    pixels[2] = 0;
    pixels[3] = 254;
    let layer = mask_to_raster_layer(GrayImage { width: 720, height: 1, pixels });
    assert_eq!(layer.data[0][0], 0x20);
}

#[test]
fn mask_is_what_the_image_crate_computes() {
    let img = gradient(554, 40);
    let left_margin = Media::C50.left_margin();
    let mask = create_mask(&img, left_margin, PrintPredicate::NotWhite);
    assert_eq!(
        mask.pixels,
        reference_mask(&img, left_margin, |r, g, b| !(r == 255 && g == 255 && b == 255))
    );
    let mask = create_mask(&img, left_margin, PrintPredicate::DominantRed);
    assert_eq!(mask.pixels, reference_mask(&img, left_margin, |r, g, b| r > 100 && r > g && r > b));
    let mask = create_mask(&img, left_margin, PrintPredicate::GrayOrBlack);
    assert_eq!(
        mask.pixels,
        reference_mask(&img, left_margin, |r, g, b| r == g && r == b && r < 200)
    );
}

#[test]
fn mask_is_purely_black_and_white() {
    let img = filled(106, 16, [120, 130, 140]);
    let mask = create_mask(&img, Media::C12.left_margin(), PrintPredicate::NotWhite);
    assert!(mask.pixels.iter().all(|&p| p == 0 || p == 255));
    let black = mask.pixels.iter().filter(|&&p| p == 0).count();
    // A mid grey dithers to a mixture of both.
    assert!(black > 106 * 16 / 4);
    assert!(black < 106 * 16 * 3 / 4);
}

#[test]
fn grey_values_follow_the_luminance() {
    // Pure green has a luminance of 182, above the threshold; pure blue of
    // 18 and pure red of 54, below it. The first pixel of an image is
    // decided by its grey value alone.
    let first = |color: [u8; 3]| {
        let img = filled(106, 1, color);
        let mask = create_mask(&img, Media::C12.left_margin(), PrintPredicate::NotWhite);
        mask.pixels[(720 - 585 - 106) as usize]
    };
    assert_eq!(first([0, 255, 0]), 255);
    assert_eq!(first([0, 0, 255]), 0);
    assert_eq!(first([255, 0, 0]), 0);
    assert_eq!(first([127, 127, 127]), 0);
    assert_eq!(first([128, 128, 128]), 255);
    // 7152 * 178 / 10000 is 127, 7152 * 179 / 10000 is 128.
    assert_eq!(first([0, 178, 0]), 0);
    assert_eq!(first([0, 179, 0]), 255);
    // (2126 * 255 + 7152 * 103) / 10000 is 127.8, which is cut to 127.
    assert_eq!(first([255, 103, 0]), 0);
    assert_eq!(first([255, 104, 0]), 255);
    // (7152 * 160 + 722 * 180) / 10000 is 127.4, with 181 it is 127.5, with 190 128.1.
    assert_eq!(first([0, 160, 181]), 0);
    assert_eq!(first([0, 160, 190]), 255);
}

#[test]
fn image_of_no_lines_gives_no_lines() {
    let raster = RasterImage::new(RgbImage::new(696, 0, Vec::new()).unwrap(), Media::C62).unwrap();
    assert_eq!(raster.height(), 0);
    let raster = RasterImage::new(RgbImage::new(696, 0, Vec::new()).unwrap(), Media::C62R).unwrap();
    match raster {
        RasterImage::TwoColor { black_layer, red_layer } => {
            assert_eq!(black_layer.len(), 0);
            assert_eq!(red_layer.len(), 0);
        }
        RasterImage::Monochrome { .. } => panic!("a colour media gives two layers"),
    }
}

#[test]
fn image_of_one_line() {
    let raster = RasterImage::new(filled(696, 1, [0, 0, 0]), Media::C62).unwrap();
    assert_eq!(raster.height(), 1);
    // The image covers dots 12 to 707.
    assert_eq!(black_layer(&raster).data[0][0], 0x00);
    assert_eq!(black_layer(&raster).data[0][1], 0x0f);
    assert_eq!(black_layer(&raster).data[0][2], 0xff);
    assert_eq!(black_layer(&raster).data[0][87], 0xff);
    assert_eq!(black_layer(&raster).data[0][88], 0xf0);
    assert_eq!(black_layer(&raster).data[0][89], 0x00);
}

#[test]
fn continuous_media_accept_any_height() {
    for height in [0u32, 1, 2, 17, 300, 1000] {
        assert!(RasterImage::new(filled(306, height, [255, 255, 255]), Media::C29).is_ok());
    }
}

#[test]
fn continuous_media_reject_a_wrong_width() {
    for width in [0u32, 1, 305, 307, 720] {
        match RasterImage::new(filled(width, 10, [255, 255, 255]), Media::C29) {
            Err(PrintJobCreationError::DimensionMismatch {
                expected_width,
                actual_width,
                expected_height,
                actual_height,
            }) => {
                assert_eq!(expected_width, 306);
                assert_eq!(actual_width, width);
                assert_eq!(expected_height, None);
                assert_eq!(actual_height, 10);
            }
            other => panic!("expected a dimension mismatch, got {:?}", other),
        }
    }
}

#[test]
fn die_cut_media_accept_their_own_size_only() {
    assert!(RasterImage::new(filled(236, 236, [255, 255, 255]), Media::D24).is_ok());
    for (width, height) in [(236u32, 237u32), (236, 235), (236, 0), (235, 236), (237, 236), (696, 236)] {
        assert!(
            RasterImage::new(filled(width, height, [255, 255, 255]), Media::D24).is_err(),
            "{}x{}",
            width,
            height
        );
    }
}

#[test]
fn die_cut_wrong_height_is_reported_with_both_heights() {
    match RasterImage::new(filled(236, 237, [255, 255, 255]), Media::D24) {
        Err(PrintJobCreationError::DimensionMismatch {
            expected_width,
            actual_width,
            expected_height,
            actual_height,
        }) => {
            assert_eq!(expected_width, 236);
            assert_eq!(actual_width, 236);
            assert_eq!(expected_height, Some(236));
            assert_eq!(actual_height, 237);
        }
        other => panic!("expected a dimension mismatch, got {:?}", other),
    }
}

#[test]
fn die_cut_wrong_width_is_reported_without_expected_height() {
    match RasterImage::new(filled(200, 237, [255, 255, 255]), Media::D24) {
        Err(PrintJobCreationError::DimensionMismatch { expected_height, actual_width, .. }) => {
            assert_eq!(expected_height, None);
            assert_eq!(actual_width, 200);
        }
        other => panic!("expected a dimension mismatch, got {:?}", other),
    }
}

#[test]
fn sample_label_of_every_media_fits() {
    for media in Media::all() {
        let (width, height) = media.sample_label_size();
        assert!(RasterImage::new(filled(width, height, [255, 255, 255]), media).is_ok());
    }
}

#[test]
fn two_color_layers_have_the_same_number_of_lines() {
    let raster = RasterImage::new(gradient(696, 25), Media::C62R).unwrap();
    match &raster {
        RasterImage::TwoColor { black_layer, red_layer } => {
            assert_eq!(black_layer.len(), 25);
            assert_eq!(red_layer.len(), 25);
        }
        RasterImage::Monochrome { .. } => panic!("a colour media gives two layers"),
    }
    assert_eq!(raster.height(), 25);
}

#[test]
fn monochrome_media_give_one_layer() {
    let raster = RasterImage::new(gradient(696, 25), Media::C62).unwrap();
    assert!(matches!(raster, RasterImage::Monochrome { .. }));
}

#[test]
fn red_and_black_stripes_go_to_their_layers() {
    // Rows 0 to 3 black, rows 4 to 7 white, rows 8 to 11 red.
    let img = from_fn(696, 12, |_, y| match y {
        0..=3 => [0, 0, 0],
        4..=7 => [255, 255, 255],
        _ => [255, 0, 0],
    });
    let raster = RasterImage::new(img, Media::C62R).unwrap();
    let (black, red) = match raster {
        RasterImage::TwoColor { black_layer, red_layer } => (black_layer, red_layer),
        RasterImage::Monochrome { .. } => panic!("a colour media gives two layers"),
    };
    for y in 0..12usize {
        let black_line = &black.data[11 - y];
        let red_line = &red.data[11 - y];
        let black_fires = black_line.iter().any(|&b| b != 0);
        let red_fires = red_line.iter().any(|&b| b != 0);
        assert_eq!(black_fires, y <= 3, "black layer, row {}", y);
        assert_eq!(red_fires, y >= 8, "red layer, row {}", y);
    }
    // The black stripe is solid.
    for x in 12..708 {
        assert!(dot(&black.data[11], x));
    }
}

#[test]
fn rasterize_leaves_the_image_with_its_owner() {
    let img = gradient(106, 9);
    let first = RasterImage::rasterize(&img, Media::C12).unwrap();
    let second = RasterImage::new(img.clone(), Media::C12).unwrap();
    assert_eq!(first, second);
}

#[test]
fn layer_is_described_by_its_number_of_lines() {
    let raster = RasterImage::new(filled(696, 300, [255, 255, 255]), Media::C62).unwrap();
    assert_eq!(debug_raster_layer(black_layer(&raster)), "<RasterLayer(300 lines)>");
    assert_eq!(debug_raster_layer(&RasterLayer { data: Vec::new() }), "<RasterLayer(0 lines)>");
}

#[test]
fn packed_layer_places_the_image_before_the_left_margin() {
    // Three pixels wide, two rows; 10 dots of left margin, so the image
    // covers dots 707 to 709 of the head.
    let image = vec![0, 255, 0, 255, 0, 255];
    let layer = pack_layer(&image, 3, 2, 10);
    assert_eq!(layer.len(), 2);
    // The last row comes first: white, black, white.
    for x in 0..720 {
        assert_eq!(dot(&layer.data[0], x), x == 708, "line 0, dot {}", x);
        assert_eq!(dot(&layer.data[1], x), x == 707 || x == 709, "line 1, dot {}", x);
    }
    // Dots 704 to 711 are byte 88: dot 708 is bit 3, dots 707 and 709 bits 4 and 2.
    assert_eq!(layer.data[0][88], 0x08);
    assert_eq!(layer.data[1][88], 0x14);
}

#[test]
fn packed_layer_without_margin_ends_at_the_last_dot() {
    let image = vec![0, 0];
    let layer = pack_layer(&image, 2, 1, 0);
    assert_eq!(layer.data[0][89], 0x03);
    assert!(layer.data[0][..89].iter().all(|&b| b == 0));
    let layer = pack_layer(&image, 2, 1, 718);
    assert_eq!(layer.data[0][0], 0xc0);
    assert!(layer.data[0][1..].iter().all(|&b| b == 0));
}

#[test]
fn packed_layer_fires_only_for_pure_black() {
    let image = vec![1, 0, 128, 254, 255, 0, 3, 0];
    let layer = pack_layer(&image, 8, 1, 712);
    assert_eq!(layer.data[0][0], 0x45);
}

#[test]
fn packed_layer_of_no_lines_or_no_columns() {
    assert_eq!(pack_layer(&Vec::new(), 696, 0, 12).len(), 0);
    let layer = pack_layer(&Vec::new(), 0, 3, 100);
    assert_eq!(layer.len(), 3);
    assert!(layer.data.iter().all(|line| line.iter().all(|&b| b == 0)));
}

#[test]
fn packed_layer_is_what_rasterizing_gives_for_black_and_white_images() {
    // Pure black and pure white are left alone by the dithering.
    let img = from_fn(106, 6, |x, y| if (x / 7 + y) % 2 == 0 { [0, 0, 0] } else { [255, 255, 255] });
    let image: Vec<u8> = img.pixels().chunks(3).map(|p| p[0]).collect();
    let raster = RasterImage::rasterize(&img, Media::C12).unwrap();
    assert_eq!(black_layer(&raster), &pack_layer(&image, 106, 6, Media::C12.left_margin()));
}
