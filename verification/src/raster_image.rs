//! From an RGB image to raster lines.
//!
//! An image goes through five steps on its way to the printer:
//!
//! 1. every pixel that is not to be printed in a layer is turned white;
//! 2. the image is converted to grey, by the `image` crate;
//! 3. the grey image is dithered to pure black and white, by the `image` crate;
//! 4. the result is placed on a line as wide as the print head, white around it;
//! 5. each line is packed into 90 bytes, and the lines are put in feed order,
//!    the last line of the image first.
//!
//! Step 3 is the one part that is not stated here in full: what the dithering
//! gives is known as [`dithered`], a function of the grey image alone.

use vstd::prelude::*;
use vstd::string::StringExecFns;
use crate::commands::RASTER_LINE_BYTES;
use crate::error::PrintJobCreationError;
use crate::media::{Media, PRINT_HEAD_DOTS};
use crate::text::{decimal, decimal_text};

verus! {

/// An image of three bytes per pixel, red, green and blue, row after row from
/// the top. Its buffer always holds exactly `3 * width * height` bytes.
#[derive(Debug, PartialEq, Eq)]
pub struct RgbImage {
    width: u32,
    height: u32,
    pixels: Vec<u8>,
}

impl View for RgbImage {
    type V = Seq<u8>;

    /// The bytes of the pixels.
    closed spec fn view(&self) -> Seq<u8> {
        self.pixels@
    }
}

impl Clone for RgbImage {
    /// A copy of the image.
    fn clone(&self) -> (res: Self)
        ensures
            res@ == self@,
            res.spec_width() == self.spec_width(),
            res.spec_height() == self.spec_height(),
    {
        proof {
            use_type_invariant(self);
        }
        let pixels = self.pixels.clone();
        assert(pixels@ =~= self.pixels@);
        RgbImage { width: self.width, height: self.height, pixels }
    }
}

/// An image of one byte per pixel, 0 for black up to 255 for white, row after
/// row from the top.
#[derive(Debug, Clone, PartialEq, Eq)]
pub struct GrayImage {
    /// Width in pixels.
    pub width: u32,
    /// Height in pixels.
    pub height: u32,
    /// The pixels: `width * height` bytes.
    pub pixels: Vec<u8>,
}

/// Number of pixels of an image of the given size.
fn pixel_count(width: u32, height: u32) -> (count: u64)
    ensures
        count == width * height,
        3 * count == 3 * width * height,
        4 * count == 4 * width * height,
{
    assert(width * height <= 0xffff_ffff * 0xffff_ffff) by (nonlinear_arith)
        requires
            width <= 0xffff_ffff,
            height <= 0xffff_ffff,
    ;
    assert(3 * (width * height) == 3 * width * height && 4 * (width * height) == 4 * width * height)
        by (nonlinear_arith);
    (width as u64) * (height as u64)
}

impl RgbImage {
    /// The buffer holds exactly the pixels of the image.
    #[verifier::type_invariant]
    spec fn wf(&self) -> bool {
        self.pixels@.len() == 3 * self.width * self.height
    }

    /// Width in pixels.
    pub closed spec fn spec_width(&self) -> u32 {
        self.width
    }

    /// Height in pixels.
    pub closed spec fn spec_height(&self) -> u32 {
        self.height
    }

    /// Width in pixels.
    #[verifier::when_used_as_spec(spec_width)]
    pub fn width(&self) -> (width: u32)
        ensures
            width == self.spec_width(),
    {
        self.width
    }

    /// Height in pixels.
    #[verifier::when_used_as_spec(spec_height)]
    pub fn height(&self) -> (height: u32)
        ensures
            height == self.spec_height(),
    {
        self.height
    }

    /// The bytes of the pixels: three for each pixel, `3 * width * height` in all.
    pub fn pixels(&self) -> (pixels: &Vec<u8>)
        ensures
            pixels@ == self@,
            pixels@.len() == 3 * self.spec_width() * self.spec_height(),
    {
        proof {
            use_type_invariant(self);
        }
        &self.pixels
    }

    /// An image over the given buffer, if the buffer holds exactly
    /// `3 * width * height` bytes.
    pub fn new(width: u32, height: u32, pixels: Vec<u8>) -> (res: Option<RgbImage>)
        ensures
            res.is_some() <==> pixels@.len() == 3 * width * height,
            res matches Some(img) ==> img.spec_width() == width && img.spec_height() == height
                && img@ == pixels@,
    {
        let count = pixel_count(width, height);
        if pixels.len() as u128 == 3 * (count as u128) {
            Some(RgbImage { width, height, pixels })
        } else {
            None
        }
    }

    /// An image from pixels of four bytes, red, green, blue and alpha, of
    /// which the alpha is dropped.
    ///
    /// The buffer has to hold `4 * width * height` bytes at least; what
    /// follows them is not looked at.
    pub fn from_rgba(width: u32, height: u32, pixels: &[u8]) -> (res: Option<RgbImage>)
        ensures
            res.is_some() <==> 4 * width * height <= pixels@.len(),
            res matches Some(img) ==> {
                &&& img.spec_width() == width
                &&& img.spec_height() == height
                &&& img@.len() == 3 * width * height
                &&& forall|i: int|
                    0 <= i < img@.len() ==> #[trigger] img@[i] == pixels@[4 * (i / 3) + i % 3]
            },
    {
        let count = pixel_count(width, height);
        if 4 * (count as u128) > pixels.len() as u128 {
            return None;
        }
        let count = count as usize;
        let mut rgb: Vec<u8> = Vec::new();
        let mut i: usize = 0;
        while i < count
            invariant
                i <= count,
                4 * count <= pixels@.len() <= usize::MAX,
                rgb@.len() == 3 * i,
                forall|k: int| 0 <= k < rgb@.len() ==> #[trigger] rgb@[k] == pixels@[4 * (k / 3) + k % 3],
            decreases count - i,
        {
            rgb.push(pixels[4 * i]);
            rgb.push(pixels[4 * i + 1]);
            rgb.push(pixels[4 * i + 2]);
            i += 1;
        }
        Some(RgbImage { width, height, pixels: rgb })
    }
}

impl GrayImage {
    /// Whether the buffer holds exactly the pixels of the image.
    pub open spec fn wf(&self) -> bool {
        self.pixels@.len() == self.width * self.height
    }
}

/// Which pixels of an image a layer prints.
#[derive(Debug, Clone, Copy, PartialEq, Eq, Structural)]
pub enum PrintPredicate {
    /// Every pixel that is not pure white: the one layer of a monochrome print.
    NotWhite,
    /// Grey and black pixels: the black layer of a two-colour print.
    GrayOrBlack,
    /// Pixels in which red dominates: the red layer of a two-colour print.
    DominantRed,
}

impl PrintPredicate {
    /// Whether a pixel of the given colour is printed.
    pub open spec fn spec_selects(self, r: u8, g: u8, b: u8) -> bool {
        match self {
            PrintPredicate::NotWhite => !(r == 255 && g == 255 && b == 255),
            PrintPredicate::GrayOrBlack => r == g && r == b && r < 200,
            PrintPredicate::DominantRed => r > 100 && r > b && r > g,
        }
    }

    /// Whether a pixel of the given colour is printed.
    #[verifier::when_used_as_spec(spec_selects)]
    pub fn selects(self, r: u8, g: u8, b: u8) -> (res: bool)
        ensures
            res == self.spec_selects(r, g, b),
    {
        match self {
            PrintPredicate::NotWhite => !(r == b && r == g && r == 255),
            PrintPredicate::GrayOrBlack => r == g && r == b && r < 200,
            PrintPredicate::DominantRed => r > 100 && r > b && r > g,
        }
    }
}

/// The grey value of a colour: its luminance, in integers.
pub open spec fn luma(r: u8, g: u8, b: u8) -> u8 {
    ((2126 * r + 7152 * g + 722 * b) / 10000) as u8
}

/// The grey value of pixel `i` of an image after masking: the luminance of
/// the pixel where the layer prints it, white where it does not.
pub open spec fn masked_luma(pixels: Seq<u8>, predicate: PrintPredicate, i: int) -> u8 {
    let r = pixels[3 * i];
    let g = pixels[3 * i + 1];
    let b = pixels[3 * i + 2];
    if predicate.spec_selects(r, g, b) {
        luma(r, g, b)
    } else {
        255
    }
}

/// The grey image of a layer before dithering.
pub open spec fn masked_gray(pixels: Seq<u8>, predicate: PrintPredicate) -> Seq<u8> {
    Seq::new(pixels.len() / 3, |i: int| masked_luma(pixels, predicate, i))
}

/// What Floyd-Steinberg dithering to black and white, as the `image` crate
/// does it, makes of a grey image of the given width and height.
pub uninterp spec fn dithered(gray: Seq<u8>, width: nat, height: nat) -> Seq<u8>;

/// The black-and-white image of a layer: the masked grey image, dithered. An
/// image without lines stays as it is.
pub open spec fn bilevel(pixels: Seq<u8>, width: nat, height: nat, predicate: PrintPredicate) -> Seq<
    u8,
> {
    if height == 0 {
        masked_gray(pixels, predicate)
    } else {
        dithered(masked_gray(pixels, predicate), width, height)
    }
}

/// Whether an image is purely black and white: every pixel is 0 or 255.
pub open spec fn is_bilevel(image: Seq<u8>) -> bool {
    forall|i: int| 0 <= i < image.len() ==> #[trigger] image[i] == 0 || image[i] == 255
}

/// Where on the print head the image starts: what the head has left after the
/// left margin and the image.
pub open spec fn right_margin(left_margin: u32, width: u32) -> int {
    PRINT_HEAD_DOTS - left_margin - width
}

/// The pixel at (`x`, `y`) of the line-wide mask: the pixel of the image where
/// the image lies, white beside it.
pub open spec fn mask_pixel(image: Seq<u8>, width: u32, left_margin: u32, x: int, y: int) -> u8 {
    let start = right_margin(left_margin, width);
    if start <= x < start + width {
        image[y * width + (x - start)]
    } else {
        255
    }
}

/// A black-and-white image placed on lines as wide as the print head.
pub open spec fn extended(image: Seq<u8>, width: u32, height: u32, left_margin: u32) -> Seq<u8> {
    Seq::new(
        (PRINT_HEAD_DOTS * height) as nat,
        |i: int| mask_pixel(image, width, left_margin, i % (PRINT_HEAD_DOTS as int), i / (PRINT_HEAD_DOTS as int)),
    )
}

/// The mask of a layer: which dots of each line of the print head are black.
pub open spec fn mask_of(
    pixels: Seq<u8>,
    width: u32,
    height: u32,
    left_margin: u32,
    predicate: PrintPredicate,
) -> Seq<u8> {
    extended(bilevel(pixels, width as nat, height as nat, predicate), width, height, left_margin)
}

/// One if the pixel is black, zero if it is not. Only pure black fires a dot.
pub open spec fn dot(pixel: u8) -> int {
    if pixel == 0 {
        1
    } else {
        0
    }
}

/// Eight pixels of a mask, starting at `start`, packed into a byte: the first
/// pixel in the highest bit, a set bit for a black pixel.
pub open spec fn packed_byte(mask: Seq<u8>, start: int) -> u8 {
    (128 * dot(mask[start]) + 64 * dot(mask[start + 1]) + 32 * dot(mask[start + 2]) + 16 * dot(
        mask[start + 3],
    ) + 8 * dot(mask[start + 4]) + 4 * dot(mask[start + 5]) + 2 * dot(mask[start + 6]) + dot(
        mask[start + 7],
    )) as u8
}

/// Row `row` of a mask as a raster line of 90 bytes.
pub open spec fn raster_line(mask: Seq<u8>, row: int) -> Seq<u8> {
    Seq::new(
        RASTER_LINE_BYTES as nat,
        |j: int| packed_byte(mask, row * (PRINT_HEAD_DOTS as int) + 8 * j),
    )
}

/// The raster lines of a mask in feed order: the last row of the mask first.
pub open spec fn raster_layer(mask: Seq<u8>, height: nat) -> Seq<Seq<u8>> {
    Seq::new(height, |i: int| raster_line(mask, height - 1 - i))
}

/// Whether dot `x` of a raster line fires: bit `7 - x % 8` of byte `x / 8`.
pub open spec fn dot_fires(line: Seq<u8>, x: int) -> bool {
    (line[x / 8] >> ((7 - x % 8) as u8)) & 1 == 1
}

/// The raster lines of one colour, in feed order.
#[derive(Debug, Clone, PartialEq, Eq)]
pub struct RasterLayer {
    /// The lines, each of 90 bytes; the line that is printed first comes last.
    pub data: Vec<[u8; 90]>,
}

impl View for RasterLayer {
    type V = Seq<Seq<u8>>;

    /// The lines, each as its sequence of bytes.
    open spec fn view(&self) -> Seq<Seq<u8>> {
        Seq::new(self.data@.len(), |i: int| self.data@[i]@)
    }
}

impl RasterLayer {
    /// Number of lines.
    pub fn len(&self) -> (len: usize)
        ensures
            len == self@.len(),
    {
        self.data.len()
    }
}

/// A layer in short, for logs: its number of lines in place of its bytes, as
/// in `<RasterLayer(300 lines)>`.
pub fn debug_raster_layer(layer: &RasterLayer) -> (text: String)
    ensures
        text@ == "<RasterLayer("@ + decimal_text(layer@.len()) + " lines)>"@,
{
    let mut text = "<RasterLayer(".to_string();
    text.append(decimal(layer.len() as u64).as_str());
    text.append(" lines)>");
    text
}

/// An image made ready for the printer.
#[derive(Debug, Clone, PartialEq, Eq)]
pub enum RasterImage {
    /// A print in black only.
    Monochrome {
        /// The lines of the one layer.
        black_layer: RasterLayer,
    },
    /// A print in black and red.
    TwoColor {
        /// The lines that are printed black.
        black_layer: RasterLayer,
        /// The lines that are printed red.
        red_layer: RasterLayer,
    },
}

/// What a raster image holds, in plain values.
pub enum RasterImageView {
    /// A print in black only.
    Monochrome { black_layer: Seq<Seq<u8>> },
    /// A print in black and red.
    TwoColor { black_layer: Seq<Seq<u8>>, red_layer: Seq<Seq<u8>> },
}

impl RasterImageView {
    /// The lines that are printed black.
    pub open spec fn black(self) -> Seq<Seq<u8>> {
        match self {
            RasterImageView::Monochrome { black_layer } => black_layer,
            RasterImageView::TwoColor { black_layer, .. } => black_layer,
        }
    }

    /// Every line has 90 bytes, and the two layers of a two-colour image have
    /// the same number of lines.
    pub open spec fn wf(self) -> bool {
        match self {
            RasterImageView::Monochrome { black_layer } => forall|i: int|
                0 <= i < black_layer.len() ==> (#[trigger] black_layer[i]).len()
                    == RASTER_LINE_BYTES,
            RasterImageView::TwoColor { black_layer, red_layer } => {
                &&& black_layer.len() == red_layer.len()
                &&& forall|i: int|
                    0 <= i < black_layer.len() ==> (#[trigger] black_layer[i]).len()
                        == RASTER_LINE_BYTES
                &&& forall|i: int|
                    0 <= i < red_layer.len() ==> (#[trigger] red_layer[i]).len()
                        == RASTER_LINE_BYTES
            },
        }
    }
}

impl View for RasterImage {
    type V = RasterImageView;

    open spec fn view(&self) -> RasterImageView {
        match self {
            RasterImage::Monochrome { black_layer } => RasterImageView::Monochrome {
                black_layer: black_layer@,
            },
            RasterImage::TwoColor { black_layer, red_layer } => RasterImageView::TwoColor {
                black_layer: black_layer@,
                red_layer: red_layer@,
            },
        }
    }
}

/// Whether an image of the given size can be printed on the media: its width
/// is the printable width, and on die-cut labels its height is the length of
/// the label.
pub open spec fn dimensions_fit(width: u32, height: u32, media: Media) -> bool {
    &&& width == media.spec_width_dots()
    &&& match media.spec_length_dots() {
        Some(length_dots) => height == length_dots,
        None => true,
    }
}

/// The error for an image whose size does not fit the media. A wrong width is
/// reported without an expected height, a wrong height with both.
pub open spec fn dimension_mismatch(width: u32, height: u32, media: Media) -> PrintJobCreationError {
    PrintJobCreationError::DimensionMismatch {
        expected_width: media.spec_width_dots(),
        actual_width: width,
        expected_height: if width != media.spec_width_dots() {
            None
        } else {
            media.spec_length_dots()
        },
        actual_height: height,
    }
}

/// The raster image that an image gives on a media: one layer of everything
/// but white for a monochrome media, a black and a red layer for the
/// two-colour media.
pub open spec fn rasterized(pixels: Seq<u8>, width: u32, height: u32, media: Media) -> RasterImageView {
    if media.spec_supports_color() {
        RasterImageView::TwoColor {
            black_layer: raster_layer(
                mask_of(pixels, width, height, media.spec_left_margin(), PrintPredicate::GrayOrBlack),
                height as nat,
            ),
            red_layer: raster_layer(
                mask_of(pixels, width, height, media.spec_left_margin(), PrintPredicate::DominantRed),
                height as nat,
            ),
        }
    } else {
        RasterImageView::Monochrome {
            black_layer: raster_layer(
                mask_of(pixels, width, height, media.spec_left_margin(), PrintPredicate::NotWhite),
                height as nat,
            ),
        }
    }
}

/// Converts an RGB image to grey with `image::imageops::grayscale`.
///
/// The crate computes each grey pixel from the three bytes of its RGB pixel
/// alone, as the integer luminance that [`luma`] states; the grey image has
/// the size of the RGB image. The crate walks the image by coordinates and,
/// in an image without columns, steps on to a pixel of the second row that
/// is not there, so an image has to be one pixel wide at least.
#[verifier::external_body]
fn grayscale(img: &RgbImage) -> (gray: Vec<u8>)
    requires
        img.pixels@.len() == 3 * img.width * img.height,
        img.width >= 1,
    ensures
        gray@.len() == img.width * img.height,
        forall|i: int|
            0 <= i < gray@.len() ==> #[trigger] gray@[i] == luma(
                img.pixels@[3 * i],
                img.pixels@[3 * i + 1],
                img.pixels@[3 * i + 2],
            ),
{
    let buffer = image::RgbImage::from_raw(img.width, img.height, img.pixels.clone()).unwrap();
    image::imageops::grayscale(&buffer).into_raw()
}

/// Dithers a grey image to black and white with `image::imageops::dither` and
/// its `BiLevel` colour map.
///
/// The crate works on the buffer in place, so the result has the size of the
/// input, and it maps every pixel to one of the two colours of the map, 0 and
/// 255; which of the two a pixel gets is named [`dithered`]. The crate reads
/// the pixel to the right of the first column and subtracts one from the
/// height, so an image has to be two pixels wide and one high at least.
#[verifier::external_body]
fn dither_bilevel(gray: Vec<u8>, width: u32, height: u32) -> (mask: Vec<u8>)
    requires
        gray@.len() == width * height,
        width >= 2,
        height >= 1,
    ensures
        mask@ == dithered(gray@, width as nat, height as nat),
        mask@.len() == gray@.len(),
        forall|i: int| 0 <= i < mask@.len() ==> #[trigger] mask@[i] == 0 || mask@[i] == 255,
{
    let mut buffer = image::GrayImage::from_raw(width, height, gray).unwrap();
    image::imageops::dither(&mut buffer, &image::imageops::BiLevel);
    buffer.into_raw()
}

/// Pixel (`x`, `y`) of an image of the given size lies inside its buffer.
proof fn lemma_pixel_index(x: int, y: int, width: int, height: int)
    by (nonlinear_arith)
    requires
        0 <= x < width,
        0 <= y < height,
    ensures
        0 <= y * width + x < width * height,
        0 <= y * width <= width * height,
{
}

/// Turns every pixel white that the layer does not print.
fn apply_predicate(img: &RgbImage, predicate: PrintPredicate) -> (masked: RgbImage)
    ensures
        masked.width == img.width,
        masked.height == img.height,
        masked.pixels@.len() == 3 * img.width * img.height,
        forall|i: int|
            0 <= i < img.width * img.height ==> luma(
                #[trigger] masked.pixels@[3 * i],
                masked.pixels@[3 * i + 1],
                masked.pixels@[3 * i + 2],
            ) == masked_luma(img.pixels@, predicate, i),
{
    proof {
        use_type_invariant(img);
    }
    let count = img.pixels.len() / 3;
    assert(count == img.width * img.height && count * 3 == img.pixels@.len()) by (nonlinear_arith)
        requires
            img.pixels@.len() == 3 * img.width * img.height,
            count == img.pixels@.len() / 3,
    ;
    let mut pixels: Vec<u8> = Vec::new();
    let mut i: usize = 0;
    while i < count
        invariant
            i <= count,
            count * 3 == img.pixels@.len() <= usize::MAX,
            pixels@.len() == 3 * i,
            forall|k: int|
                0 <= k < i ==> luma(
                    #[trigger] pixels@[3 * k],
                    pixels@[3 * k + 1],
                    pixels@[3 * k + 2],
                ) == masked_luma(img.pixels@, predicate, k),
        decreases count - i,
    {
        let r = img.pixels[3 * i];
        let g = img.pixels[3 * i + 1];
        let b = img.pixels[3 * i + 2];
        if predicate.selects(r, g, b) {
            pixels.push(r);
            pixels.push(g);
            pixels.push(b);
        } else {
            pixels.push(255);
            pixels.push(255);
            pixels.push(255);
        }
        i += 1;
    }
    RgbImage { width: img.width, height: img.height, pixels }
}

/// Makes the black-and-white image of one layer: masks, converts to grey and
/// dithers. An image without lines is left alone, for there is nothing to
/// dither in it.
fn bilevel_layer(img: &RgbImage, predicate: PrintPredicate) -> (image: Vec<u8>)
    requires
        img.width >= 2,
    ensures
        image@ == bilevel(img.pixels@, img.width as nat, img.height as nat, predicate),
        image@.len() == img.width * img.height,
        is_bilevel(image@),
{
    proof {
        use_type_invariant(img);
    }
    let width = img.width;
    let height = img.height;
    let masked = apply_predicate(img, predicate);
    let gray = grayscale(&masked);
    proof {
        assert(3 * width * height == 3 * (width * height)) by (nonlinear_arith);
        assert(gray@ =~= masked_gray(img.pixels@, predicate));
    }
    if height == 0 {
        gray
    } else {
        dither_bilevel(gray, width, height)
    }
}

/// Makes the mask of one layer of an image: masks, converts to grey, dithers,
/// and places the result on lines as wide as the print head, `left_margin`
/// dots from their end.
///
/// The image has to be two pixels wide at least, it has to fit on the print
/// head beside the margin, and the mask has to fit into memory.
pub fn create_mask(img: &RgbImage, left_margin: u32, predicate: PrintPredicate) -> (mask: GrayImage)
    requires
        img.spec_width() >= 2,
        left_margin + img.spec_width() <= PRINT_HEAD_DOTS,
        PRINT_HEAD_DOTS * img.spec_height() <= usize::MAX,
    ensures
        mask.wf(),
        mask.width == PRINT_HEAD_DOTS,
        mask.height == img.spec_height(),
        mask.pixels@ == mask_of(img@, img.spec_width(), img.spec_height(), left_margin, predicate),
        is_bilevel(mask.pixels@),
{
    let width = img.width;
    let height = img.height;
    let image = bilevel_layer(img, predicate);
    let mut pixels: Vec<u8> = Vec::new();
    let mut y: u32 = 0;
    while y < height
        invariant
            y <= height,
            left_margin + width <= PRINT_HEAD_DOTS,
            PRINT_HEAD_DOTS * height <= usize::MAX,
            image@.len() == width * height,
            is_bilevel(image@),
            is_bilevel(pixels@),
            pixels@.len() == PRINT_HEAD_DOTS * y,
            forall|i: int|
                0 <= i < pixels@.len() ==> #[trigger] pixels@[i] == mask_pixel(
                    image@,
                    width,
                    left_margin,
                    i % (PRINT_HEAD_DOTS as int),
                    i / (PRINT_HEAD_DOTS as int),
                ),
        decreases height - y,
    {
        let mut x: u32 = 0;
        while x < PRINT_HEAD_DOTS
            invariant
                x <= PRINT_HEAD_DOTS,
                y < height,
                left_margin + width <= PRINT_HEAD_DOTS,
                PRINT_HEAD_DOTS * height <= usize::MAX,
                image@.len() == width * height,
                is_bilevel(image@),
                is_bilevel(pixels@),
                pixels@.len() == PRINT_HEAD_DOTS * y + x,
                forall|i: int|
                    0 <= i < pixels@.len() ==> #[trigger] pixels@[i] == mask_pixel(
                        image@,
                        width,
                        left_margin,
                        i % (PRINT_HEAD_DOTS as int),
                        i / (PRINT_HEAD_DOTS as int),
                    ),
            decreases PRINT_HEAD_DOTS - x,
        {
            let pixel = pixel_on_head(&image, width, height, left_margin, x, y);
            let ghost before = pixels@;
            pixels.push(pixel);
            assert forall|i: int| 0 <= i < pixels@.len() implies #[trigger] pixels@[i] == 0
                || pixels@[i] == 255 by {
                if i < before.len() {
                    assert(pixels@[i] == before[i]);
                }
            }
            x += 1;
        }
        y += 1;
    }
    let mask = GrayImage { width: PRINT_HEAD_DOTS, height, pixels };
    assert(mask.pixels@ =~= mask_of(img@, width, height, left_margin, predicate));
    mask
}

/// The pixel at dot `x` of line `y` of the print head: the pixel of the
/// image where the image lies, white beside it.
fn pixel_on_head(image: &Vec<u8>, width: u32, height: u32, left_margin: u32, x: u32, y: u32) -> (pixel:
    u8)
    requires
        image@.len() == width * height,
        left_margin + width <= PRINT_HEAD_DOTS,
        x < PRINT_HEAD_DOTS,
        y < height,
    ensures
        pixel == mask_pixel(image@, width, left_margin, x as int, y as int),
        is_bilevel(image@) ==> pixel == 0 || pixel == 255,
{
    let start = PRINT_HEAD_DOTS - left_margin - width;
    if start <= x && x < start + width {
        proof {
            lemma_pixel_index((x - start) as int, y as int, width as int, height as int);
        }
        // The index lies below the length of the buffer, so it fits its type.
        let len = image.len();
        assert((y as usize) * (width as usize) + ((x - start) as usize) < len);
        image[(y as usize) * (width as usize) + ((x - start) as usize)]
    } else {
        255
    }
}

/// Packs the eight dots from dot `x` on of line `y` of the print head into
/// one byte.
fn pack_byte(image: &Vec<u8>, width: u32, height: u32, left_margin: u32, x: u32, y: u32) -> (byte:
    u8)
    requires
        image@.len() == width * height,
        left_margin + width <= PRINT_HEAD_DOTS,
        x + 8 <= PRINT_HEAD_DOTS,
        y < height,
    ensures
        byte == packed_byte(
            extended(image@, width, height, left_margin),
            y * (PRINT_HEAD_DOTS as int) + x,
        ),
{
    proof {
        let mask = extended(image@, width, height, left_margin);
        let at = y * (PRINT_HEAD_DOTS as int) + x;
        assert(at + 8 <= PRINT_HEAD_DOTS * height) by (nonlinear_arith)
            requires
                at == y * (PRINT_HEAD_DOTS as int) + x,
                x + 8 <= PRINT_HEAD_DOTS,
                0 <= y < height,
        ;
        assert forall|k: int| 0 <= k < 8 implies #[trigger] mask[at + k] == mask_pixel(
            image@,
            width,
            left_margin,
            x + k,
            y as int,
        ) by {
            assert((at + k) % (PRINT_HEAD_DOTS as int) == x + k && (at + k) / (
            PRINT_HEAD_DOTS as int) == y) by (nonlinear_arith)
                requires
                    at == y * (PRINT_HEAD_DOTS as int) + x,
                    0 <= x + k < PRINT_HEAD_DOTS,
                    0 <= y,
            ;
        }
        assert(mask[at] == mask[at + 0]);
    }
    let mut byte: u8 = 0;
    if pixel_on_head(image, width, height, left_margin, x, y) == 0 {
        byte = byte + 128;
    }
    if pixel_on_head(image, width, height, left_margin, x + 1, y) == 0 {
        byte = byte + 64;
    }
    if pixel_on_head(image, width, height, left_margin, x + 2, y) == 0 {
        byte = byte + 32;
    }
    if pixel_on_head(image, width, height, left_margin, x + 3, y) == 0 {
        byte = byte + 16;
    }
    if pixel_on_head(image, width, height, left_margin, x + 4, y) == 0 {
        byte = byte + 8;
    }
    if pixel_on_head(image, width, height, left_margin, x + 5, y) == 0 {
        byte = byte + 4;
    }
    if pixel_on_head(image, width, height, left_margin, x + 6, y) == 0 {
        byte = byte + 2;
    }
    if pixel_on_head(image, width, height, left_margin, x + 7, y) == 0 {
        byte = byte + 1;
    }
    byte
}

/// Places a black-and-white image on the print head, packs each of its lines
/// into 90 bytes, and puts the lines in feed order.
///
/// The image lies `left_margin` dots before the end of the 720 dots of the
/// head and is white around; a dot fires exactly where a pixel is pure black.
/// The last row of the image is the first line of the layer.
pub fn pack_layer(image: &Vec<u8>, width: u32, height: u32, left_margin: u32) -> (layer: RasterLayer)
    requires
        image@.len() == width * height,
        left_margin + width <= PRINT_HEAD_DOTS,
    ensures
        layer@ == raster_layer(extended(image@, width, height, left_margin), height as nat),
{
    let ghost mask = extended(image@, width, height, left_margin);
    let mut data: Vec<[u8; 90]> = Vec::new();
    let mut i: u32 = 0;
    while i < height
        invariant
            i <= height,
            image@.len() == width * height,
            left_margin + width <= PRINT_HEAD_DOTS,
            mask == extended(image@, width, height, left_margin),
            data@.len() == i,
            forall|k: int| 0 <= k < i ==> (#[trigger] data@[k])@ == raster_line(mask, height - 1 - k),
        decreases height - i,
    {
        let row = height - 1 - i;
        let mut line = [0u8; 90];
        let mut j: u32 = 0;
        while j < 90
            invariant
                j <= 90,
                row < height,
                image@.len() == width * height,
                left_margin + width <= PRINT_HEAD_DOTS,
                mask == extended(image@, width, height, left_margin),
                forall|k: int|
                    0 <= k < j ==> #[trigger] line@[k] == packed_byte(
                        mask,
                        row * (PRINT_HEAD_DOTS as int) + 8 * k,
                    ),
            decreases 90 - j,
        {
            let byte = pack_byte(image, width, height, left_margin, 8 * j, row);
            line[j as usize] = byte;
            j += 1;
        }
        assert(line@ =~= raster_line(mask, row as int));
        data.push(line);
        i += 1;
    }
    let layer = RasterLayer { data };
    assert(layer@ =~= raster_layer(mask, height as nat));
    layer
}

/// Packs a mask into raster lines and puts them in feed order.
///
/// Each row of 720 pixels becomes a line of 90 bytes, eight pixels to a byte
/// with the first in the highest bit; a bit is set exactly for a pixel that is
/// pure black. The rows come out in reverse: the last row of the mask is the
/// first line of the layer.
pub fn mask_to_raster_layer(mask: GrayImage) -> (layer: RasterLayer)
    requires
        mask.wf(),
        mask.width == PRINT_HEAD_DOTS,
    ensures
        layer@ == raster_layer(mask.pixels@, mask.height as nat),
{
    proof {
        // A mask that is as wide as the print head lies on it as it is.
        let placed = extended(mask.pixels@, PRINT_HEAD_DOTS, mask.height, 0);
        assert(placed.len() == mask.pixels@.len());
        assert forall|i: int| 0 <= i < placed.len() implies placed[i] == mask.pixels@[i] by {
            assert(i / (PRINT_HEAD_DOTS as int) * (PRINT_HEAD_DOTS as int) + i % (
            PRINT_HEAD_DOTS as int) == i) by (nonlinear_arith)
                requires
                    0 <= i,
            ;
        }
        assert(placed =~= mask.pixels@);
    }
    pack_layer(&mask.pixels, PRINT_HEAD_DOTS, mask.height, 0)
}

impl RasterImage {
    /// Number of raster lines of the image.
    pub fn height(&self) -> (height: usize)
        ensures
            height == self@.black().len(),
    {
        match self {
            RasterImage::Monochrome { black_layer } => black_layer.len(),
            RasterImage::TwoColor { black_layer, .. } => black_layer.len(),
        }
    }

    /// Makes an image ready for printing on the given media.
    ///
    /// The width of the image must be the printable width of the media, and
    /// on die-cut labels its height must be the length of the label; any
    /// other image is refused with a `DimensionMismatch`. A continuous roll
    /// takes any height, also none at all.
    ///
    /// A monochrome media gets one layer that prints everything but pure
    /// white. The two-colour media gets a black layer of the grey and black
    /// pixels and a red layer of the pixels in which red dominates.
    pub fn new(img: RgbImage, media: Media) -> (res: Result<RasterImage, PrintJobCreationError>)
        ensures
            match res {
                Ok(raster) => {
                    &&& dimensions_fit(img.spec_width(), img.spec_height(), media)
                    &&& raster@ == rasterized(img@, img.spec_width(), img.spec_height(), media)
                    &&& raster@.wf()
                    &&& raster@.black().len() == img.spec_height()
                },
                Err(e) => {
                    &&& !dimensions_fit(img.spec_width(), img.spec_height(), media)
                    &&& e == dimension_mismatch(img.spec_width(), img.spec_height(), media)
                },
            },
    {
        RasterImage::rasterize(&img, media)
    }

    /// Makes an image ready for printing on the given media, leaving the
    /// image with its owner. See [`RasterImage::new`].
    pub fn rasterize(img: &RgbImage, media: Media) -> (res: Result<
        RasterImage,
        PrintJobCreationError,
    >)
        ensures
            match res {
                Ok(raster) => {
                    &&& dimensions_fit(img.spec_width(), img.spec_height(), media)
                    &&& raster@ == rasterized(img@, img.spec_width(), img.spec_height(), media)
                    &&& raster@.wf()
                    &&& raster@.black().len() == img.spec_height()
                },
                Err(e) => {
                    &&& !dimensions_fit(img.spec_width(), img.spec_height(), media)
                    &&& e == dimension_mismatch(img.spec_width(), img.spec_height(), media)
                },
            },
    {
        let width = img.width;
        let height = img.height;
        // The width is always checked, the height for die-cut labels only.
        if media.width_dots() != width {
            return Err(
                PrintJobCreationError::DimensionMismatch {
                    expected_width: media.width_dots(),
                    actual_width: width,
                    expected_height: None,
                    actual_height: height,
                },
            );
        }
        match media.length_dots() {
            Some(length_dots) => {
                if length_dots != height {
                    return Err(
                        PrintJobCreationError::DimensionMismatch {
                            expected_width: media.width_dots(),
                            actual_width: width,
                            expected_height: Some(length_dots),
                            actual_height: height,
                        },
                    );
                }
            },
            None => {},
        }
        proof {
            crate::media::lemma_media_fits_print_head(media);
        }
        let left_margin = media.left_margin();
        if media.supports_color() {
            let black = bilevel_layer(img, PrintPredicate::GrayOrBlack);
            let red = bilevel_layer(img, PrintPredicate::DominantRed);
            Ok(
                RasterImage::TwoColor {
                    black_layer: pack_layer(&black, width, height, left_margin),
                    red_layer: pack_layer(&red, width, height, left_margin),
                },
            )
        } else {
            let black = bilevel_layer(img, PrintPredicate::NotWhite);
            Ok(RasterImage::Monochrome { black_layer: pack_layer(&black, width, height, left_margin) })
        }
    }
}

/// The bits of a byte that is the weighted sum of eight dots, the first dot
/// weighing most.
proof fn lemma_packed_bits(d0: u8, d1: u8, d2: u8, d3: u8, d4: u8, d5: u8, d6: u8, d7: u8, byte: u8)
    by (bit_vector)
    requires
        d0 <= 1,
        d1 <= 1,
        d2 <= 1,
        d3 <= 1,
        d4 <= 1,
        d5 <= 1,
        d6 <= 1,
        d7 <= 1,
        byte == 128 * d0 + 64 * d1 + 32 * d2 + 16 * d3 + 8 * d4 + 4 * d5 + 2 * d6 + d7,
    ensures
        (byte >> 7u8) & 1 == d0,
        (byte >> 6u8) & 1 == d1,
        (byte >> 5u8) & 1 == d2,
        (byte >> 4u8) & 1 == d3,
        (byte >> 3u8) & 1 == d4,
        (byte >> 2u8) & 1 == d5,
        (byte >> 1u8) & 1 == d6,
        (byte >> 0u8) & 1 == d7,
{
}

/// A layer has one line of 90 bytes for each row of its mask, in reverse
/// order, and a dot of a line fires exactly where the mask is black: read
/// from its last line to its first, the layer is the mask from top to bottom.
pub proof fn lemma_layer_dots(mask: Seq<u8>, height: nat, line: int, x: int)
    requires
        mask.len() == PRINT_HEAD_DOTS * height,
        0 <= line < height,
        0 <= x < PRINT_HEAD_DOTS,
    ensures
        raster_layer(mask, height).len() == height,
        raster_layer(mask, height)[line].len() == RASTER_LINE_BYTES,
        dot_fires(raster_layer(mask, height)[line], x) <==> mask[(height - 1 - line) * (
        PRINT_HEAD_DOTS as int) + x] == 0,
{
    let row = height - 1 - line;
    let start = row * (PRINT_HEAD_DOTS as int) + 8 * (x / 8);
    let byte = packed_byte(mask, start);
    assert(raster_layer(mask, height)[line] == raster_line(mask, row));
    assert(raster_line(mask, row)[x / 8] == byte);
    lemma_packed_bits(
        dot(mask[start]) as u8,
        dot(mask[start + 1]) as u8,
        dot(mask[start + 2]) as u8,
        dot(mask[start + 3]) as u8,
        dot(mask[start + 4]) as u8,
        dot(mask[start + 5]) as u8,
        dot(mask[start + 6]) as u8,
        dot(mask[start + 7]) as u8,
        byte,
    );
    let k = x % 8;
    assert(start + k == row * (PRINT_HEAD_DOTS as int) + x);
    if k == 0 {
        assert(((7 - x % 8) as u8) == 7u8);
    } else if k == 1 {
        assert(((7 - x % 8) as u8) == 6u8);
    } else if k == 2 {
        assert(((7 - x % 8) as u8) == 5u8);
    } else if k == 3 {
        assert(((7 - x % 8) as u8) == 4u8);
    } else if k == 4 {
        assert(((7 - x % 8) as u8) == 3u8);
    } else if k == 5 {
        assert(((7 - x % 8) as u8) == 2u8);
    } else if k == 6 {
        assert(((7 - x % 8) as u8) == 1u8);
    } else {
        assert(((7 - x % 8) as u8) == 0u8);
    }
}

/// Where the dots of a packed layer fire: on each line, exactly at the dots
/// that the image covers and at which its pixel is pure black. The image
/// starts `left_margin` and its own width before the end of the print head,
/// and line `line` of the layer is row `height - 1 - line` of the image.
pub proof fn lemma_placed_dots(
    image: Seq<u8>,
    width: u32,
    height: u32,
    left_margin: u32,
    line: int,
    x: int,
)
    requires
        left_margin + width <= PRINT_HEAD_DOTS,
        0 <= line < height,
        0 <= x < PRINT_HEAD_DOTS,
    ensures
        dot_fires(
            raster_layer(extended(image, width, height, left_margin), height as nat)[line],
            x,
        ) <==> {
            &&& right_margin(left_margin, width) <= x < right_margin(left_margin, width) + width
            &&& image[(height - 1 - line) * width + (x - right_margin(left_margin, width))] == 0
        },
{
    let mask = extended(image, width, height, left_margin);
    lemma_layer_dots(mask, height as nat, line, x);
    let i = (height - 1 - line) * (PRINT_HEAD_DOTS as int) + x;
    assert(0 <= i < PRINT_HEAD_DOTS * height) by (nonlinear_arith)
        requires
            0 <= line < height,
            0 <= x < PRINT_HEAD_DOTS,
            i == (height - 1 - line) * (PRINT_HEAD_DOTS as int) + x,
    ;
    assert(i % (PRINT_HEAD_DOTS as int) == x && i / (PRINT_HEAD_DOTS as int) == height - 1 - line)
        by (nonlinear_arith)
        requires
            0 <= x < PRINT_HEAD_DOTS,
            i == (height - 1 - line) * (PRINT_HEAD_DOTS as int) + x,
    ;
    assert(mask[i] == mask_pixel(image, width, left_margin, x, height - 1 - line));
}

/// Beside the image every dot stays white: on each line of a layer, no dot
/// fires before the image starts or after it ends.
pub proof fn lemma_margins_stay_white(
    pixels: Seq<u8>,
    width: u32,
    height: u32,
    left_margin: u32,
    predicate: PrintPredicate,
    line: int,
    x: int,
)
    requires
        left_margin + width <= PRINT_HEAD_DOTS,
        0 <= line < height,
        0 <= x < PRINT_HEAD_DOTS,
        !(right_margin(left_margin, width) <= x < right_margin(left_margin, width) + width),
    ensures
        !dot_fires(
            raster_layer(mask_of(pixels, width, height, left_margin, predicate), height as nat)[line],
            x,
        ),
{
    lemma_placed_dots(
        bilevel(pixels, width as nat, height as nat, predicate),
        width,
        height,
        left_margin,
        line,
        x,
    );
}

/// Inside the image a dot fires exactly where the dithered layer is black.
pub proof fn lemma_image_dots(
    pixels: Seq<u8>,
    width: u32,
    height: u32,
    left_margin: u32,
    predicate: PrintPredicate,
    line: int,
    x: int,
)
    requires
        left_margin + width <= PRINT_HEAD_DOTS,
        0 <= line < height,
        0 <= x < width,
    ensures
        dot_fires(
            raster_layer(mask_of(pixels, width, height, left_margin, predicate), height as nat)[line],
            right_margin(left_margin, width) + x,
        ) <==> bilevel(pixels, width as nat, height as nat, predicate)[(height - 1 - line) * width
            + x] == 0,
{
    lemma_placed_dots(
        bilevel(pixels, width as nat, height as nat, predicate),
        width,
        height,
        left_margin,
        line,
        right_margin(left_margin, width) + x,
    );
}

/// What fits a media is decided by the size alone: a die-cut label takes
/// exactly its own size, a continuous roll its own width at any height.
pub proof fn lemma_dimensions_fit(width: u32, height: u32, media: Media)
    ensures
        media.spec_label_type() == crate::media::LabelType::DieCut ==> (dimensions_fit(
            width,
            height,
            media,
        ) <==> Some(height) == media.spec_length_dots() && width == media.spec_width_dots()),
        media.spec_label_type() == crate::media::LabelType::Continuous ==> (dimensions_fit(
            width,
            height,
            media,
        ) <==> width == media.spec_width_dots()),
        dimensions_fit(media.spec_sample_label_size().0, media.spec_sample_label_size().1, media),
{
    crate::media::lemma_media_lengths(media);
}

} // verus!
