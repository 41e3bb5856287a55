//! The print job and its lowering to raster commands.
//!
//! A job is sent as a preamble followed by one block of commands per page.
//! The pages go through the images once per copy: with three images and two
//! copies, pages 0 to 2 are the three images and pages 3 to 5 are the same
//! images again.

use vstd::prelude::*;
use crate::commands::{
    ColorPower, DynamicCommandMode, RasterCommand, RasterCommands, VariousModeSettings,
    command_mode_bytes, compression_bytes, expanded_mode_bytes, margin_bytes, notification_bytes,
    page_number_bytes, preamble_commands, print_bytes, print_information_bytes,
    print_with_feed_bytes, raster_transfer_bytes, two_color_transfer_bytes, various_mode_bytes,
};
use crate::error::PrintJobCreationError;
use crate::media::{LabelType, Media};
use crate::raster_image::{
    RasterImage, RasterImageView, RgbImage, dimension_mismatch, dimensions_fit, rasterized,
};
use crate::text::same_text;

verus! {

/// Feed in dots before and after each label of a continuous roll.
pub const CONTINUOUS_MARGIN: u16 = 35;

/// When the printer cuts.
#[derive(Clone, Copy, Eq, PartialEq, Hash, Debug, Structural)]
pub enum CutBehavior {
    /// Never; the labels are cut by hand.
    NoCut,
    /// After each page.
    CutEach,
    /// After every so many pages. If the pages do not come out even, the
    /// printer also cuts after the last page.
    CutEvery(u8),
    /// After the last page only.
    CutAtEnd,
}

impl CutBehavior {
    /// The cut behavior a job has unless it is told otherwise: a cut after
    /// each page of a continuous roll, one cut at the end of die-cut labels.
    pub open spec fn spec_default_for(media: Media) -> CutBehavior {
        match media.spec_label_type() {
            LabelType::Continuous => CutBehavior::CutEach,
            LabelType::DieCut => CutBehavior::CutAtEnd,
        }
    }

    /// The cut behavior a job has unless it is told otherwise: a cut after
    /// each page of a continuous roll, one cut at the end of die-cut labels.
    #[verifier::when_used_as_spec(spec_default_for)]
    pub fn default_for(media: Media) -> (res: CutBehavior)
        ensures
            res == CutBehavior::spec_default_for(media),
    {
        match media.label_type() {
            LabelType::Continuous => CutBehavior::CutEach,
            LabelType::DieCut => CutBehavior::CutAtEnd,
        }
    }

    /// The cut behavior that a name stands for, if any.
    pub open spec fn parse(name: Seq<char>) -> Option<CutBehavior> {
        if name == "None"@ {
            Some(CutBehavior::NoCut)
        } else if name == "CutEach"@ {
            Some(CutBehavior::CutEach)
        } else if name == "CutAtEnd"@ {
            Some(CutBehavior::CutAtEnd)
        } else {
            None
        }
    }

    /// Reads a cut behavior from its name: `None`, `CutEach` or `CutAtEnd`.
    /// `CutEvery` has a number and no name.
    pub fn from_str(name: &str) -> (res: Option<CutBehavior>)
        ensures
            res == CutBehavior::parse(name@),
    {
        if same_text(name, "None") {
            Some(CutBehavior::NoCut)
        } else if same_text(name, "CutEach") {
            Some(CutBehavior::CutEach)
        } else if same_text(name, "CutAtEnd") {
            Some(CutBehavior::CutAtEnd)
        } else {
            None
        }
    }
}

/// A print job: the images, made ready for the printer, and how to print them.
#[derive(Clone, PartialEq, Debug)]
pub struct PrintJob {
    /// How often each image is printed.
    pub no_copies: u8,
    /// The images, one page each.
    pub raster_images: Vec<RasterImage>,
    /// The media the images were made for.
    pub media: Media,
    /// Whether to print at 600 dpi along the feed, for which the image has
    /// to be twice as long.
    pub high_dpi: bool,
    /// Whether to compress the raster lines. Kept, but not acted upon: the
    /// lines are always sent as they are.
    pub compressed: bool,
    /// Whether quality goes before speed. Has no effect on two-colour pages.
    pub quality_priority: bool,
    /// When the printer cuts.
    pub cut_behavior: CutBehavior,
}

/// What a print job holds, in plain values.
pub struct PrintJobView {
    pub no_copies: u8,
    pub images: Seq<RasterImageView>,
    pub media: Media,
    pub high_dpi: bool,
    pub compressed: bool,
    pub quality_priority: bool,
    pub cut_behavior: CutBehavior,
}

impl View for PrintJob {
    type V = PrintJobView;

    open spec fn view(&self) -> PrintJobView {
        PrintJobView {
            no_copies: self.no_copies,
            images: Seq::new(self.raster_images@.len(), |i: int| self.raster_images@[i]@),
            media: self.media,
            high_dpi: self.high_dpi,
            compressed: self.compressed,
            quality_priority: self.quality_priority,
            cut_behavior: self.cut_behavior,
        }
    }
}

/// Whether `count` is a multiple of `n`. Zero has no multiple but itself.
pub open spec fn is_multiple_of(count: nat, n: u8) -> bool {
    if n == 0 {
        count == 0
    } else {
        count % (n as nat) == 0
    }
}

/// The number of raster lines as it is sent: the lowest 32 bits of the count.
pub open spec fn line_count(lines: nat) -> u32 {
    (lines % 0x1_0000_0000) as u32
}

/// The transfer commands of one page: one per line of a monochrome image;
/// for a two-colour image, line by line, the black line at high energy and
/// then the red line at low energy.
pub open spec fn page_transfers(image: RasterImageView) -> Seq<Seq<u8>> {
    match image {
        RasterImageView::Monochrome { black_layer } => Seq::new(
            black_layer.len(),
            |i: int| raster_transfer_bytes(black_layer[i]),
        ),
        RasterImageView::TwoColor { black_layer, red_layer } => Seq::new(
            2 * (if black_layer.len() <= red_layer.len() {
                black_layer.len()
            } else {
                red_layer.len()
            }),
            |i: int|
                if i % 2 == 0 {
                    two_color_transfer_bytes(black_layer[i / 2], ColorPower::HighEnergy)
                } else {
                    two_color_transfer_bytes(red_layer[i / 2], ColorPower::LowEnergy)
                },
        ),
    }
}

impl PrintJobView {
    /// Number of pages: every image once per copy.
    pub open spec fn page_count(self) -> nat {
        self.no_copies as nat * self.images.len()
    }

    /// The image on page `k`.
    pub open spec fn image_of_page(self, k: int) -> RasterImageView {
        self.images[k % (self.images.len() as int)]
    }

    /// Whether page `k` is the last.
    pub open spec fn is_last_page(self, k: int) -> bool {
        k + 1 == self.page_count()
    }

    /// Whether page `k` tells the printer to cut at the end: always with
    /// `CutAtEnd`; with `CutEvery(n)` on the last page, if the number of pages
    /// is no multiple of `n`; else never.
    pub open spec fn cut_at_end(self, k: int) -> bool {
        match self.cut_behavior {
            CutBehavior::CutAtEnd => true,
            CutBehavior::CutEvery(n) => !is_multiple_of(self.page_count(), n) && self.is_last_page(
                k,
            ),
            _ => false,
        }
    }

    /// The quality flag of page `k`: the job's, but never set on a two-colour page.
    pub open spec fn page_quality_priority(self, k: int) -> bool {
        self.image_of_page(k) is Monochrome && self.quality_priority
    }

    /// The commands that tell the printer after how many pages to cut: one
    /// with `CutEvery` and `CutEach`, none else.
    pub open spec fn cut_commands(self) -> Seq<Seq<u8>> {
        match self.cut_behavior {
            CutBehavior::CutEvery(n) => seq![page_number_bytes(n)],
            CutBehavior::CutEach => seq![page_number_bytes(1)],
            _ => Seq::empty(),
        }
    }

    /// The feed around a label: 35 dots on a continuous roll, none on die-cut labels.
    pub open spec fn margin(self) -> u16 {
        match self.media.spec_label_type() {
            LabelType::Continuous => CONTINUOUS_MARGIN,
            LabelType::DieCut => 0,
        }
    }

    /// The commands of page `k` that come before its raster lines.
    pub open spec fn page_header(self, k: int) -> Seq<Seq<u8>> {
        seq![
            command_mode_bytes(DynamicCommandMode::Raster),
            notification_bytes(true),
            print_information_bytes(
                self.media,
                self.page_quality_priority(k),
                true,
                line_count(self.image_of_page(k).black().len()),
                k == 0,
            ),
            various_mode_bytes(
                VariousModeSettings { auto_cut: self.cut_behavior != CutBehavior::NoCut },
            ),
        ] + self.cut_commands() + seq![
            expanded_mode_bytes(self.media.spec_supports_color(), self.cut_at_end(k), self.high_dpi),
            margin_bytes(self.margin()),
            compression_bytes(false),
        ]
    }

    /// The command that ends page `k`: `PrintWithFeed` on the last page, `Print` else.
    pub open spec fn page_terminator(self, k: int) -> Seq<u8> {
        if self.is_last_page(k) {
            print_with_feed_bytes()
        } else {
            print_bytes()
        }
    }

    /// All commands of page `k`, in the order in which they are sent.
    pub open spec fn page_commands(self, k: int) -> Seq<Seq<u8>> {
        self.page_header(k) + page_transfers(self.image_of_page(k)) + seq![self.page_terminator(k)]
    }

    /// The bytes of page `k`.
    pub open spec fn page_bytes(self, k: int) -> Seq<u8> {
        self.page_commands(k).flatten()
    }

    /// The bytes of the first `n` pages.
    pub open spec fn pages_bytes(self, n: nat) -> Seq<u8>
        decreases n,
    {
        if n == 0 {
            Seq::empty()
        } else {
            self.pages_bytes((n - 1) as nat) + self.page_bytes(n - 1)
        }
    }

    /// The bytes of the whole job: the preamble, then every page.
    pub open spec fn compiled(self) -> Seq<u8> {
        preamble_commands().flatten() + self.pages_bytes(self.page_count())
    }

    /// Whether the images of the job were made for its media: each has the
    /// colours of the media, lines of 90 bytes, no more lines than a line
    /// count can hold, and on die-cut labels as many lines as the label is long.
    pub open spec fn wf(self) -> bool {
        forall|i: int|
            0 <= i < self.images.len() ==> {
                &&& (#[trigger] self.images[i]).wf()
                &&& self.images[i] is TwoColor <==> self.media.spec_supports_color()
                &&& self.images[i].black().len() <= u32::MAX
                &&& self.media.spec_length_dots() matches Some(length_dots)
                    ==> self.images[i].black().len() == length_dots
            }
    }
}

/// A print job taken apart into what is sent at once.
pub struct PrintJobParts {
    /// The commands that make the printer ready.
    pub preamble: RasterCommands,
    /// The commands of each page.
    pub page_data: Vec<RasterCommands>,
}

/// Copies a raster line into a vector.
fn line_to_vec(line: &[u8; 90]) -> (data: Vec<u8>)
    ensures
        data@ == line@,
{
    let mut data: Vec<u8> = Vec::new();
    data.extend_from_slice(line.as_slice());
    data
}

/// Adds the transfer commands of an image to the commands of a page.
fn add_transfers(page_commands: &mut RasterCommands, raster_image: &RasterImage)
    ensures
        final(page_commands)@ == old(page_commands)@ + page_transfers(raster_image@),
{
    match raster_image {
        RasterImage::Monochrome { black_layer } => {
            let mut i: usize = 0;
            while i < black_layer.data.len()
                invariant
                    i <= black_layer.data@.len(),
                    raster_image@ == (RasterImageView::Monochrome { black_layer: black_layer@ }),
                    page_commands@ == old(page_commands)@ + page_transfers(raster_image@).take(
                        i as int,
                    ),
                decreases black_layer.data@.len() - i,
            {
                page_commands.add(
                    RasterCommand::RasterGraphicsTransfer {
                        data: line_to_vec(&black_layer.data[i]),
                    },
                );
                i += 1;
                assert(page_commands@ =~= old(page_commands)@ + page_transfers(
                    raster_image@,
                ).take(i as int));
            }
            assert(page_transfers(raster_image@).take(i as int) =~= page_transfers(raster_image@));
        },
        RasterImage::TwoColor { black_layer, red_layer } => {
            let lines = if black_layer.data.len() <= red_layer.data.len() {
                black_layer.data.len()
            } else {
                red_layer.data.len()
            };
            let mut i: usize = 0;
            while i < lines
                invariant
                    i <= lines,
                    lines <= black_layer.data@.len(),
                    lines <= red_layer.data@.len(),
                    page_transfers(raster_image@).len() == 2 * lines,
                    raster_image@ == (RasterImageView::TwoColor {
                        black_layer: black_layer@,
                        red_layer: red_layer@,
                    }),
                    page_commands@ == old(page_commands)@ + page_transfers(raster_image@).take(
                        2 * i,
                    ),
                decreases lines - i,
            {
                page_commands.add(
                    RasterCommand::TwoColorRasterGraphicsTransfer {
                        data: line_to_vec(&black_layer.data[i]),
                        color_power: ColorPower::HighEnergy,
                    },
                );
                page_commands.add(
                    RasterCommand::TwoColorRasterGraphicsTransfer {
                        data: line_to_vec(&red_layer.data[i]),
                        color_power: ColorPower::LowEnergy,
                    },
                );
                i += 1;
                assert(page_commands@ =~= old(page_commands)@ + page_transfers(
                    raster_image@,
                ).take(2 * i));
            }
            assert(page_transfers(raster_image@).take(2 * i) =~= page_transfers(raster_image@));
        },
    }
}

impl PrintJob {
    /// A job that prints one image with the default settings.
    ///
    /// Fails if the size of the image does not fit the media.
    pub fn from_image(image: RgbImage, media: Media) -> (res: Result<
        PrintJob,
        PrintJobCreationError,
    >)
        ensures
            match res {
                Ok(job) => {
                    &&& dimensions_fit(image.spec_width(), image.spec_height(), media)
                    &&& job@ == PrintJob::with_defaults(
                        seq![rasterized(image@, image.spec_width(), image.spec_height(), media)],
                        media,
                    )
                    &&& job@.wf()
                },
                Err(e) => {
                    &&& !dimensions_fit(image.spec_width(), image.spec_height(), media)
                    &&& e == dimension_mismatch(image.spec_width(), image.spec_height(), media)
                },
            },
    {
        let mut images: Vec<RgbImage> = Vec::new();
        images.push(image);
        let ghost all = images@;
        assert(all[0] == image);
        let res = PrintJob::from_images(images, media);
        proof {
            assert(PrintJob::rasterized_all(all, media) =~= seq![
                rasterized(image@, image.spec_width(), image.spec_height(), media),
            ]);
            if res is Err {
                let e = res->Err_0;
                let i = choose|i: int|
                    PrintJob::is_first_misfit(all, media, i) && e == dimension_mismatch(
                        all[i].spec_width(),
                        all[i].spec_height(),
                        media,
                    );
                assert(i == 0);
            }
        }
        res
    }

    /// The job with the given images and the default settings: one copy at
    /// 300 dpi, uncompressed, quality before speed, and the cut behavior that
    /// goes with the media.
    pub open spec fn with_defaults(images: Seq<RasterImageView>, media: Media) -> PrintJobView {
        PrintJobView {
            no_copies: 1,
            images,
            media,
            high_dpi: false,
            compressed: false,
            quality_priority: true,
            cut_behavior: CutBehavior::spec_default_for(media),
        }
    }

    /// What the images give on the media, one after the other.
    pub open spec fn rasterized_all(images: Seq<RgbImage>, media: Media) -> Seq<RasterImageView> {
        Seq::new(
            images.len(),
            |i: int| rasterized(images[i]@, images[i].spec_width(), images[i].spec_height(), media),
        )
    }

    /// Whether image `i` does not fit the media while all before it do.
    pub open spec fn is_first_misfit(images: Seq<RgbImage>, media: Media, i: int) -> bool {
        &&& 0 <= i < images.len()
        &&& !dimensions_fit(images[i].spec_width(), images[i].spec_height(), media)
        &&& forall|j: int|
            0 <= j < i ==> dimensions_fit((#[trigger] images[j]).spec_width(), images[j].spec_height(), media)
    }

    /// A job that prints the given images, one page each, with the default
    /// settings.
    ///
    /// Fails if the size of an image does not fit the media; the error
    /// describes the first such image.
    pub fn from_images(images: Vec<RgbImage>, media: Media) -> (res: Result<
        PrintJob,
        PrintJobCreationError,
    >)
        ensures
            match res {
                Ok(job) => {
                    &&& forall|i: int|
                        0 <= i < images@.len() ==> dimensions_fit(
                            (#[trigger] images@[i]).spec_width(),
                            images@[i].spec_height(),
                            media,
                        )
                    &&& job@ == PrintJob::with_defaults(
                        PrintJob::rasterized_all(images@, media),
                        media,
                    )
                    &&& job@.wf()
                },
                Err(e) => exists|i: int|
                    {
                        &&& PrintJob::is_first_misfit(images@, media, i)
                        &&& e == dimension_mismatch(images@[i].spec_width(), images@[i].spec_height(), media)
                    },
            },
    {
        let mut raster_images: Vec<RasterImage> = Vec::new();
        let mut i: usize = 0;
        while i < images.len()
            invariant
                i <= images@.len(),
                raster_images@.len() == i,
                forall|j: int|
                    0 <= j < i ==> {
                        &&& dimensions_fit((#[trigger] images@[j]).spec_width(), images@[j].spec_height(), media)
                        &&& raster_images@[j]@ == rasterized(
                            images@[j]@,
                            images@[j].spec_width(),
                            images@[j].spec_height(),
                            media,
                        )
                        &&& raster_images@[j]@.wf()
                        &&& raster_images@[j]@.black().len() == images@[j].spec_height()
                    },
            decreases images@.len() - i,
        {
            match RasterImage::rasterize(&images[i], media) {
                Ok(raster_image) => {
                    raster_images.push(raster_image);
                },
                Err(e) => {
                    assert(PrintJob::is_first_misfit(images@, media, i as int));
                    return Err(e);
                },
            }
            i += 1;
        }
        let job = PrintJob {
            no_copies: 1,
            raster_images,
            media,
            high_dpi: false,
            compressed: false,
            quality_priority: true,
            cut_behavior: CutBehavior::default_for(media),
        };
        assert(job@.images =~= PrintJob::rasterized_all(images@, media));
        Ok(job)
    }

    /// Sets how often each image is printed.
    pub fn set_copies(&mut self, copies: u8)
        ensures
            final(self)@ == (PrintJobView { no_copies: copies, ..old(self)@ }),
    {
        self.no_copies = copies;
    }

    /// Sets whether to print at 600 dpi along the feed.
    pub fn set_high_dpi(&mut self, high_dpi: bool)
        ensures
            final(self)@ == (PrintJobView { high_dpi, ..old(self)@ }),
    {
        self.high_dpi = high_dpi;
    }

    /// Sets whether quality goes before speed.
    pub fn set_quality_priority(&mut self, quality: bool)
        ensures
            final(self)@ == (PrintJobView { quality_priority: quality, ..old(self)@ }),
    {
        self.quality_priority = quality;
    }

    /// Sets when the printer cuts, by the name of the behavior. A name that
    /// stands for no behavior leaves the job as it is.
    pub fn set_cut_behavior(&mut self, behavior: &str)
        ensures
            final(self)@ == (PrintJobView {
                cut_behavior: match CutBehavior::parse(behavior@) {
                    Some(cut_behavior) => cut_behavior,
                    None => old(self).cut_behavior,
                },
                ..old(self)@
            }),
    {
        match CutBehavior::from_str(behavior) {
            Some(cut_behavior) => {
                self.cut_behavior = cut_behavior;
            },
            None => {},
        }
    }

    /// The short name of the media the job was made for.
    pub fn get_media(&self) -> (name: String)
        ensures
            name@ == self.media.spec_name(),
    {
        self.media.name()
    }

    /// Number of pages: every image once per copy.
    pub fn page_count(&self) -> (count: usize)
        requires
            self@.page_count() <= usize::MAX,
        ensures
            count == self@.page_count(),
    {
        self.no_copies as usize * self.raster_images.len()
    }

    /// Whether the pages of the job come out even when they are cut every
    /// `n` pages.
    fn pages_come_out_even(&self, n: u8) -> (even: bool)
        ensures
            even == is_multiple_of(self@.page_count(), n),
    {
        let len = self.raster_images.len();
        assert(self.no_copies as nat * len <= 255 * usize::MAX) by (nonlinear_arith)
            requires
                self.no_copies <= 255,
                len <= usize::MAX,
        ;
        let page_count: u128 = (self.no_copies as u128) * (len as u128);
        if n == 0 {
            page_count == 0
        } else {
            page_count % (n as u128) == 0
        }
    }

    /// The commands of the page that prints image `img_idx` for the
    /// `copy_no`-th time, both counted from 0.
    fn page(&self, copy_no: u8, img_idx: usize) -> (page_commands: RasterCommands)
        requires
            copy_no < self.no_copies,
            img_idx < self.raster_images@.len(),
        ensures
            page_commands@ == self@.page_commands(copy_no * self.raster_images@.len() + img_idx),
    {
        let len = self.raster_images.len();
        let ghost k: int = copy_no * len + img_idx;
        proof {
            lemma_page_index(copy_no as int, img_idx as int, self.no_copies as int, len as int);
        }
        let raster_image = &self.raster_images[img_idx];
        let first = copy_no == 0 && img_idx == 0;
        let last = copy_no == self.no_copies - 1 && img_idx == len - 1;
        let no_lines = ((raster_image.height() as u64) % 0x1_0000_0000) as u32;
        let mut page_commands = RasterCommands::new();
        page_commands.add(
            RasterCommand::SwitchDynamicCommandMode { command_mode: DynamicCommandMode::Raster },
        );
        page_commands.add(RasterCommand::SwitchAutomaticStatusNotificationMode { notify: true });
        page_commands.add(
            RasterCommand::PrintInformation {
                media: self.media,
                quality_priority: match raster_image {
                    RasterImage::Monochrome { .. } => self.quality_priority,
                    RasterImage::TwoColor { .. } => false,
                },
                recovery_on: true,
                no_lines,
                first_page: first,
            },
        );
        page_commands.add(
            RasterCommand::VariousMode(
                VariousModeSettings {
                    auto_cut: match self.cut_behavior {
                        CutBehavior::NoCut => false,
                        _ => true,
                    },
                },
            ),
        );
        match self.cut_behavior {
            CutBehavior::CutEvery(n) => {
                page_commands.add(RasterCommand::SpecifyPageNumber { cut_every: n });
            },
            CutBehavior::CutEach => {
                page_commands.add(RasterCommand::SpecifyPageNumber { cut_every: 1 });
            },
            _ => {},
        }
        page_commands.add(
            RasterCommand::ExpandedMode {
                two_color: self.media.supports_color(),
                cut_at_end: match self.cut_behavior {
                    CutBehavior::CutAtEnd => true,
                    CutBehavior::CutEvery(n) => !self.pages_come_out_even(n) && last,
                    _ => false,
                },
                high_dpi: self.high_dpi,
            },
        );
        page_commands.add(
            RasterCommand::SpecifyMarginAmount {
                margin_size: match self.media.label_type() {
                    LabelType::Continuous => CONTINUOUS_MARGIN,
                    LabelType::DieCut => 0,
                },
            },
        );
        page_commands.add(
            RasterCommand::SelectCompressionMode {
                // Compression is not supported; the lines go out as they are.
                tiff_compression: false,
            },
        );
        assert(page_commands@ =~= self@.page_header(k));
        add_transfers(&mut page_commands, raster_image);
        if last {
            page_commands.add(RasterCommand::PrintWithFeed);
        } else {
            page_commands.add(RasterCommand::Print);
        }
        assert(page_commands@ =~= self@.page_commands(k));
        page_commands
    }

    /// Takes the job apart into the preamble and the commands of each page.
    pub fn into_parts(self) -> (parts: PrintJobParts)
        ensures
            parts.preamble@ == preamble_commands(),
            parts.page_data@.len() == self@.page_count(),
            forall|k: int|
                0 <= k < parts.page_data@.len() ==> (#[trigger] parts.page_data@[k])@
                    == self@.page_commands(k),
    {
        let len = self.raster_images.len();
        let mut page_data: Vec<RasterCommands> = Vec::new();
        let mut copy_no: u8 = 0;
        while copy_no < self.no_copies
            invariant
                copy_no <= self.no_copies,
                len == self.raster_images@.len(),
                page_data@.len() == copy_no * len,
                forall|i: int|
                    0 <= i < page_data@.len() ==> (#[trigger] page_data@[i])@
                        == self@.page_commands(i),
            decreases self.no_copies - copy_no,
        {
            let mut img_idx: usize = 0;
            while img_idx < len
                invariant
                    copy_no < self.no_copies,
                    img_idx <= len,
                    len == self.raster_images@.len(),
                    page_data@.len() == copy_no * len + img_idx,
                    forall|i: int|
                        0 <= i < page_data@.len() ==> (#[trigger] page_data@[i])@
                            == self@.page_commands(i),
                decreases len - img_idx,
            {
                page_data.push(self.page(copy_no, img_idx));
                img_idx += 1;
            }
            assert(copy_no * len + len == (copy_no + 1) * len) by (nonlinear_arith);
            copy_no += 1;
        }
        PrintJobParts { preamble: RasterCommands::create_preamble(), page_data }
    }

    /// Compiles the job into the bytes that are sent to the printer: the
    /// preamble, then page after page.
    pub fn compile(self) -> (bytes: Vec<u8>)
        ensures
            bytes@ == self@.compiled(),
    {
        let ghost job = self@;
        let parts = self.into_parts();
        let mut bytes = parts.preamble.build();
        let page_data = parts.page_data;
        let mut k: usize = 0;
        while k < page_data.len()
            invariant
                k <= page_data@.len(),
                page_data@.len() == job.page_count(),
                forall|i: int|
                    0 <= i < page_data@.len() ==> (#[trigger] page_data@[i])@ == job.page_commands(
                        i,
                    ),
                bytes@ == preamble_commands().flatten() + job.pages_bytes(k as nat),
            decreases page_data@.len() - k,
        {
            let mut page_bytes = page_data[k].to_bytes();
            bytes.append(&mut page_bytes);
            k += 1;
            assert(bytes@ =~= preamble_commands().flatten() + job.pages_bytes(k as nat));
        }
        bytes
    }
}

/// Where the page that prints image `img_idx` for the `copy_no`-th time
/// stands among the pages, and what follows from it.
proof fn lemma_page_index(copy_no: int, img_idx: int, no_copies: int, len: int)
    by (nonlinear_arith)
    requires
        0 <= copy_no < no_copies,
        0 <= img_idx < len,
    ensures
        0 <= copy_no * len + img_idx < no_copies * len,
        (copy_no * len + img_idx) % len == img_idx,
        copy_no * len + img_idx == 0 <==> copy_no == 0 && img_idx == 0,
        copy_no * len + img_idx + 1 == no_copies * len <==> copy_no == no_copies - 1 && img_idx
            == len - 1,
{
}

/// Every transfer of a page carries one raster line: it is 93 bytes long, its
/// length byte is 90, and the line follows. A monochrome page has one
/// transfer for each line. A two-colour page has as many black lines as red
/// lines and two transfers for each line: the black line at high energy
/// (`01`), then the red line at low energy (`02`).
pub proof fn lemma_page_transfers(image: RasterImageView, i: int)
    requires
        image.wf(),
        0 <= i < page_transfers(image).len(),
    ensures
        page_transfers(image)[i].len() == 93,
        page_transfers(image)[i][2] == 90,
        match image {
            RasterImageView::Monochrome { black_layer } => {
                &&& page_transfers(image).len() == black_layer.len()
                &&& page_transfers(image)[i][0] == 0x67
                &&& page_transfers(image)[i][1] == 0x00
                &&& page_transfers(image)[i].subrange(3, 93) == black_layer[i]
            },
            RasterImageView::TwoColor { black_layer, red_layer } => {
                &&& black_layer.len() == red_layer.len()
                &&& page_transfers(image).len() == 2 * black_layer.len()
                &&& page_transfers(image)[i][0] == 0x77
                &&& i % 2 == 0 ==> page_transfers(image)[i][1] == 0x01 && page_transfers(
                    image,
                )[i].subrange(3, 93) == black_layer[i / 2]
                &&& i % 2 == 1 ==> page_transfers(image)[i][1] == 0x02 && page_transfers(
                    image,
                )[i].subrange(3, 93) == red_layer[i / 2]
            },
        },
{
    match image {
        RasterImageView::Monochrome { black_layer } => {
            crate::commands::lemma_transfer_of_line(black_layer[i], ColorPower::HighEnergy);
        },
        RasterImageView::TwoColor { black_layer, red_layer } => {
            crate::commands::lemma_transfer_of_line(black_layer[i / 2], ColorPower::HighEnergy);
            crate::commands::lemma_transfer_of_line(red_layer[i / 2], ColorPower::LowEnergy);
        },
    }
}

/// A page is its header, its transfers and its terminator, in this order. The
/// header has seven commands, or eight where the job says after how many
/// pages to cut, and the third of them is the print information.
pub proof fn lemma_page_layout(job: PrintJobView, k: int)
    ensures
        job.page_header(k).len() == 7 + job.cut_commands().len(),
        job.cut_commands().len() == (if job.cut_behavior is CutEvery || job.cut_behavior
            == CutBehavior::CutEach {
            1nat
        } else {
            0nat
        }),
        job.page_commands(k).len() == job.page_header(k).len() + page_transfers(
            job.image_of_page(k),
        ).len() + 1,
        forall|i: int|
            0 <= i < job.page_header(k).len() ==> job.page_commands(k)[i] == job.page_header(k)[i],
        forall|i: int|
            0 <= i < page_transfers(job.image_of_page(k)).len() ==> job.page_commands(k)[job.page_header(
                k,
            ).len() + i] == page_transfers(job.image_of_page(k))[i],
        job.page_commands(k).last() == job.page_terminator(k),
        job.page_commands(k)[0] == command_mode_bytes(DynamicCommandMode::Raster),
        job.page_commands(k)[1] == notification_bytes(true),
        job.page_commands(k)[2] == print_information_bytes(
            job.media,
            job.page_quality_priority(k),
            true,
            line_count(job.image_of_page(k).black().len()),
            k == 0,
        ),
{
}

/// The compiled job starts with the 402 bytes of the preamble, and the first
/// page, if there is one, follows at once.
pub proof fn lemma_compiled_layout(job: PrintJobView)
    ensures
        job.compiled().len() >= 402,
        job.compiled().subrange(0, 402) == preamble_commands().flatten(),
        job.page_count() > 0 ==> job.compiled().len() >= 402 + job.page_bytes(0).len()
            && job.compiled().subrange(402, 402 + job.page_bytes(0).len() as int) == job.page_bytes(0),
        job.page_count() == 0 ==> job.compiled() == preamble_commands().flatten(),
{
    crate::commands::lemma_preamble_bytes();
    assert(job.compiled().subrange(0, 402) =~= preamble_commands().flatten());
    if job.page_count() > 0 {
        lemma_pages_start_with_first(job, job.page_count());
        let pages = job.pages_bytes(job.page_count());
        let first = job.page_bytes(0);
        assert(pages.subrange(0, first.len() as int) == first);
        assert(job.compiled().subrange(402, 402 + first.len() as int) =~= pages.subrange(
            0,
            first.len() as int,
        ));
    } else {
        assert(job.compiled() =~= preamble_commands().flatten());
    }
}

/// The bytes of the first pages start with the bytes of the first page.
proof fn lemma_pages_start_with_first(job: PrintJobView, n: nat)
    requires
        n > 0,
    ensures
        job.pages_bytes(n).len() >= job.page_bytes(0).len(),
        job.pages_bytes(n).subrange(0, job.page_bytes(0).len() as int) == job.page_bytes(0),
    decreases n,
{
    if n == 1 {
        assert(job.pages_bytes(0) =~= Seq::<u8>::empty());
        assert(job.pages_bytes(1) =~= job.page_bytes(0));
        assert(job.pages_bytes(n).subrange(0, job.page_bytes(0).len() as int) =~= job.page_bytes(0));
    } else {
        lemma_pages_start_with_first(job, (n - 1) as nat);
        assert(job.pages_bytes(n).subrange(0, job.page_bytes(0).len() as int) =~= job.pages_bytes(
            (n - 1) as nat,
        ).subrange(0, job.page_bytes(0).len() as int));
    }
}

/// The last page, and no other, ends with `PrintWithFeed`; a page tells the
/// printer to cut at the end always with `CutAtEnd`, never with `NoCut` and
/// `CutEach`, and with `CutEvery(n)` on the last page alone, and there only
/// if the pages do not come out even.
pub proof fn lemma_last_page(job: PrintJobView, k: int)
    requires
        0 <= k < job.page_count(),
    ensures
        job.page_terminator(k) == print_with_feed_bytes() <==> k == job.page_count() - 1,
        job.cut_behavior == CutBehavior::CutAtEnd ==> job.cut_at_end(k),
        job.cut_behavior == CutBehavior::NoCut || job.cut_behavior == CutBehavior::CutEach
            ==> !job.cut_at_end(k),
        job.cut_behavior matches CutBehavior::CutEvery(n) ==> (job.cut_at_end(k) <==> k
            == job.page_count() - 1 && !is_multiple_of(job.page_count(), n)),
{
    assert(print_with_feed_bytes()[0] != print_bytes()[0]);
}

/// The pages of a job, each as the bytes that are sent for it.
pub open spec fn pages_of(job: PrintJobView) -> Seq<Seq<u8>> {
    Seq::new(job.page_count(), |k: int| job.page_bytes(k))
}

/// Sent one after the other, the preamble and the pages of a job are the
/// compiled job: printing page by page and sending the compiled bytes at
/// once put the same bytes on the wire.
pub proof fn lemma_pages_make_the_compiled_job(job: PrintJobView)
    ensures
        preamble_commands().flatten() + pages_of(job).flatten() == job.compiled(),
{
    lemma_first_pages(job, job.page_count());
    assert(pages_of(job).take(job.page_count() as int) =~= pages_of(job));
}

/// The bytes of the first `n` pages are the first `n` pages, one after the other.
proof fn lemma_first_pages(job: PrintJobView, n: nat)
    requires
        n <= job.page_count(),
    ensures
        pages_of(job).take(n as int).flatten() == job.pages_bytes(n),
    decreases n,
{
    let pages = pages_of(job);
    if n == 0 {
        assert(pages.take(0) =~= Seq::<Seq<u8>>::empty());
    } else {
        lemma_first_pages(job, (n - 1) as nat);
        assert(pages.take(n as int) =~= pages.take(n - 1).push(pages[n - 1]));
        pages.take(n - 1).lemma_flatten_push(pages[n - 1]);
    }
}

} // verus!
