//! Building a print job step by step.
//!
//! A builder starts without images, in the state [`NoImages`], and only a
//! builder that has at least one image, in the state [`HasImages`], can build
//! a job: the state is part of the builder's type, so a job without images
//! does not get past the compiler.

use std::marker::PhantomData;
use vstd::prelude::*;
use crate::error::PrintJobCreationError;
use crate::media::Media;
use crate::printjob::job::{CutBehavior, PrintJob, PrintJobView};
use crate::raster_image::{RgbImage, dimension_mismatch, dimensions_fit};

verus! {

/// State of a builder that has at least one image.
pub struct HasImages {}

/// State of a builder that has no image yet.
pub struct NoImages {}

/// Collects the images and the settings of a print job.
pub struct PrintJobBuilder<State> {
    images: Vec<RgbImage>,
    media: Media,
    no_copies: u8,
    high_dpi: bool,
    compressed: bool,
    quality_priority: bool,
    cut_behavior: CutBehavior,
    state: PhantomData<State>,
}

/// What a builder holds, in plain values.
pub struct PrintJobBuilderView {
    /// The images, in the order in which they are printed.
    pub images: Seq<RgbImage>,
    /// The media to print on.
    pub media: Media,
    /// How often each image is printed.
    pub no_copies: u8,
    /// Whether to print at 600 dpi along the feed.
    pub high_dpi: bool,
    /// Whether to compress the raster lines.
    pub compressed: bool,
    /// Whether quality goes before speed.
    pub quality_priority: bool,
    /// When the printer cuts.
    pub cut_behavior: CutBehavior,
}

impl PrintJobBuilderView {
    /// What a new builder for the given media holds: no image, and the
    /// default settings, which are one copy at 300 dpi, uncompressed, quality
    /// before speed, and the cut behavior that goes with the media.
    pub open spec fn new(media: Media) -> PrintJobBuilderView {
        PrintJobBuilderView {
            images: Seq::empty(),
            media,
            no_copies: 1,
            high_dpi: false,
            compressed: false,
            quality_priority: true,
            cut_behavior: CutBehavior::spec_default_for(media),
        }
    }

    /// The job that the builder describes: its images, each made ready for
    /// the media, with its settings.
    pub open spec fn job(self) -> PrintJobView {
        PrintJobView {
            no_copies: self.no_copies,
            images: PrintJob::rasterized_all(self.images, self.media),
            media: self.media,
            high_dpi: self.high_dpi,
            compressed: self.compressed,
            quality_priority: self.quality_priority,
            cut_behavior: self.cut_behavior,
        }
    }
}

impl<State> View for PrintJobBuilder<State> {
    type V = PrintJobBuilderView;

    closed spec fn view(&self) -> PrintJobBuilderView {
        PrintJobBuilderView {
            images: self.images@,
            media: self.media,
            no_copies: self.no_copies,
            high_dpi: self.high_dpi,
            compressed: self.compressed,
            quality_priority: self.quality_priority,
            cut_behavior: self.cut_behavior,
        }
    }
}

impl<State> PrintJobBuilder<State> {
    /// Sets how often each image is printed. The default is once.
    pub fn copies(self, no_copies: u8) -> (res: Self)
        ensures
            res@ == (PrintJobBuilderView { no_copies, ..self@ }),
    {
        let mut res = self;
        res.no_copies = no_copies;
        res
    }

    /// Sets whether to print at 600 dpi along the feed. The default is not to.
    pub fn high_dpi(self, high_dpi: bool) -> (res: Self)
        ensures
            res@ == (PrintJobBuilderView { high_dpi, ..self@ }),
    {
        let mut res = self;
        res.high_dpi = high_dpi;
        res
    }

    /// Sets whether to compress the raster lines. The default is not to; the
    /// setting is kept, but the lines are sent uncompressed either way.
    pub fn compressed(self, compressed: bool) -> (res: Self)
        ensures
            res@ == (PrintJobBuilderView { compressed, ..self@ }),
    {
        let mut res = self;
        res.compressed = compressed;
        res
    }

    /// Sets whether quality goes before speed. The default is that it does.
    pub fn quality_priority(self, quality_priority: bool) -> (res: Self)
        ensures
            res@ == (PrintJobBuilderView { quality_priority, ..self@ }),
    {
        let mut res = self;
        res.quality_priority = quality_priority;
        res
    }

    /// Sets when the printer cuts. The default goes with the media.
    pub fn cut_behavior(self, cut_behavior: CutBehavior) -> (res: Self)
        ensures
            res@ == (PrintJobBuilderView { cut_behavior, ..self@ }),
    {
        let mut res = self;
        res.cut_behavior = cut_behavior;
        res
    }
}

impl PrintJobBuilder<NoImages> {
    /// A builder for the given media, with no image and the default settings.
    pub fn new(media: Media) -> (res: Self)
        ensures
            res@ == PrintJobBuilderView::new(media),
    {
        PrintJobBuilder {
            images: Vec::new(),
            media,
            no_copies: 1,
            high_dpi: false,
            compressed: false,
            quality_priority: true,
            cut_behavior: CutBehavior::default_for(media),
            state: PhantomData,
        }
    }

    /// Adds the first image, after which the builder can build.
    pub fn add_label(self, img: RgbImage) -> (res: PrintJobBuilder<HasImages>)
        ensures
            res@ == (PrintJobBuilderView { images: self@.images.push(img), ..self@ }),
    {
        let mut images = self.images;
        images.push(img);
        PrintJobBuilder {
            images,
            media: self.media,
            no_copies: self.no_copies,
            high_dpi: self.high_dpi,
            compressed: self.compressed,
            quality_priority: self.quality_priority,
            cut_behavior: self.cut_behavior,
            state: PhantomData,
        }
    }

    /// Adds several images at once. The builder stays as it is in kind: it
    /// cannot build until an image is added by `add_label`.
    pub fn add_labels(self, imgs: Vec<RgbImage>) -> (res: Self)
        ensures
            res@ == (PrintJobBuilderView { images: self@.images + imgs@, ..self@ }),
    {
        let mut res = self;
        let mut imgs = imgs;
        res.images.append(&mut imgs);
        res
    }
}

impl PrintJobBuilder<HasImages> {
    /// Adds another image.
    pub fn add_label(self, img: RgbImage) -> (res: Self)
        ensures
            res@ == (PrintJobBuilderView { images: self@.images.push(img), ..self@ }),
    {
        let mut res = self;
        res.images.push(img);
        res
    }

    /// Adds several images at once.
    pub fn add_labels(self, imgs: Vec<RgbImage>) -> (res: Self)
        ensures
            res@ == (PrintJobBuilderView { images: self@.images + imgs@, ..self@ }),
    {
        let mut res = self;
        let mut imgs = imgs;
        res.images.append(&mut imgs);
        res
    }

    /// Builds the job.
    ///
    /// Every image is made ready for the media. The job is built exactly if
    /// the size of every image fits the media; if not, the error describes
    /// the first image that does not fit.
    pub fn build(self) -> (res: Result<PrintJob, PrintJobCreationError>)
        ensures
            match res {
                Ok(job) => {
                    &&& forall|i: int|
                        0 <= i < self@.images.len() ==> dimensions_fit(
                            (#[trigger] self@.images[i]).spec_width(),
                            self@.images[i].spec_height(),
                            self@.media,
                        )
                    &&& job@ == self@.job()
                    &&& job@.wf()
                },
                Err(e) => exists|i: int|
                    {
                        &&& PrintJob::is_first_misfit(self@.images, self@.media, i)
                        &&& e == dimension_mismatch(
                            self@.images[i].spec_width(),
                            self@.images[i].spec_height(),
                            self@.media,
                        )
                    },
            },
    {
        match PrintJob::from_images(self.images, self.media) {
            Ok(job) => {
                let mut job = job;
                job.no_copies = self.no_copies;
                job.high_dpi = self.high_dpi;
                job.compressed = self.compressed;
                job.quality_priority = self.quality_priority;
                job.cut_behavior = self.cut_behavior;
                Ok(job)
            },
            Err(e) => Err(e),
        }
    }
}

} // verus!
