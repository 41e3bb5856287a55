//! Driver library for Brother QL label printers.
//!
//! The crate turns images into the raster command stream the printers
//! understand, decodes the status frames they answer with, and decides, step
//! by step, how a print session over a byte transport has to proceed.
//!
//! * [`media`] and [`printer`] hold the catalogues of rolls and printer models.
//! * [`commands`] encodes single raster commands.
//! * [`status`] decodes the 32-byte status frame.
//! * [`raster_image`] makes raster lines of an RGB image.
//! * [`printjob`] holds print jobs and lowers them to commands.
//! * [`connection`] follows a print session and a status query step by step.
//! * [`error`] holds the error types, [`text`] the texts of their messages.
//!
//! The library does no input or output. Every function carries a contract
//! that Verus checks against its body; the two calls into the `image` crate,
//! for the grey conversion and the dithering, are the only parts taken on
//! trust.

pub mod commands;
pub mod connection;
pub mod error;
pub mod media;
pub mod printer;
pub mod printjob;
pub mod raster_image;
pub mod status;
pub mod text;
