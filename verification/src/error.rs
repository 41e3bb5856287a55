//! Error types of the library.
//!
//! The errors are layered. A transport fails with an error of its own type,
//! reading a status reply fails with a [`StatusError`], a reply that does not
//! fit the protocol is a [`ProtocolError`], and a print session reports any
//! of them as a [`PrintError`] that names the page at which it happened.

use vstd::prelude::*;
use vstd::string::{StringExecFns, to_string_from_display_ensures};
use crate::media::Media;
use crate::status::{ErrorFlags, Phase, StatusType};
use crate::text::{decimal, decimal_text, hex_word, hex_word_text};

verus! {

/// `image::ImageError`, the error of the image decoder. It is carried in
/// [`PrintJobCreationError::ImageError`] and never looked into.
#[verifier::external_type_specification]
#[verifier::external_body]
pub struct ExImageError(image::ImageError);

/// `std::io::Error`, the error of the operating system's input and output.
/// It is carried in [`KernelError::KernelIOError`] and never looked into.
#[verifier::external_type_specification]
#[verifier::external_body]
pub struct ExIoError(std::io::Error);

/// `rusb::Error`, the error of the USB library. It is carried in
/// [`UsbError::Rusb`] and never looked into.
#[verifier::external_type_specification]
#[verifier::external_body]
pub struct ExRusbError(rusb::Error);

/// Why a print job could not be created.
#[derive(Debug)]
pub enum PrintJobCreationError {
    /// The image does not have the size the media asks for.
    ///
    /// The width must be the printable width of the media. For die-cut
    /// labels the height must be the length of the label; for a continuous
    /// roll any height will do.
    DimensionMismatch {
        /// Width the media asks for, in dots.
        expected_width: u32,
        /// Width of the image.
        actual_width: u32,
        /// Height the media asks for, in dots; `None` where the height was
        /// not looked at.
        expected_height: Option<u32>,
        /// Height of the image.
        actual_height: u32,
    },
    /// The image could not be decoded.
    ImageError(image::ImageError),
}

impl PrintJobCreationError {
    /// The error for an image that could not be decoded.
    pub fn from_image_error(error: image::ImageError) -> (res: PrintJobCreationError)
        ensures
            res == PrintJobCreationError::ImageError(error),
    {
        PrintJobCreationError::ImageError(error)
    }

    /// How the height that a media asks for is written in a message: not at
    /// all where no height was looked at.
    pub open spec fn expected_height_text(expected_height: Option<u32>) -> Seq<char> {
        match expected_height {
            Some(height) => ", height: "@ + decimal_text(height as nat) + " px"@,
            None => Seq::empty(),
        }
    }

    /// The text for an image of the wrong size.
    pub open spec fn dimension_mismatch_text(
        expected_width: u32,
        actual_width: u32,
        expected_height: Option<u32>,
        actual_height: u32,
    ) -> Seq<char> {
        "Image dimensions ("@ + decimal_text(actual_width as nat) + "x"@ + decimal_text(
            actual_height as nat,
        ) + " px) don't match media requirements (width: "@ + decimal_text(expected_width as nat)
            + " px"@ + PrintJobCreationError::expected_height_text(expected_height) + ")"@
    }

    /// Whether `text` says what went wrong. The text of a decoding error is
    /// the decoder's own and follows a fixed head.
    pub open spec fn described_by(&self, text: Seq<char>) -> bool {
        match self {
            PrintJobCreationError::DimensionMismatch {
                expected_width,
                actual_width,
                expected_height,
                actual_height,
            } => text == PrintJobCreationError::dimension_mismatch_text(
                *expected_width,
                *actual_width,
                *expected_height,
                *actual_height,
            ),
            PrintJobCreationError::ImageError(error) => exists|inner: String|
                to_string_from_display_ensures::<image::ImageError>(error, inner) && text
                    == "Image error: "@ + inner@,
        }
    }

    /// The text for an image of the wrong size.
    pub fn dimension_mismatch(
        expected_width: u32,
        actual_width: u32,
        expected_height: Option<u32>,
        actual_height: u32,
    ) -> (text: String)
        ensures
            text@ == PrintJobCreationError::dimension_mismatch_text(
                expected_width,
                actual_width,
                expected_height,
                actual_height,
            ),
    {
        let mut text = "Image dimensions (".to_string();
        text.append(decimal(actual_width as u64).as_str());
        text.append("x");
        text.append(decimal(actual_height as u64).as_str());
        text.append(" px) don't match media requirements (width: ");
        text.append(decimal(expected_width as u64).as_str());
        text.append(" px");
        let ghost before = text@;
        match expected_height {
            Some(height) => {
                text.append(", height: ");
                text.append(decimal(height as u64).as_str());
                text.append(" px");
            },
            None => {},
        }
        assert(text@ =~= before + PrintJobCreationError::expected_height_text(expected_height));
        text.append(")");
        text
    }

    /// What went wrong, for people to read.
    pub fn message(&self) -> (text: String)
        ensures
            self.described_by(text@),
    {
        match self {
            PrintJobCreationError::DimensionMismatch {
                expected_width,
                actual_width,
                expected_height,
                actual_height,
            } => PrintJobCreationError::dimension_mismatch(
                *expected_width,
                *actual_width,
                *expected_height,
                *actual_height,
            ),
            PrintJobCreationError::ImageError(error) => {
                let inner = error.to_string();
                let mut text = "Image error: ".to_string();
                text.append(inner.as_str());
                text
            },
        }
    }
}

/// The error types of transports.
pub trait ConnectionError {
    /// What went wrong, for people to read.
    fn message(&self) -> String;
}

/// Errors of the USB transport.
#[derive(Debug)]
pub enum UsbError {
    /// No device with the given vendor and product id is attached.
    DeviceNotFound {
        /// USB vendor id that was looked for.
        vendor_id: u16,
        /// USB product id that was looked for.
        product_id: u16,
    },
    /// The device took fewer bytes than it was given.
    IncompleteWrite,
    /// The USB library reported an error.
    Rusb(rusb::Error),
}

impl UsbError {
    /// Whether `text` says what went wrong. The text of an error of the USB
    /// library is the library's own.
    pub open spec fn described_by(&self, text: Seq<char>) -> bool {
        match self {
            UsbError::DeviceNotFound { vendor_id, product_id } => text
                == "USB device not found (vendor: "@ + hex_word_text(*vendor_id) + ", product: "@
                + hex_word_text(*product_id) + ")"@,
            UsbError::IncompleteWrite => text
                == "Incomplete USB write occured! Please report this issue!"@,
            UsbError::Rusb(error) => exists|inner: String|
                to_string_from_display_ensures::<rusb::Error>(error, inner) && text == inner@,
        }
    }
}

impl ConnectionError for UsbError {
    /// What went wrong, for people to read.
    fn message(&self) -> (text: String)
        ensures
            self.described_by(text@),
    {
        match self {
            UsbError::DeviceNotFound { vendor_id, product_id } => {
                let mut text = "USB device not found (vendor: ".to_string();
                text.append(hex_word(*vendor_id).as_str());
                text.append(", product: ");
                text.append(hex_word(*product_id).as_str());
                text.append(")");
                text
            },
            UsbError::IncompleteWrite => {
                "Incomplete USB write occured! Please report this issue!".to_string()
            },
            UsbError::Rusb(error) => error.to_string(),
        }
    }
}

/// Errors of the transport that goes through the kernel's printer device.
#[derive(Debug)]
pub enum KernelError {
    /// Reading or writing the device failed.
    KernelIOError(std::io::Error),
    /// The device took fewer bytes than it was given.
    IncompleteWrite,
    /// The device did not answer in time.
    KernelIOTimeout,
}

impl KernelError {
    /// Whether `text` says what went wrong. The text of an error of the
    /// operating system is the system's own and follows a fixed head.
    pub open spec fn described_by(&self, text: Seq<char>) -> bool {
        match self {
            KernelError::KernelIOError(error) => exists|inner: String|
                to_string_from_display_ensures::<std::io::Error>(error, inner) && text
                    == "Kernel IO error: "@ + inner@,
            KernelError::IncompleteWrite => text
                == "Incomplete write occured! Please report this issue!"@,
            KernelError::KernelIOTimeout => text == "Kernel IO operation timed out"@,
        }
    }
}

impl ConnectionError for KernelError {
    /// What went wrong, for people to read.
    fn message(&self) -> (text: String)
        ensures
            self.described_by(text@),
    {
        match self {
            KernelError::KernelIOError(error) => {
                let inner = error.to_string();
                let mut text = "Kernel IO error: ".to_string();
                text.append(inner.as_str());
                text
            },
            KernelError::IncompleteWrite => {
                "Incomplete write occured! Please report this issue!".to_string()
            },
            KernelError::KernelIOTimeout => "Kernel IO operation timed out".to_string(),
        }
    }
}

/// A status reply that could not be decoded.
#[derive(Debug, Clone)]
pub struct StatusParsingError {
    /// What was wrong with the reply.
    pub reason: String,
}

impl StatusParsingError {
    /// What went wrong, as a sequence of characters.
    pub open spec fn spec_message(&self) -> Seq<char> {
        "Failed to parse status information: "@ + self.reason@
    }

    /// What went wrong, for people to read.
    pub fn message(&self) -> (text: String)
        ensures
            text@ == self.spec_message(),
    {
        let mut text = "Failed to parse status information: ".to_string();
        text.append(self.reason.as_str());
        text
    }
}

/// Why no status could be read.
#[derive(Debug)]
pub enum StatusError<E: ConnectionError> {
    /// The transport failed.
    Connection(E),
    /// The printer sent no complete reply, however often it was asked.
    NoResponse,
    /// The reply could not be decoded.
    Parsing(StatusParsingError),
}

/// A reply that is well-formed but not what the protocol expects.
#[derive(Debug, Clone, Copy, PartialEq, Eq, Structural)]
pub enum ProtocolError {
    /// The printer reports errors.
    PrinterError(ErrorFlags),
    /// The printer is in another state than it should be.
    UnexpectedStatus {
        /// Status type that was expected.
        expected_type: StatusType,
        /// Phase that was expected.
        expected_phase: Phase,
        /// Status type that the printer reported.
        actual_type: StatusType,
        /// Phase that the printer reported.
        actual_phase: Phase,
    },
    /// The printer holds another media than the print job was made for.
    MediaMismatch {
        /// Media of the print job.
        expected_media: Media,
        /// Media the printer reported, where the report fits one.
        reported_media: Option<Media>,
    },
}

impl<E: ConnectionError> StatusError<E> {
    /// Whether `text` says what went wrong. The text of a transport error is
    /// the transport's own.
    pub open spec fn described_by(&self, text: Seq<char>) -> bool {
        match self {
            StatusError::Connection(_) => true,
            StatusError::NoResponse => text
                == "Printer did not respond with a status information reply after being queried"@,
            StatusError::Parsing(error) => text == error.spec_message(),
        }
    }

    /// What went wrong, for people to read.
    pub fn message(&self) -> (text: String)
        ensures
            self.described_by(text@),
    {
        match self {
            StatusError::Connection(error) => error.message(),
            StatusError::NoResponse => {
                "Printer did not respond with a status information reply after being queried".to_string()
            },
            StatusError::Parsing(error) => error.message(),
        }
    }
}

impl ProtocolError {
    /// How the media that a printer reported is written in a message.
    pub open spec fn reported_media_text(reported_media: Option<Media>) -> Seq<char> {
        match reported_media {
            Some(media) => "Some("@ + media.spec_name() + ")"@,
            None => "None"@,
        }
    }

    /// What went wrong, as a sequence of characters.
    pub open spec fn spec_message(&self) -> Seq<char> {
        match self {
            ProtocolError::PrinterError(flags) => "Printer reported errors: "@
                + flags.spec_describe(),
            ProtocolError::UnexpectedStatus {
                expected_type,
                expected_phase,
                actual_type,
                actual_phase,
            } => "Unexpected printer status: expected "@ + expected_type.spec_name() + "/"@
                + expected_phase.spec_name() + ", got "@ + actual_type.spec_name() + "/"@
                + actual_phase.spec_name(),
            ProtocolError::MediaMismatch { expected_media, reported_media } => "Print job requires "@
                + expected_media.spec_name() + " tape but printer reported "@
                + ProtocolError::reported_media_text(*reported_media),
        }
    }

    /// What went wrong, for people to read.
    pub fn message(&self) -> (text: String)
        ensures
            text@ == self.spec_message(),
    {
        match self {
            ProtocolError::PrinterError(flags) => {
                let mut text = "Printer reported errors: ".to_string();
                text.append(flags.describe().as_str());
                text
            },
            ProtocolError::UnexpectedStatus {
                expected_type,
                expected_phase,
                actual_type,
                actual_phase,
            } => {
                let mut text = "Unexpected printer status: expected ".to_string();
                text.append(expected_type.name().as_str());
                text.append("/");
                text.append(expected_phase.name().as_str());
                text.append(", got ");
                text.append(actual_type.name().as_str());
                text.append("/");
                text.append(actual_phase.name().as_str());
                text
            },
            ProtocolError::MediaMismatch { expected_media, reported_media } => {
                let mut text = "Print job requires ".to_string();
                text.append(expected_media.name().as_str());
                text.append(" tape but printer reported ");
                match reported_media {
                    Some(media) => {
                        let ghost before = text@;
                        text.append("Some(");
                        text.append(media.name().as_str());
                        text.append(")");
                        assert(text@ =~= before + ProtocolError::reported_media_text(
                            *reported_media,
                        ));
                    },
                    None => {
                        text.append("None");
                    },
                }
                text
            },
        }
    }
}

/// What went wrong while printing.
#[derive(Debug)]
pub enum PrintErrorSource<E: ConnectionError> {
    /// The transport failed.
    Connection(E),
    /// No status could be read.
    Status(StatusError<E>),
    /// The printer's reply does not fit the protocol.
    Protocol(ProtocolError),
}

/// An error of a print session, with the page at which it happened.
#[derive(Debug)]
pub struct PrintError<E: ConnectionError> {
    /// Page at which the error happened: 0 before the first page is sent,
    /// else the number of the page, counted from 1.
    pub page_no: u32,
    /// What went wrong.
    pub source: PrintErrorSource<E>,
}

impl<E: ConnectionError> PrintErrorSource<E> {
    /// Whether `text` says what went wrong: it is the text of the error that
    /// the source holds.
    pub open spec fn described_by(&self, text: Seq<char>) -> bool {
        match self {
            PrintErrorSource::Connection(_) => true,
            PrintErrorSource::Status(error) => error.described_by(text),
            PrintErrorSource::Protocol(error) => text == error.spec_message(),
        }
    }

    /// What went wrong, for people to read.
    pub fn message(&self) -> (text: String)
        ensures
            self.described_by(text@),
    {
        match self {
            PrintErrorSource::Connection(error) => error.message(),
            PrintErrorSource::Status(error) => error.message(),
            PrintErrorSource::Protocol(error) => error.message(),
        }
    }
}

impl<E: ConnectionError> PrintError<E> {
    /// Whether `text` says what went wrong: it names the page, then says
    /// what the source says.
    pub open spec fn described_by(&self, text: Seq<char>) -> bool {
        exists|source: Seq<char>|
            self.source.described_by(source) && text == "Print error on page "@ + decimal_text(
                self.page_no as nat,
            ) + ": "@ + source
    }

    /// What went wrong, for people to read.
    pub fn message(&self) -> (text: String)
        ensures
            self.described_by(text@),
    {
        let source = self.source.message();
        let mut text = "Print error on page ".to_string();
        text.append(decimal(self.page_no as u64).as_str());
        text.append(": ");
        text.append(source.as_str());
        assert(self.source.described_by(source@) && text@ == "Print error on page "@
            + decimal_text(self.page_no as nat) + ": "@ + source@);
        text
    }

    /// An error at the given page.
    pub fn with_page(source: PrintErrorSource<E>, page_no: u32) -> (err: PrintError<E>)
        ensures
            err.page_no == page_no,
            err.source == source,
    {
        PrintError { page_no, source }
    }
}

/// A sample label that could not be drawn.
#[derive(Debug)]
pub struct TypstError {
    /// Why the label could not be drawn.
    pub reason: String,
}

impl TypstError {
    /// What went wrong, as a sequence of characters.
    pub open spec fn spec_message(&self) -> Seq<char> {
        "Couldn't create test-label using typst: "@ + self.reason@
    }

    /// What went wrong, for people to read.
    pub fn message(&self) -> (text: String)
        ensures
            text@ == self.spec_message(),
    {
        let mut text = "Couldn't create test-label using typst: ".to_string();
        text.append(self.reason.as_str());
        text
    }
}

} // verus!
